use rocket_vis::lod::select_lod;
use rocket_vis::telemetry::{RocketData, Seconds, TelemetrySeries};

fn sample_with_altitude(alt: i64) -> RocketData {
    RocketData { barometer_altitude: alt, ..RocketData::default() }
}

fn series(n: usize, start: Seconds) -> TelemetrySeries {
    let samples = (0..n).map(|i| sample_with_altitude(i as i64)).collect();
    TelemetrySeries::new(samples, start).unwrap()
}

const SEVEN: Seconds = Seconds { num: 7, den: 1 };
const PERIOD: Seconds = Seconds { num: 1, den: 100 };

#[test]
fn default_sample_is_all_zero() {
    let d = RocketData::default();
    assert_eq!(d.timestamp, 0);
    assert_eq!(d.mx, 0);
    assert_eq!(d.barometer_altitude, 0);
    assert_eq!(d.l2_extension, 0);
    assert_eq!(d, RocketData { rocket_state: 0, ..d });
}

#[test]
fn empty_series_is_refused() {
    assert!(TelemetrySeries::new(vec![], SEVEN).is_none());
    assert!(TelemetrySeries::new(vec![RocketData::default()], Seconds { num: 7, den: 0 }).is_none());
}

#[test]
fn clock_at_series_start_is_index_zero() {
    let s = series(10, SEVEN);
    assert_eq!(s.resolve(Seconds { num: 7, den: 1 }, PERIOD), 0);
    assert_eq!(s.resolve(Seconds { num: 700, den: 100 }, PERIOD), 0);
}

#[test]
fn clock_past_last_sample_clamps() {
    let s = series(10, SEVEN);
    // The last sample is at 7.09 s.
    assert_eq!(s.resolve(Seconds { num: 709, den: 100 }, PERIOD), 9);
    assert_eq!(s.resolve(Seconds { num: 8, den: 1 }, PERIOD), 9);
    assert_eq!(s.resolve(Seconds { num: i64::MAX, den: 1 }, PERIOD), 9);
}

#[test]
fn clock_before_start_clamps_to_first() {
    let s = series(10, SEVEN);
    assert_eq!(s.resolve(Seconds { num: 0, den: 1 }, PERIOD), 0);
    assert_eq!(s.resolve(Seconds { num: i64::MIN, den: 1 }, PERIOD), 0);
}

#[test]
fn halfway_clock_rounds_away_from_zero() {
    let s = series(10, SEVEN);
    // 7.015 s is one and a half periods in.
    assert_eq!(s.resolve(Seconds { num: 7015, den: 1000 }, PERIOD), 2);
    assert_eq!(s.resolve(Seconds { num: 70149, den: 10000 }, PERIOD), 1);
    assert_eq!(s.resolve(Seconds { num: 7025, den: 1000 }, PERIOD), 3);
}

#[test]
fn zero_start_matches_plain_division() {
    let s = series(1000, Seconds { num: 0, den: 1 });
    // 7.0 s / 0.01 s = 700.
    assert_eq!(s.resolve(SEVEN, PERIOD), 700);
    // 7 + 1/60 s -> 701.67 -> 702.
    assert_eq!(s.resolve(Seconds { num: 421, den: 60 }, PERIOD), 702);
}

#[test]
fn sample_accessor_returns_row() {
    let s = series(3, SEVEN);
    assert_eq!(s.len(), 3);
    assert_eq!(s.sample(2).barometer_altitude, 2);
    assert_eq!(s.start(), SEVEN);
}

const M: i64 = 1_000_000;

#[test]
fn lod_just_below_first_break() {
    let l = select_lod(799 * M);
    assert_eq!(l.tier, 0);
    assert_eq!((l.blend_num, l.blend_den), (799 * M as u64, 800 * M as u64));
    assert!((l.blend_num as f64 / l.blend_den as f64 - 0.99875).abs() < 1e-9);
}

#[test]
fn lod_at_breaks() {
    let l = select_lod(800 * M);
    assert_eq!((l.tier, l.blend_num), (1, 0));
    let l = select_lod(2000 * M);
    assert_eq!((l.tier, l.blend_num, l.blend_den), (2, 0, 2000 * M as u64));
    let l = select_lod(4000 * M);
    assert_eq!((l.tier, l.blend_num), (3, 0));
}

#[test]
fn lod_top_tier_saturates() {
    let l = select_lod(8000 * M);
    assert_eq!(l.tier, 3);
    assert_eq!(l.blend_num, l.blend_den);
    let l = select_lod(50_000 * M);
    assert_eq!(l.tier, 3);
    assert_eq!(l.blend_num as f64 / l.blend_den as f64, 1.0);
    let l = select_lod(i64::MAX);
    assert_eq!((l.tier, l.blend_num), (3, l.blend_den));
}

#[test]
fn lod_mid_tier_weights() {
    let l = select_lod(1400 * M);
    assert_eq!((l.tier, l.blend_num, l.blend_den), (1, 600 * M as u64, 1200 * M as u64));
    let l = select_lod(3000 * M);
    assert_eq!((l.tier, l.blend_num, l.blend_den), (2, 1000 * M as u64, 2000 * M as u64));
}

#[test]
fn lod_below_ground_is_tier_zero_unblended() {
    let l = select_lod(-5 * M);
    assert_eq!((l.tier, l.blend_num), (0, 0));
    let l = select_lod(0);
    assert_eq!((l.tier, l.blend_num), (0, 0));
}
