use rocket_vis::error::{ResourceError, ShaderError, StateError};
use rocket_vis::gpu::{compile_outcome, link_outcome, vertex_count};
use rocket_vis::render_loop::{Phase, RenderLoop};
use rocket_vis::scene::{compose, frame_sample_index, Drawable, Fraction};
use rocket_vis::telemetry::{RocketData, Seconds, TelemetrySeries};

const M: i64 = 1_000_000;

fn single_sample_series() -> TelemetrySeries {
    let row = RocketData { barometer_altitude: 0, mx: M, mz: 0, ..RocketData::default() };
    TelemetrySeries::new(vec![row], Seconds { num: 0, den: 1 }).unwrap()
}

#[test]
fn one_frame_of_single_sample_issues_three_draws() {
    let series = single_sample_series();
    let mut lp: RenderLoop<&str> = RenderLoop::new();
    lp.start("gpu").unwrap();
    let (res, frame) = lp.begin_frame().unwrap();
    assert_eq!(frame, 0);
    let plan = compose(frame, &series, 800, 600);
    assert_eq!(plan.draws.len(), 3);
    assert_eq!(plan.draws[0].drawable, Drawable::Rocket);
    assert_eq!(plan.draws[1].drawable, Drawable::PlanetTile(0));
    assert_eq!(plan.draws[2].drawable, Drawable::PlanetTile(1));
    let roll = (plan.heading_x as f64).atan2(plan.heading_z as f64);
    assert!((roll - std::f64::consts::FRAC_PI_2).abs() < 1e-12);
    lp.finish_frame(res).unwrap();
    assert_eq!(lp.frame_count(), 1);
}

#[test]
fn draws_carry_scales_lifts_and_opacity() {
    let row = RocketData { barometer_altitude: 1400 * M, ..RocketData::default() };
    let series = TelemetrySeries::new(vec![row], Seconds { num: 0, den: 1 }).unwrap();
    let plan = compose(5, &series, 4, 3);
    assert_eq!(plan.lod.tier, 1);
    let d = &plan.draws;
    assert_eq!(d[0].lift, 1400 * M);
    assert_eq!(d[0].scale, Fraction { num: 1, den: 10 });
    assert_eq!(d[0].opacity, Fraction { num: 1, den: 1 });
    assert_eq!((d[1].scale, d[1].lift), (Fraction { num: 3000, den: 1 }, 250 * M));
    assert_eq!(d[1].opacity, Fraction { num: 1, den: 1 });
    assert_eq!((d[2].scale, d[2].lift), (Fraction { num: 10000, den: 1 }, 280 * M));
    assert_eq!(d[2].opacity, Fraction { num: 600 * M as u64, den: 1200 * M as u64 });
}

#[test]
fn top_tier_fades_in_last_tile() {
    let row = RocketData { barometer_altitude: 9000 * M, ..RocketData::default() };
    let series = TelemetrySeries::new(vec![row], Seconds { num: 0, den: 1 }).unwrap();
    let plan = compose(0, &series, 1, 1);
    assert_eq!(plan.draws[1].drawable, Drawable::PlanetTile(3));
    assert_eq!(plan.draws[2].drawable, Drawable::PlanetTile(4));
    assert_eq!(plan.draws[2].scale, Fraction { num: 100000, den: 1 });
    assert_eq!(plan.draws[2].opacity.num, plan.draws[2].opacity.den);
}

#[test]
fn zero_sized_canvas_draws_nothing() {
    let series = single_sample_series();
    assert!(compose(0, &series, 0, 600).draws.is_empty());
    assert!(compose(0, &series, 800, 0).draws.is_empty());
}

#[test]
fn compose_twice_gives_identical_plans() {
    let rows: Vec<RocketData> = (0..2000)
        .map(|i| RocketData { barometer_altitude: i * 3 * M, mx: i, mz: 7 - i, ..RocketData::default() })
        .collect();
    let series = TelemetrySeries::new(rows, Seconds { num: 0, den: 1 }).unwrap();
    for frame in [0u64, 1, 59, 60, 1234, u64::MAX] {
        assert_eq!(compose(frame, &series, 640, 480), compose(frame, &series, 640, 480));
    }
}

#[test]
fn frames_advance_the_sample_clock() {
    let rows = vec![RocketData::default(); 2000];
    let series = TelemetrySeries::new(rows, Seconds { num: 0, den: 1 }).unwrap();
    // Frame 0 is at 7.0 s: sample 700. Each frame adds 1/60 s = 5/3 samples.
    assert_eq!(frame_sample_index(&series, 0), 700);
    assert_eq!(frame_sample_index(&series, 1), 702);
    assert_eq!(frame_sample_index(&series, 2), 703);
    assert_eq!(frame_sample_index(&series, 3), 705);
    assert_eq!(frame_sample_index(&series, 60), 800);
    assert_eq!(frame_sample_index(&series, u64::MAX), 1999);
    let started = TelemetrySeries::new(vec![RocketData::default(); 200], Seconds { num: 7, den: 1 }).unwrap();
    assert_eq!(frame_sample_index(&started, 0), 0);
    assert_eq!(frame_sample_index(&started, 60), 100);
    assert_eq!(compose(60, &started, 1, 1).sample_index, 100);
}

#[test]
fn loop_refuses_frames_before_start() {
    let mut lp: RenderLoop<u8> = RenderLoop::new();
    assert_eq!(lp.phase(), Phase::Uninitialized);
    assert_eq!(lp.begin_frame().unwrap_err(), StateError::NotStarted);
    assert_eq!(lp.finish_frame(1), Err(StateError::NoTickInProgress));
    assert_eq!(lp.frame_count(), 0);
}

#[test]
fn loop_refuses_overlapping_ticks() {
    let mut lp: RenderLoop<u8> = RenderLoop::new();
    lp.start(5).unwrap();
    let (res, _) = lp.begin_frame().unwrap();
    assert_eq!(lp.phase(), Phase::Ticking);
    assert_eq!(lp.begin_frame().unwrap_err(), StateError::TickInProgress);
    assert_eq!(lp.start(6), Err(StateError::TickInProgress));
    lp.finish_frame(res).unwrap();
    assert_eq!(lp.phase(), Phase::Ready);
    let (res, frame) = lp.begin_frame().unwrap();
    assert_eq!((res, frame), (5, 1));
    lp.finish_frame(res).unwrap();
    assert_eq!(lp.frame_count(), 2);
}

#[test]
fn loop_stops_after_aborted_tick() {
    let mut lp: RenderLoop<u8> = RenderLoop::new();
    lp.start(5).unwrap();
    let (res, _) = lp.begin_frame().unwrap();
    lp.abort_frame(res).unwrap();
    assert_eq!(lp.phase(), Phase::Failed);
    assert_eq!(lp.frame_count(), 0);
    assert_eq!(lp.begin_frame().unwrap_err(), StateError::Failed);
    assert_eq!(lp.abort_frame(1), Err(StateError::NoTickInProgress));
    lp.start(9).unwrap();
    assert_eq!(lp.begin_frame().unwrap(), (9, 0));
}

#[test]
fn shader_outcomes_keep_native_logs() {
    assert_eq!(compile_outcome(true, None), Ok(()));
    assert_eq!(
        compile_outcome(false, Some("0:3: syntax error".to_string())),
        Err(ShaderError::CompileFailed("0:3: syntax error".to_string()))
    );
    assert_eq!(
        compile_outcome(false, None),
        Err(ShaderError::CompileFailed("Unknown error creating shader".to_string()))
    );
    assert_eq!(link_outcome(true, Some("ignored".to_string())), Ok(()));
    assert_eq!(
        link_outcome(false, Some("varying mismatch".to_string())),
        Err(ShaderError::LinkFailed("varying mismatch".to_string()))
    );
    assert_eq!(
        link_outcome(false, None),
        Err(ShaderError::LinkFailed("Unknown error creating program object".to_string()))
    );
}

#[test]
fn vertex_counts_fit_draw_calls() {
    assert_eq!(vertex_count(18), Ok(6));
    assert_eq!(vertex_count(20), Ok(6));
    assert_eq!(vertex_count(0), Ok(0));
    assert_eq!(vertex_count(3 * i32::MAX as usize + 2), Ok(i32::MAX));
    assert_eq!(vertex_count(3 * (i32::MAX as usize + 1)), Err(ResourceError::TooManyVertices));
}
