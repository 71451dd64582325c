//! Per-frame scene planning: which telemetry sample is shown, which planet tiers are
//! blended, and the draw calls that make up the frame.
use vstd::prelude::*;
use crate::lod::{select_lod, tier_of, blend_of, tier_span, LodSelection, MICROS_PER_UNIT, MAX_TIER};
use crate::telemetry::{
    TelemetrySeries,
    RocketData,
    index_at,
    nearest_index,
};

verus! {

/// Clock time of frame 0, in seconds (`num / den`).
pub const START_OFFSET_NUM: i64 = 7;
pub const START_OFFSET_DEN: u32 = 1;
/// Frames per second of simulated time.
pub const FRAMES_PER_SECOND: u32 = 60;
/// Simulated seconds per displayed second (`num / den`).
pub const TIME_SCALE_NUM: u32 = 1;
pub const TIME_SCALE_DEN: u32 = 1;
/// Time between telemetry samples, in seconds (`num / den`).
pub const SAMPLE_PERIOD_NUM: i64 = 1;
pub const SAMPLE_PERIOD_DEN: u32 = 100;
/// Rocket model scale (`num / den`).
pub const ROCKET_SCALE_NUM: u64 = 1;
pub const ROCKET_SCALE_DEN: u64 = 10;
/// Heights of the near and far planet tiles, in micrometres.
pub const NEAR_TILE_LIFT: i64 = 250 * MICROS_PER_UNIT;
pub const FAR_TILE_LIFT: i64 = 280 * MICROS_PER_UNIT;
/// The camera sits this many metres behind and above the rocket.
pub const CAMERA_BACK_M: i64 = 7;
pub const CAMERA_RISE_M: i64 = 20;

/// Clock time of frame `f`: the start offset plus `f` frames of scaled time, as `(num, den)`
/// seconds.
pub open spec fn frame_clock(f: int) -> (int, int) {
    (
        START_OFFSET_NUM * FRAMES_PER_SECOND * TIME_SCALE_DEN + f * TIME_SCALE_NUM * START_OFFSET_DEN,
        START_OFFSET_DEN * FRAMES_PER_SECOND * TIME_SCALE_DEN,
    )
}

pub open spec fn sample_period() -> (int, int) {
    (SAMPLE_PERIOD_NUM as int, SAMPLE_PERIOD_DEN as int)
}

/// Index of the sample shown at frame `f`.
pub open spec fn frame_index(s: TelemetrySeries, f: int) -> int {
    index_at(s.samples().len() as int, frame_clock(f), s.start_time().as_pair(), sample_period())
}

/// Scale of each planet tier's tile: powers of ten and three times them.
pub open spec fn tile_scale(tier: int) -> int {
    if tier == 0 {
        1000
    } else if tier == 1 {
        3000
    } else if tier == 2 {
        10000
    } else if tier == 3 {
        30000
    } else {
        100000
    }
}

fn tile_scale_of(tier: usize) -> (r: u64)
    requires
        tier <= MAX_TIER + 1,
    ensures
        r as int == tile_scale(tier as int),
{
    if tier == 0 {
        1000
    } else if tier == 1 {
        3000
    } else if tier == 2 {
        10000
    } else if tier == 3 {
        30000
    } else {
        100000
    }
}

/// Index of the sample shown at frame `frame`.
pub fn frame_sample_index(series: &TelemetrySeries, frame: u64) -> (r: usize)
    requires
        series.wf(),
    ensures
        r as int == frame_index(*series, frame as int),
{
    let start = series.start();
    let f: i128 = frame as i128;
    assert(START_OFFSET_NUM * FRAMES_PER_SECOND * TIME_SCALE_DEN == 420) by (nonlinear_arith)
        requires
            START_OFFSET_NUM == 7,
            FRAMES_PER_SECOND == 60,
            TIME_SCALE_DEN == 1,
    ;
    assert(START_OFFSET_DEN * FRAMES_PER_SECOND * TIME_SCALE_DEN == 60) by (nonlinear_arith)
        requires
            START_OFFSET_DEN == 1,
            FRAMES_PER_SECOND == 60,
            TIME_SCALE_DEN == 1,
    ;
    assert(f * TIME_SCALE_NUM * START_OFFSET_DEN == f) by (nonlinear_arith)
        requires
            TIME_SCALE_NUM == 1,
            START_OFFSET_DEN == 1,
    ;
    let cn: i128 = START_OFFSET_NUM as i128 * FRAMES_PER_SECOND as i128 * TIME_SCALE_DEN as i128 + f
        * TIME_SCALE_NUM as i128 * START_OFFSET_DEN as i128;
    let cd: i128 = START_OFFSET_DEN as i128 * FRAMES_PER_SECOND as i128 * TIME_SCALE_DEN as i128;
    let (sn, sd) = (start.num as i128, start.den as i128);
    assert(0 <= cn * sd <= 0x1_0000_0000_0000_1000 * 0xffff_ffff) by (nonlinear_arith)
        requires
            0 <= cn <= 0x1_0000_0000_0000_1000,
            0 < sd <= 0xffff_ffff,
    ;
    assert(-0x8000_0000_0000_0000 * 60 <= sn * cd <= 0x8000_0000_0000_0000 * 60) by (nonlinear_arith)
        requires
            -0x8000_0000_0000_0000 <= sn <= 0x8000_0000_0000_0000,
            cd == 60,
    ;
    let diff: i128 = cn * sd - sn * cd;
    let last: usize = series.len() - 1;
    let pn: i128 = SAMPLE_PERIOD_NUM as i128;
    let pd: i128 = SAMPLE_PERIOD_DEN as i128;
    assert(0 < cd * sd * pn <= 60 * 0xffff_ffff) by (nonlinear_arith)
        requires
            cd == 60,
            0 < sd <= 0xffff_ffff,
            pn == 1,
    ;
    assert(diff > 0 ==> diff * pd <= (0x1_0000_0000_0000_1000 * 0xffff_ffff + 0x8000_0000_0000_0000
        * 60) * 100) by (nonlinear_arith)
        requires
            diff <= 0x1_0000_0000_0000_1000 * 0xffff_ffff + 0x8000_0000_0000_0000 * 60,
            pd == 100,
    ;
    let q: u128 = (cd * sd * pn) as u128;
    nearest_index(diff, pd as u128, q, last)
}

/// An exact nonnegative fraction `num / den`.
#[derive(Clone, Copy, Debug, PartialEq, Eq, Structural)]
pub struct Fraction {
    pub num: u64,
    pub den: u64,
}

/// What a draw call renders: the rocket, or the planet tile of a detail tier. The tile's
/// mesh and texture are the ones loaded for that tier.
#[derive(Clone, Copy, Debug, PartialEq, Eq, Structural)]
pub enum Drawable {
    Rocket,
    PlanetTile(usize),
}

/// One draw call: the object, its opacity, its uniform scale and the height (micrometres)
/// it is lifted to.
#[derive(Clone, Copy, Debug, PartialEq, Eq, Structural)]
pub struct DrawCall {
    pub drawable: Drawable,
    pub opacity: Fraction,
    pub scale: Fraction,
    pub lift: i64,
}

/// Everything about a frame that does not need floating point: the shown sample, the
/// rocket's altitude (micrometres) and the two magnetometer axes whose angle gives its
/// roll, the detail tiers, and the draw calls in order.
#[derive(Clone, Debug, PartialEq, Eq)]
pub struct ScenePlan {
    pub sample_index: usize,
    pub altitude: i64,
    pub heading_x: i64,
    pub heading_z: i64,
    pub lod: LodSelection,
    pub draws: Vec<DrawCall>,
}

pub open spec fn full() -> Fraction {
    Fraction { num: 1, den: 1 }
}

/// The rocket at full opacity, then the lower tier's tile at full opacity, then the upper
/// tier's tile faded in by the blend weight.
pub open spec fn frame_draws(lod: LodSelection, altitude: int) -> Seq<DrawCall> {
    seq![
        DrawCall {
            drawable: Drawable::Rocket,
            opacity: full(),
            scale: Fraction { num: ROCKET_SCALE_NUM, den: ROCKET_SCALE_DEN },
            lift: altitude as i64,
        },
        DrawCall {
            drawable: Drawable::PlanetTile(lod.tier),
            opacity: full(),
            scale: Fraction { num: tile_scale(lod.tier as int) as u64, den: 1 },
            lift: NEAR_TILE_LIFT,
        },
        DrawCall {
            drawable: Drawable::PlanetTile((lod.tier + 1) as usize),
            opacity: Fraction { num: lod.blend_num, den: lod.blend_den },
            scale: Fraction { num: tile_scale(lod.tier + 1) as u64, den: 1 },
            lift: FAR_TILE_LIFT,
        },
    ]
}

/// `r` is the plan of frame `frame` of `series` on a `width` by `height` canvas. A canvas
/// with a zero side has no usable aspect ratio, so its frame draws nothing.
pub open spec fn is_plan(r: ScenePlan, series: TelemetrySeries, frame: int, width: int, height: int) -> bool {
    let i = frame_index(series, frame);
    let sample = series.samples()[i];
    let z = sample.barometer_altitude as int;
    &&& r.sample_index as int == i
    &&& r.altitude == sample.barometer_altitude
    &&& r.heading_x == sample.mx
    &&& r.heading_z == sample.mz
    &&& r.lod.tier as int == tier_of(z)
    &&& r.lod.blend_num as int == blend_of(z)
    &&& r.lod.blend_den as int == tier_span(tier_of(z))
    &&& r.draws@ == if width == 0 || height == 0 {
        Seq::<DrawCall>::empty()
    } else {
        frame_draws(r.lod, z)
    }
}

/// Plans frame `frame`: resolves the telemetry sample for the frame's clock, selects the
/// detail tiers from the sample's barometric altitude and lists the draw calls.
pub fn compose(frame: u64, series: &TelemetrySeries, width: u32, height: u32) -> (r: ScenePlan)
    requires
        series.wf(),
    ensures
        is_plan(r, *series, frame as int, width as int, height as int),
        r.lod.wf(),
{
    let sample_index = frame_sample_index(series, frame);
    proof {
        crate::telemetry::lemma_resolve_clamps(
            series.samples().len() as int,
            frame_clock(frame as int),
            series.start_time().as_pair(),
            sample_period(),
        );
    }
    let sample: &RocketData = series.sample(sample_index);
    let z = sample.barometer_altitude;
    let lod = select_lod(z);
    let mut draws: Vec<DrawCall> = Vec::new();
    if width != 0 && height != 0 {
        let near = tile_scale_of(lod.tier);
        let far = tile_scale_of(lod.tier + 1);
        draws.push(
            DrawCall {
                drawable: Drawable::Rocket,
                opacity: Fraction { num: 1, den: 1 },
                scale: Fraction { num: ROCKET_SCALE_NUM, den: ROCKET_SCALE_DEN },
                lift: z,
            },
        );
        draws.push(
            DrawCall {
                drawable: Drawable::PlanetTile(lod.tier),
                opacity: Fraction { num: 1, den: 1 },
                scale: Fraction { num: near, den: 1 },
                lift: NEAR_TILE_LIFT,
            },
        );
        draws.push(
            DrawCall {
                drawable: Drawable::PlanetTile(lod.tier + 1),
                opacity: Fraction { num: lod.blend_num, den: lod.blend_den },
                scale: Fraction { num: far, den: 1 },
                lift: FAR_TILE_LIFT,
            },
        );
        assert(draws@ =~= frame_draws(lod, z as int));
    } else {
        assert(draws@ =~= Seq::<DrawCall>::empty());
    }
    ScenePlan {
        sample_index,
        altitude: z,
        heading_x: sample.mx,
        heading_z: sample.mz,
        lod,
        draws,
    }
}

/// Composing a frame twice from the same inputs gives the same plan: the contract of
/// `compose` fixes every field.
pub proof fn lemma_compose_deterministic(
    r1: ScenePlan,
    r2: ScenePlan,
    series: TelemetrySeries,
    frame: int,
    width: int,
    height: int,
)
    requires
        series.wf(),
        0 <= frame,
        is_plan(r1, series, frame, width, height),
        is_plan(r2, series, frame, width, height),
    ensures
        r1.sample_index == r2.sample_index,
        r1.altitude == r2.altitude,
        r1.heading_x == r2.heading_x,
        r1.heading_z == r2.heading_z,
        r1.lod == r2.lod,
        r1.draws@ == r2.draws@,
{
}

} // verus!
