//! Altitude-driven level-of-detail selection for the planet tiles.
use vstd::prelude::*;

verus! {

/// One metre in the fixed-point unit used for lengths (micrometres).
pub const MICROS_PER_UNIT: i64 = 1_000_000;

/// Altitudes, in whole metres, at which the next detail tier begins.
pub const TIER_BREAK_1_M: i64 = 800;
pub const TIER_BREAK_2_M: i64 = 2000;
pub const TIER_BREAK_3_M: i64 = 4000;

/// Highest tier index; tier `t` is drawn together with tier `t + 1`.
pub const MAX_TIER: usize = 3;

/// Lower edge of a tier, in micrometres.
pub open spec fn tier_floor(tier: int) -> int {
    if tier == 0 {
        0
    } else if tier == 1 {
        TIER_BREAK_1_M * MICROS_PER_UNIT
    } else if tier == 2 {
        TIER_BREAK_2_M * MICROS_PER_UNIT
    } else {
        TIER_BREAK_3_M * MICROS_PER_UNIT
    }
}

/// Length of the altitude span over which a tier's blend weight runs from 0 to 1.
pub open spec fn tier_span(tier: int) -> int {
    if tier == 0 {
        TIER_BREAK_1_M * MICROS_PER_UNIT
    } else if tier == 1 {
        (TIER_BREAK_2_M - TIER_BREAK_1_M) * MICROS_PER_UNIT
    } else if tier == 2 {
        (TIER_BREAK_3_M - TIER_BREAK_2_M) * MICROS_PER_UNIT
    } else {
        TIER_BREAK_3_M * MICROS_PER_UNIT
    }
}

/// Tier for an altitude `z` (micrometres): the last tier whose floor is at or below `z`,
/// with every altitude below the first break in tier 0.
pub open spec fn tier_of(z: int) -> int {
    if z < TIER_BREAK_1_M * MICROS_PER_UNIT {
        0
    } else if z < TIER_BREAK_2_M * MICROS_PER_UNIT {
        1
    } else if z < TIER_BREAK_3_M * MICROS_PER_UNIT {
        2
    } else {
        3
    }
}

/// Numerator of the blend weight over `tier_span`: the distance climbed into the tier,
/// held to the span (0 below the floor, the full span at or past its top).
pub open spec fn blend_of(z: int) -> int {
    let t = tier_of(z);
    let d = z - tier_floor(t);
    if d < 0 {
        0
    } else if d > tier_span(t) {
        tier_span(t)
    } else {
        d
    }
}

/// The two planet tiers to draw and how far to fade in the upper one.
/// The weight of the upper tier is `blend_num / blend_den`, a value in `[0, 1]`.
#[derive(Clone, Copy, Debug, PartialEq, Eq, Structural)]
pub struct LodSelection {
    pub tier: usize,
    pub blend_num: u64,
    pub blend_den: u64,
}

impl LodSelection {
    pub open spec fn wf(&self) -> bool {
        &&& self.tier <= MAX_TIER
        &&& 0 < self.blend_den
        &&& self.blend_num <= self.blend_den
    }
}

/// Picks the detail tier for the altitude `altitude` (micrometres) and the weight with
/// which the next tier is faded in.
pub fn select_lod(altitude: i64) -> (r: LodSelection)
    ensures
        r.wf(),
        r.tier as int == tier_of(altitude as int),
        r.blend_den as int == tier_span(r.tier as int),
        r.blend_num as int == blend_of(altitude as int),
{
    let b1: i64 = TIER_BREAK_1_M * MICROS_PER_UNIT;
    let b2: i64 = TIER_BREAK_2_M * MICROS_PER_UNIT;
    let b3: i64 = TIER_BREAK_3_M * MICROS_PER_UNIT;
    let (tier, floor, span): (usize, i64, i64) = if altitude < b1 {
        (0, 0, b1)
    } else if altitude < b2 {
        (1, b1, b2 - b1)
    } else if altitude < b3 {
        (2, b2, b3 - b2)
    } else {
        (3, b3, b3)
    };
    let num: i64 = if altitude < floor {
        0
    } else if altitude - floor > span {
        span
    } else {
        altitude - floor
    };
    LodSelection { tier, blend_num: num as u64, blend_den: span as u64 }
}

/// Every altitude maps to one of the four tiers and a weight in `[0, 1]`; tiers grow
/// with altitude, and above the last break the weight reaches 1 at twice its height
/// and stays there.
pub proof fn lemma_lod_total(z: int, y: int)
    ensures
        0 <= tier_of(z) <= MAX_TIER,
        0 <= blend_of(z) <= tier_span(tier_of(z)),
        0 < tier_span(tier_of(z)),
        z <= y ==> tier_of(z) <= tier_of(y),
        z >= 2 * TIER_BREAK_3_M * MICROS_PER_UNIT ==> tier_of(z) == MAX_TIER && blend_of(z)
            == tier_span(MAX_TIER as int),
        0 <= z ==> tier_floor(tier_of(z)) <= z,
{
}

} // verus!
