//! Recorded flight telemetry and the mapping from a simulation clock to a sample.
use vstd::prelude::*;
use vstd::arithmetic::div_mod::lemma_fundamental_div_mod_converse;

verus! {

/// One telemetry row. Measured quantities are fixed-point: each holds millionths of the
/// unit the recorder logs (metres, degrees, hectopascals, ...).
#[derive(Clone, Copy, Debug, PartialEq, Eq, Structural)]
pub struct RocketData {
    pub timestamp: u32,
    pub ax: i64,
    pub ay: i64,
    pub az: i64,
    pub gx: i64,
    pub gy: i64,
    pub gz: i64,
    pub mx: i64,
    pub my: i64,
    pub mz: i64,
    pub latitude: i64,
    pub longitude: i64,
    pub altitude: i64,
    pub satellite_count: u32,
    pub position_lock: u32,
    pub temperature: i64,
    pub pressure: i64,
    pub barometer_altitude: i64,
    pub rocket_state: u32,
    pub l1_extension: i64,
    pub l2_extension: i64,
}

pub open spec fn zero_sample() -> RocketData {
    RocketData {
        timestamp: 0,
        ax: 0,
        ay: 0,
        az: 0,
        gx: 0,
        gy: 0,
        gz: 0,
        mx: 0,
        my: 0,
        mz: 0,
        latitude: 0,
        longitude: 0,
        altitude: 0,
        satellite_count: 0,
        position_lock: 0,
        temperature: 0,
        pressure: 0,
        barometer_altitude: 0,
        rocket_state: 0,
        l1_extension: 0,
        l2_extension: 0,
    }
}

impl Default for RocketData {
    /// The all-zero sample.
    fn default() -> (r: Self)
        ensures
            r == zero_sample(),
    {
        RocketData {
            timestamp: 0,
            ax: 0,
            ay: 0,
            az: 0,
            gx: 0,
            gy: 0,
            gz: 0,
            mx: 0,
            my: 0,
            mz: 0,
            latitude: 0,
            longitude: 0,
            altitude: 0,
            satellite_count: 0,
            position_lock: 0,
            temperature: 0,
            pressure: 0,
            barometer_altitude: 0,
            rocket_state: 0,
            l1_extension: 0,
            l2_extension: 0,
        }
    }
}

/// An exact time in seconds, `num / den`.
#[derive(Clone, Copy, Debug, PartialEq, Eq, Structural)]
pub struct Seconds {
    pub num: i64,
    pub den: u32,
}

impl Seconds {
    pub open spec fn wf(&self) -> bool {
        self.den > 0
    }

    pub open spec fn as_pair(&self) -> (int, int) {
        (self.num as int, self.den as int)
    }
}

/// `p / q` rounded to the nearest integer, halves away from zero (`q > 0`).
pub open spec fn round_ratio(p: int, q: int) -> int {
    if p >= 0 {
        (2 * p + q) / (2 * q)
    } else {
        -((-2 * p + q) / (2 * q))
    }
}

/// `i` held to the valid indices `[0, len - 1]` of a nonempty series.
pub open spec fn clamp_index(i: int, len: int) -> int {
    if i < 0 {
        0
    } else if i > len - 1 {
        len - 1
    } else {
        i
    }
}

/// The sample index for a clock, a series start time and a sample period (each a pair
/// `(num, den)` of seconds): the number of periods from the start to the clock, rounded
/// half away from zero and held to the series.
pub open spec fn index_at(len: int, clock: (int, int), start: (int, int), period: (int, int)) -> int {
    clamp_index(
        round_ratio(
            (clock.0 * start.1 - start.0 * clock.1) * period.1,
            clock.1 * start.1 * period.0,
        ),
        len,
    )
}

proof fn lemma_round_split(p: int, q: int)
    requires
        p >= 0,
        q > 0,
    ensures
        round_ratio(p, q) == p / q + (if p % q >= q - p % q { 1int } else { 0int }),
{
    let w = p / q;
    let r = p % q;
    vstd::arithmetic::div_mod::lemma_fundamental_div_mod(p, q);
    assert(w * (2 * q) == 2 * (w * q)) by (nonlinear_arith);
    if r >= q - r {
        assert(2 * p + q == (w + 1) * (2 * q) + (2 * r - q)) by (nonlinear_arith)
            requires
                p == q * w + r,
        ;
        lemma_fundamental_div_mod_converse(2 * p + q, 2 * q, w + 1, 2 * r - q);
    } else {
        assert(2 * p + q == w * (2 * q) + (2 * r + q)) by (nonlinear_arith)
            requires
                p == q * w + r,
        ;
        lemma_fundamental_div_mod_converse(2 * p + q, 2 * q, w, 2 * r + q);
    }
}

proof fn lemma_round_nonpositive(p: int, q: int)
    requires
        p <= 0,
        q > 0,
    ensures
        round_ratio(p, q) <= 0,
{
    if p < 0 {
        assert((-2 * p + q) / (2 * q) >= 0) by (nonlinear_arith)
            requires
                -2 * p + q >= 0,
                q > 0,
        ;
    } else {
        assert(q / (2 * q) == 0) by (nonlinear_arith)
            requires
                q > 0,
        ;
    }
}

/// `min(round_ratio(p, q), last)` for `p >= 0`.
fn round_clamped(p: u128, q: u128, last: usize) -> (r: usize)
    requires
        q > 0,
    ensures
        r as int == if round_ratio(p as int, q as int) > last as int {
            last as int
        } else {
            round_ratio(p as int, q as int)
        },
{
    proof {
        lemma_round_split(p as int, q as int);
    }
    let whole: u128 = p / q;
    let rem: u128 = p % q;
    let up: bool = rem >= q - rem;
    if whole >= last as u128 {
        last
    } else if up {
        (whole + 1) as usize
    } else {
        whole as usize
    }
}

/// Playback never leaves the series: every clock resolves to a valid index, a clock
/// equal to the series start resolves to the first sample, and a clock at or past the
/// time of the last sample (the start plus `len - 1` periods) resolves to the last one.
pub proof fn lemma_resolve_clamps(len: int, clock: (int, int), start: (int, int), period: (int, int))
    requires
        len > 0,
        clock.1 > 0,
        start.1 > 0,
        period.0 > 0,
        period.1 > 0,
    ensures
        0 <= index_at(len, clock, start, period) < len,
        clock.0 * start.1 == start.0 * clock.1 ==> index_at(len, clock, start, period) == 0,
        (clock.0 * start.1 - start.0 * clock.1) * period.1 >= (len - 1) * (clock.1 * start.1
            * period.0) ==> index_at(len, clock, start, period) == len - 1,
{
    let p = (clock.0 * start.1 - start.0 * clock.1) * period.1;
    let q = clock.1 * start.1 * period.0;
    assert(q > 0) by (nonlinear_arith)
        requires
            clock.1 > 0,
            start.1 > 0,
            period.0 > 0,
            q == clock.1 * start.1 * period.0,
    ;
    if clock.0 * start.1 == start.0 * clock.1 {
        assert(p == 0) by (nonlinear_arith)
            requires
                p == (clock.0 * start.1 - start.0 * clock.1) * period.1,
                clock.0 * start.1 == start.0 * clock.1,
        ;
        lemma_round_nonpositive(p, q);
        assert(round_ratio(p, q) >= 0);
    }
    if p >= (len - 1) * q {
        assert(2 * p + q >= (len - 1) * (2 * q)) by (nonlinear_arith)
            requires
                p >= (len - 1) * q,
                q > 0,
        ;
        vstd::arithmetic::div_mod::lemma_div_is_ordered((len - 1) * (2 * q), 2 * p + q, 2 * q);
        vstd::arithmetic::div_mod::lemma_div_multiples_vanish(len - 1, 2 * q);
        assert((len - 1) * (2 * q) == (2 * q) * (len - 1)) by (nonlinear_arith);
    }
}

/// The index nearest to `diff * scale / q`, held to `[0, last]`.
pub(crate) fn nearest_index(diff: i128, scale: u128, q: u128, last: usize) -> (r: usize)
    requires
        q > 0,
        scale > 0,
        diff > 0 ==> diff * scale <= u128::MAX,
    ensures
        r as int == clamp_index(round_ratio(diff * scale, q as int), last + 1),
{
    if diff <= 0 {
        assert(diff * scale <= 0) by (nonlinear_arith)
            requires
                diff <= 0,
                scale > 0,
        ;
        proof {
            lemma_round_nonpositive(diff * scale, q as int);
        }
        return 0;
    }
    assert(diff * scale >= 0) by (nonlinear_arith)
        requires
            diff > 0,
            scale > 0,
    ;
    let p: u128 = diff as u128 * scale;
    round_clamped(p, q, last)
}

/// A nonempty, immutable telemetry recording with the clock time of its first sample.
#[derive(Clone, Debug)]
pub struct TelemetrySeries {
    samples: Vec<RocketData>,
    start: Seconds,
}

impl TelemetrySeries {
    pub closed spec fn samples(&self) -> Seq<RocketData> {
        self.samples@
    }

    pub closed spec fn start_time(&self) -> Seconds {
        self.start
    }

    pub open spec fn wf(&self) -> bool {
        self.samples().len() > 0 && self.start_time().wf()
    }

    /// A series of `samples` whose first row was recorded at clock time `start`;
    /// `None` when there is no row or `start` has a zero denominator.
    pub fn new(samples: Vec<RocketData>, start: Seconds) -> (r: Option<Self>)
        ensures
            r is Some <==> (samples@.len() > 0 && start.wf()),
            r matches Some(s) ==> s.wf() && s.samples() == samples@ && s.start_time() == start,
    {
        if samples.len() == 0 || start.den == 0 {
            None
        } else {
            Some(TelemetrySeries { samples, start })
        }
    }

    pub fn len(&self) -> (r: usize)
        ensures
            r == self.samples().len(),
    {
        self.samples.len()
    }

    pub fn start(&self) -> (r: Seconds)
        ensures
            r == self.start_time(),
    {
        self.start
    }

    pub fn sample(&self, i: usize) -> (r: &RocketData)
        requires
            i < self.samples().len(),
        ensures
            *r == self.samples()[i as int],
    {
        &self.samples[i]
    }

    /// Index of the sample shown at `clock` when samples are `period` apart. Clocks before
    /// the first sample give index 0; clocks past the last one give the last index.
    pub fn resolve(&self, clock: Seconds, period: Seconds) -> (r: usize)
        requires
            self.wf(),
            clock.wf(),
            period.wf(),
            period.num > 0,
        ensures
            r as int == index_at(
                self.samples().len() as int,
                clock.as_pair(),
                self.start_time().as_pair(),
                period.as_pair(),
            ),
    {
        let (cn, cd, sn, sd, pn, pd) = (
            clock.num as i128,
            clock.den as i128,
            self.start.num as i128,
            self.start.den as i128,
            period.num as i128,
            period.den as i128,
        );
        assert(-0x8000_0000_0000_0000 * 0xffff_ffff <= cn * sd <= 0x8000_0000_0000_0000 * 0xffff_ffff)
            by (nonlinear_arith)
            requires
                -0x8000_0000_0000_0000 <= cn <= 0x8000_0000_0000_0000,
                0 < sd <= 0xffff_ffff,
        ;
        assert(-0x8000_0000_0000_0000 * 0xffff_ffff <= sn * cd <= 0x8000_0000_0000_0000 * 0xffff_ffff)
            by (nonlinear_arith)
            requires
                -0x8000_0000_0000_0000 <= sn <= 0x8000_0000_0000_0000,
                0 < cd <= 0xffff_ffff,
        ;
        let diff: i128 = cn * sd - sn * cd;
        let last: usize = self.samples.len() - 1;
        assert((cd as u128) * (sd as u128) <= 0xffff_ffff * 0xffff_ffff) by (nonlinear_arith)
            requires
                0 < cd <= 0xffff_ffff,
                0 < sd <= 0xffff_ffff,
        ;
        let cs: u128 = (cd as u128) * (sd as u128);
        assert(cs * (pn as u128) <= 0xffff_ffff * 0xffff_ffff * 0x7fff_ffff_ffff_ffff) by (nonlinear_arith)
            requires
                cs <= 0xffff_ffff * 0xffff_ffff,
                0 < pn <= 0x7fff_ffff_ffff_ffff,
        ;
        assert(cs * (pn as u128) > 0) by (nonlinear_arith)
            requires
                cs == cd * sd,
                cd > 0,
                sd > 0,
                pn > 0,
        ;
        let q: u128 = cs * (pn as u128);
        assert(diff > 0 ==> diff * pd <= u128::MAX) by (nonlinear_arith)
            requires
                diff <= 0x1_0000_0000_0000_0000 * 0xffff_ffff,
                0 < pd <= 0xffff_ffff,
        ;
        assert(q as int == cd * sd * pn);
        nearest_index(diff, pd as u128, q, last)
    }
}

} // verus!
