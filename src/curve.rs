//! Shape coefficients of a two-circle spirograph, and the incremental generator
//! of curve samples.
use vstd::prelude::*;

verus! {

/// Smallest admissible value of a shape ratio, in hundredths.
pub const RATIO_MIN: u32 = 1;

/// Largest admissible value of a shape ratio, in hundredths.
pub const RATIO_MAX: u32 = 99;

/// The value `v` brought into `[RATIO_MIN, RATIO_MAX]`.
pub open spec fn clamp_ratio_spec(v: int) -> int {
    if v < RATIO_MIN as int {
        RATIO_MIN as int
    } else if v > RATIO_MAX as int {
        RATIO_MAX as int
    } else {
        v
    }
}

/// Brings a raw control reading (in hundredths) into the admissible ratio range.
/// Any reading is accepted; out-of-range ones are pulled to the nearest bound, so
/// a ratio of zero can never result.
pub fn clamp_ratio(v: i64) -> (r: u32)
    ensures
        r as int == clamp_ratio_spec(v as int),
        RATIO_MIN <= r <= RATIO_MAX,
{
    if v < RATIO_MIN as i64 {
        RATIO_MIN
    } else if v > RATIO_MAX as i64 {
        RATIO_MAX
    } else {
        v as u32
    }
}

/// Shape of a spirograph: a circle whose radius is `k` times that of a fixed
/// circle of radius `r` rolls inside it, and the traced point lies at `l` times
/// the inner radius from the inner centre. `l` and `k` are in hundredths.
#[derive(Clone, Copy, Debug, PartialEq, Eq, Structural)]
pub struct Spirograph {
    pub l: u32,
    pub k: u32,
    pub r: u32,
}

/// A shape whose ratios both lie in the admissible range (so `k` is never zero).
pub open spec fn ratios_valid(s: Spirograph) -> bool {
    RATIO_MIN <= s.l <= RATIO_MAX && RATIO_MIN <= s.k <= RATIO_MAX
}

/// One point of the curve to be evaluated: the shape and the curve parameter `t`,
/// in hundredths of a radian.
#[derive(Clone, Copy, Debug, PartialEq, Eq, Structural)]
pub struct Sample {
    pub s: Spirograph,
    pub t: u64,
}

/// Incremental generator: the shape, the current curve parameter `now` and the
/// fixed step `width`, both in hundredths of a radian.
#[derive(Clone, Copy, Debug, PartialEq, Eq, Structural)]
pub struct SpirographIter {
    pub s: Spirograph,
    pub now: u64,
    pub width: u64,
}

/// The generator after producing one sample.
pub open spec fn advanced(g: SpirographIter) -> SpirographIter {
    SpirographIter { now: (g.now + g.width) as u64, ..g }
}

/// The generator after producing `n` samples in a row.
pub open spec fn advanced_by(g: SpirographIter, n: nat) -> SpirographIter
    decreases n,
{
    if n == 0 {
        g
    } else {
        advanced(advanced_by(g, (n - 1) as nat))
    }
}

/// The generator restarted on the shape `s`.
pub open spec fn restarted(g: SpirographIter, s: Spirograph) -> SpirographIter {
    SpirographIter { s, now: 0, ..g }
}

/// Whether `n` more samples can be produced without the curve parameter
/// leaving the range of `u64`.
pub open spec fn can_advance_by(g: SpirographIter, n: nat) -> bool {
    g.now + n * g.width <= u64::MAX
}

impl Spirograph {
    pub fn new(l: u32, k: u32, r: u32) -> (res: Self)
        ensures
            res == (Spirograph { l, k, r }),
    {
        Spirograph { l, k, r }
    }

    /// A generator over this shape that starts at `t = 0` and moves by `width`.
    pub fn iter(self, width: u64) -> (res: SpirographIter)
        ensures
            res == (SpirographIter { s: self, now: 0, width }),
    {
        SpirographIter { s: self, now: 0, width }
    }
}

impl SpirographIter {
    /// Hands out the sample at the current parameter, then moves the parameter
    /// on by one step. The shape and the step are kept.
    pub fn next(&mut self) -> (res: Sample)
        requires
            can_advance_by(*old(self), 1),
        ensures
            res == (Sample { s: old(self).s, t: old(self).now }),
            *final(self) == advanced(*old(self)),
            final(self).now == old(self).now + old(self).width,
    {
        let res = Sample { s: self.s, t: self.now };
        self.now = self.now + self.width;
        res
    }

    /// Replaces the shape and starts the curve again from `t = 0`, whatever
    /// came before. The step is kept.
    pub fn reset(&mut self, s: Spirograph)
        ensures
            *final(self) == restarted(*old(self), s),
            final(self).now == 0,
    {
        self.s = s;
        self.now = 0;
    }
}

/// Producing `n` samples in a row moves the curve parameter on by exactly `n`
/// steps and keeps the shape and the step; a restart afterwards brings the
/// parameter back to zero however many samples came before.
pub proof fn lemma_advance_then_restart(g: SpirographIter, n: nat, s: Spirograph)
    requires
        can_advance_by(g, n),
    ensures
        advanced_by(g, n).now == g.now + n * g.width,
        advanced_by(g, n).s == g.s,
        advanced_by(g, n).width == g.width,
        restarted(advanced_by(g, n), s).now == 0,
        restarted(advanced_by(g, n), s).s == s,
    decreases n,
{
    if n > 0 {
        let m = (n - 1) as nat;
        assert(g.now + m * g.width <= g.now + n * g.width) by (nonlinear_arith)
            requires
                n == m + 1,
        ;
        lemma_advance_then_restart(g, m, s);
        assert((g.now + m * g.width) + g.width == g.now + n * g.width) by (nonlinear_arith)
            requires
                n == m + 1,
        ;
        let prev = advanced_by(g, m);
        assert(prev.now + prev.width <= u64::MAX);
        assert(advanced_by(g, n) == advanced(prev));
    } else {
        assert(n * g.width == 0) by (nonlinear_arith)
            requires
                n == 0,
        ;
    }
}

} // verus!
