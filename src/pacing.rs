//! Playback pacing: how many seconds of video one day of history gets.
//!
//! The value is a ratio of integers, so that the heuristic and its laws are
//! exact.

use vstd::prelude::*;
use crate::text::{decimal, decimal_text, pad_zeros, zero_padded};

verus! {

/// Total video length for the shortest histories, in seconds.
pub const MIN_DURATION: u64 = 40;
/// Total video length for histories longer than the threshold, in seconds.
pub const MAX_DURATION: u64 = 80;
/// Number of distinct commit days up to which the total length is interpolated.
pub const THRESHOLD: u64 = 1000;
/// Lowest seconds-per-day value, as a ratio: 1 / 100000.
pub const FLOOR_DENOMINATOR: u64 = 100000;
/// Digits after the decimal point in the rendered value.
pub const FRACTION_DIGITS: usize = 6;

/// A non-negative rational number, in ghost code.
pub ghost struct Ratio {
    pub num: nat,
    pub den: nat,
}

impl Ratio {
    pub open spec fn le(self, other: Ratio) -> bool {
        self.num * other.den <= other.num * self.den
    }

    pub open spec fn lt(self, other: Ratio) -> bool {
        self.num * other.den < other.num * self.den
    }

    /// Same value (not necessarily the same representation).
    pub open spec fn same_value(self, other: Ratio) -> bool {
        self.num * other.den == other.num * self.den
    }
}

/// The smallest seconds-per-day value handed to the renderer.
pub open spec fn floor_ratio() -> Ratio {
    Ratio { num: 1, den: FLOOR_DENOMINATOR as nat }
}

/// The largest seconds-per-day value handed to the renderer.
pub open spec fn ceiling_ratio() -> Ratio {
    Ratio { num: 1, den: 1 }
}

/// Target length of the whole video for `days` distinct commit days: linear
/// from `MIN_DURATION` (no days) to `MAX_DURATION` (at the threshold), then
/// `MAX_DURATION`.
pub open spec fn target_duration(days: nat) -> Ratio {
    if days <= THRESHOLD {
        Ratio {
            num: (MIN_DURATION * THRESHOLD + (MAX_DURATION - MIN_DURATION) * days) as nat,
            den: THRESHOLD as nat,
        }
    } else {
        Ratio { num: MAX_DURATION as nat, den: 1 }
    }
}

/// `r` brought into `[floor_ratio(), ceiling_ratio()]`.
pub open spec fn clamp_ratio(r: Ratio) -> Ratio {
    if r.lt(floor_ratio()) {
        floor_ratio()
    } else if ceiling_ratio().lt(r) {
        ceiling_ratio()
    } else {
        r
    }
}

/// Seconds of video per day of history: the target duration shared out over
/// the days, clamped; no days at all give the floor.
pub open spec fn seconds_per_day(days: nat) -> Ratio {
    if days == 0 {
        floor_ratio()
    } else {
        let t = target_duration(days);
        clamp_ratio(Ratio { num: t.num, den: t.den * days })
    }
}

/// Text of `num / den` with `FRACTION_DIGITS` digits after the point,
/// rounded down.
pub open spec fn fixed_point_text(num: nat, den: nat) -> Seq<char>
    recommends
        den > 0,
{
    let scaled = num * 1_000_000 / den;
    decimal(scaled / 1_000_000) + seq!['.'] + zero_padded(decimal(scaled % 1_000_000), 6)
}

/// Clamping keeps the order of two values with positive denominators.
proof fn lemma_clamp_monotone(x: Ratio, y: Ratio)
    requires
        x.den > 0,
        y.den > 0,
        x.le(y),
    ensures
        clamp_ratio(x).le(clamp_ratio(y)),
{
    let f = floor_ratio();
    let c = ceiling_ratio();
    if y.lt(f) {
        // x <= y < floor
        assert(x.lt(f)) by (nonlinear_arith)
            requires
                x.num * y.den <= y.num * x.den,
                y.num * 100000 < y.den,
                x.den > 0,
                y.den > 0,
                f == floor_ratio();
    }
    if c.lt(x) {
        // ceiling < x <= y
        assert(c.lt(y)) by (nonlinear_arith)
            requires
                x.num * y.den <= y.num * x.den,
                x.den < x.num,
                x.den > 0,
                y.den > 0,
                c == ceiling_ratio();
    }
}

/// Within the threshold the target duration grows with the number of days,
/// from `MIN_DURATION` towards `MAX_DURATION`, while the seconds per day
/// shrink: fewer days get more time each, up to the ceiling.
pub proof fn lemma_interpolation_monotone(a: nat, b: nat)
    requires
        1 <= a <= b <= THRESHOLD,
    ensures
        (Ratio { num: MIN_DURATION as nat, den: 1 }).le(target_duration(a)),
        target_duration(a).le(target_duration(b)),
        target_duration(b).le((Ratio { num: MAX_DURATION as nat, den: 1 })),
        seconds_per_day(b).le(seconds_per_day(a)),
{
    let ta = target_duration(a);
    let tb = target_duration(b);
    let ra = Ratio { num: ta.num, den: ta.den * a };
    let rb = Ratio { num: tb.num, den: tb.den * b };
    assert(ra.den == 1000 * a && rb.den == 1000 * b) by (nonlinear_arith)
        requires
            ra.den == ta.den * a,
            rb.den == tb.den * b,
            ta.den == 1000,
            tb.den == 1000;
    assert(rb.le(ra)) by (nonlinear_arith)
        requires
            rb.num == 40000 + 40 * b,
            ra.num == 40000 + 40 * a,
            rb.den == 1000 * b,
            ra.den == 1000 * a,
            1 <= a <= b;
    lemma_clamp_monotone(rb, ra);
}

/// Beyond the threshold every day gets `MAX_DURATION / days` seconds,
/// clamped.
pub proof fn lemma_beyond_threshold_uses_max_duration(days: nat)
    requires
        days > THRESHOLD,
    ensures
        seconds_per_day(days) == clamp_ratio((Ratio { num: MAX_DURATION as nat, den: days })),
{
}

/// Whatever the number of days, zero included, the seconds per day lie
/// between the floor and the ceiling.
pub proof fn lemma_within_bounds(days: nat)
    ensures
        floor_ratio().le(seconds_per_day(days)),
        seconds_per_day(days).le(ceiling_ratio()),
{
    if days > 0 {
        let t = target_duration(days);
        let r = Ratio { num: t.num, den: t.den * days };
        if !r.lt(floor_ratio()) && !ceiling_ratio().lt(r) {
            assert(floor_ratio().le(r));
            assert(r.le(ceiling_ratio()));
        }
    }
}

/// A seconds-per-day value: `numerator / denominator`.
pub struct SecondsPerDay {
    numerator: u64,
    denominator: u64,
}

impl View for SecondsPerDay {
    type V = Ratio;

    closed spec fn view(&self) -> Ratio {
        Ratio { num: self.numerator as nat, den: self.denominator as nat }
    }
}

impl SecondsPerDay {
    #[verifier::type_invariant]
    spec fn positive_denominator(self) -> bool {
        self.denominator > 0
    }

    pub fn numerator(&self) -> (r: u64)
        ensures
            r == self@.num,
    {
        self.numerator
    }

    pub fn denominator(&self) -> (r: u64)
        ensures
            r == self@.den,
            r > 0,
    {
        proof { use_type_invariant(self); }
        self.denominator
    }

    /// The value as decimal text with six digits after the point, rounded
    /// down (`"0.120000"`).
    pub fn to_decimal_string(&self) -> (r: String)
        ensures
            r@ == fixed_point_text(self@.num, self@.den),
    {
        proof { use_type_invariant(self); }
        let scaled: u128 = (self.numerator as u128) * 1_000_000 / (self.denominator as u128);
        let whole = decimal_text(scaled / 1_000_000);
        let frac = pad_zeros(decimal_text(scaled % 1_000_000), FRACTION_DIGITS);
        let with_point = whole.concat(".");
        let r = with_point.concat(frac.as_str());
        proof { reveal_strlit("."); }
        assert(r@ =~= fixed_point_text(self@.num, self@.den));
        r
    }
}

/// Seconds of video per distinct commit day, for `days_with_commits` days.
pub fn calculate_seconds_per_day(days_with_commits: u64) -> (r: SecondsPerDay)
    ensures
        r@ == seconds_per_day(days_with_commits as nat),
{
    let d = days_with_commits;
    if d == 0 {
        return SecondsPerDay { numerator: 1, denominator: FLOOR_DENOMINATOR };
    }
    let (num, den): (u64, u64) = if d <= THRESHOLD {
        assert(40 * d <= 40000 && 1000 * d <= 1000000) by (nonlinear_arith)
            requires d <= 1000;
        (MIN_DURATION * THRESHOLD + (MAX_DURATION - MIN_DURATION) * d, THRESHOLD * d)
    } else {
        (MAX_DURATION, d)
    };
    assert(num as nat * FLOOR_DENOMINATOR <= u64::MAX) by (nonlinear_arith)
        requires num <= 80000;
    let ghost t = target_duration(d as nat);
    assert(t.num == num && t.den * d == den) by (nonlinear_arith)
        requires
            t == target_duration(d as nat),
            d <= THRESHOLD ==> num == 40000 + 40 * d && den == 1000 * d,
            d > THRESHOLD ==> num == 80 && den == d;
    if num * FLOOR_DENOMINATOR < den {
        SecondsPerDay { numerator: 1, denominator: FLOOR_DENOMINATOR }
    } else if num > den {
        SecondsPerDay { numerator: 1, denominator: 1 }
    } else {
        SecondsPerDay { numerator: num, denominator: den }
    }
}

} // verus!
