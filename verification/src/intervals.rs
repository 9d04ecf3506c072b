//! Interval arithmetic of the dispatcher: the two thresholds derived from the
//! registered intervals, and the wrapping local counter.

use vstd::prelude::*;

verus! {

/// Default instruction-count interval of an idle dispatcher.
pub const LARGE_INTERVAL: i64 = 100000;

/// Default cycle-count interval of an idle dispatcher.
pub const SMALL_INTERVAL: i64 = 10000;

/// `x / 2`, rounded toward zero.
pub open spec fn half(x: int) -> int {
    if x >= 0 {
        x / 2
    } else {
        -((-x) / 2)
    }
}

/// `0.9 * x`, rounded to the nearest integer; a tie is rounded away from zero.
pub open spec fn nine_tenths(x: int) -> int {
    if x >= 0 {
        (9 * x + 5) / 10
    } else {
        -((9 * (-x) + 5) / 10)
    }
}

/// The one integer in the range of `i32` that differs from `x` by a multiple
/// of 2^32.
pub open spec fn wrap_i32(x: int) -> int {
    let low = x % 0x1_0000_0000;
    if low >= 0x8000_0000 {
        low - 0x1_0000_0000
    } else {
        low
    }
}

/// `half` is division by two toward zero: twice the result is off by at most
/// one, and never further from zero than `x`.
pub proof fn lemma_half_toward_zero(x: int)
    ensures
        x >= 0 ==> 0 <= x - 2 * half(x) <= 1,
        x <= 0 ==> -1 <= x - 2 * half(x) <= 0,
        half(-x) == -half(x),
{
}

/// `nine_tenths(x)` is a nearest integer to `0.9 * x`: ten times the result is
/// within 5 of `9 * x`. Where two integers are equally near, it is the one
/// further from zero.
pub proof fn lemma_nine_tenths_nearest(x: int)
    ensures
        -5 <= 10 * nine_tenths(x) - 9 * x <= 5,
        x >= 0 ==> 10 * nine_tenths(x) - 9 * x > -5,
        x <= 0 ==> 10 * nine_tenths(x) - 9 * x < 5,
        nine_tenths(-x) == -nine_tenths(x),
{
}

/// `wrap_i32` lands in the range of `i32`, keeps what is already there, and
/// ignores multiples of 2^32.
pub proof fn lemma_wrap_i32(x: int)
    ensures
        i32::MIN <= wrap_i32(x) <= i32::MAX,
        i32::MIN <= x <= i32::MAX ==> wrap_i32(x) == x,
        (x - wrap_i32(x)) % 0x1_0000_0000 == 0,
        wrap_i32(x + 0x1_0000_0000) == wrap_i32(x),
{
}

/// The early-reset threshold that belongs to an instruction-count interval.
pub fn reset_interval(ir_interval: i64) -> (reset: i64)
    ensures
        reset == half(ir_interval as int),
{
    ir_interval / 2
}

/// The early-reset threshold that belongs to a cycle-count interval.
pub fn cycles_threshold(cycles_interval: i64) -> (threshold: i64)
    ensures
        threshold == nine_tenths(cycles_interval as int),
{
    let scaled: i128 = 9 * (cycles_interval as i128);
    let rounded: i128 = if scaled >= 0 {
        (scaled + 5) / 10
    } else {
        -((5 - scaled) / 10)
    };
    rounded as i64
}

/// Adds `step` to `counter`; the sum wraps around at the limits of `i32`.
pub fn advance_counter(counter: i32, step: i64) -> (next: i32)
    ensures
        next == wrap_i32(counter as int + step as int),
{
    let sum: i128 = counter as i128 + step as i128;
    let shifted: i128 = sum + 0x1_0000_0000_0000_0000;
    let low: i128 = shifted % 0x1_0000_0000;
    if low >= 0x8000_0000 {
        (low - 0x1_0000_0000) as i32
    } else {
        low as i32
    }
}

/// The two registered intervals together with the thresholds derived from
/// them. The thresholds cannot be set on their own, so they always agree with
/// the interval they belong to.
pub struct Intervals {
    ir: i64,
    reset_ir: i64,
    cycles: i64,
    cycles_threshold: i64,
}

impl Intervals {
    #[verifier::type_invariant]
    spec fn thresholds_agree(self) -> bool {
        &&& self.reset_ir == half(self.ir as int)
        &&& self.cycles_threshold == nine_tenths(self.cycles as int)
    }

    /// The instruction-count interval.
    pub closed spec fn ir(self) -> int {
        self.ir as int
    }

    /// The cycle-count interval.
    pub closed spec fn cycles(self) -> int {
        self.cycles as int
    }

    /// The given intervals, with their thresholds.
    pub fn new(ir_interval: i64, cycles_interval: i64) -> (intervals: Self)
        ensures
            intervals.ir() == ir_interval,
            intervals.cycles() == cycles_interval,
    {
        Intervals {
            ir: ir_interval,
            reset_ir: reset_interval(ir_interval),
            cycles: cycles_interval,
            cycles_threshold: cycles_threshold(cycles_interval),
        }
    }

    /// The default intervals, with their thresholds.
    pub fn defaults() -> (intervals: Self)
        ensures
            intervals.ir() == LARGE_INTERVAL,
            intervals.cycles() == SMALL_INTERVAL,
    {
        Intervals::new(LARGE_INTERVAL, SMALL_INTERVAL)
    }

    /// The instruction-count interval.
    pub fn ir_interval(&self) -> (value: i64)
        ensures
            value == self.ir(),
    {
        self.ir
    }

    /// Half the instruction-count interval.
    pub fn reset_ir_interval(&self) -> (value: i64)
        ensures
            value == half(self.ir()),
    {
        proof {
            use_type_invariant(self);
        }
        self.reset_ir
    }

    /// The cycle-count interval.
    pub fn cycles_interval(&self) -> (value: i64)
        ensures
            value == self.cycles(),
    {
        self.cycles
    }

    /// Nine tenths of the cycle-count interval.
    pub fn cycles_threshold(&self) -> (value: i64)
        ensures
            value == nine_tenths(self.cycles()),
    {
        proof {
            use_type_invariant(self);
        }
        self.cycles_threshold
    }
}

} // verus!
