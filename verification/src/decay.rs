//! Price decay engine: the currently acceptable buy amount of a Dutch
//! auction, decreasing linearly from a ceiling at the auction start down to a
//! floor at the deadline.

use vstd::arithmetic::div_mod::{lemma_div_is_ordered, lemma_div_multiples_vanish, lemma_div_pos_is_pos};
use vstd::arithmetic::mul::{lemma_mul_inequality, lemma_mul_upper_bound};
use vstd::prelude::*;

verus! {

/// How much the required amount has decayed at time `now`, strictly inside
/// the auction window: `(ceiling - floor) * (now - start)` divided by the
/// window length, rounded toward zero. The truncation deliberately favours
/// the solver at fractional points.
pub open spec fn decay_reduction(
    ceiling: u64,
    floor: u64,
    start: u64,
    deadline: u64,
    now: u64,
) -> int {
    ((ceiling - floor) * (now - start)) / (deadline - start)
}

/// The buy amount the protocol requires at time `now`: the ceiling before the
/// auction starts, the floor once the deadline has passed, and the linear
/// interpolation (rounded down) in between.
pub open spec fn required_buy_amount_spec(
    ceiling: u64,
    floor: u64,
    start: u64,
    deadline: u64,
    now: u64,
) -> int {
    if now <= start {
        ceiling as int
    } else if now >= deadline {
        floor as int
    } else {
        ceiling - decay_reduction(ceiling, floor, start, deadline, now)
    }
}

/// Inside the auction window the decay is between zero and the whole
/// ceiling-to-floor range.
proof fn lemma_decay_reduction_bounds(ceiling: u64, floor: u64, start: u64, deadline: u64, now: u64)
    requires
        floor <= ceiling,
        start < now < deadline,
    ensures
        0 <= decay_reduction(ceiling, floor, start, deadline, now) <= ceiling - floor,
{
    let range = ceiling - floor;
    let elapsed = now - start;
    let total = deadline - start;
    lemma_div_pos_is_pos(range * elapsed, total);
    lemma_mul_inequality(elapsed, total, range);
    lemma_div_is_ordered(range * elapsed, range * total, total);
    lemma_div_multiples_vanish(range, total);
    assert(range * elapsed == elapsed * range) by (nonlinear_arith);
    assert(range * total == total * range) by (nonlinear_arith);
}

/// Computes the required buy amount for the auction schedule
/// `(ceiling, floor, start, deadline)` at time `now`.
///
/// The interpolation is carried out in 128-bit arithmetic, so no overflow is
/// possible for any combination of 64-bit amounts and times.
pub fn required_buy_amount(ceiling: u64, floor: u64, start: u64, deadline: u64, now: u64) -> (r: u64)
    requires
        floor <= ceiling,
        start < deadline,
    ensures
        r == required_buy_amount_spec(ceiling, floor, start, deadline, now),
        floor <= r <= ceiling,
{
    if now <= start {
        return ceiling;
    }
    if now >= deadline {
        return floor;
    }
    let range: u64 = ceiling - floor;
    let elapsed: u64 = now - start;
    let total: u64 = deadline - start;
    proof {
        lemma_decay_reduction_bounds(ceiling, floor, start, deadline, now);
        lemma_mul_upper_bound(range as int, u64::MAX as int, elapsed as int, u64::MAX as int);
        assert((range as u128) * (elapsed as u128) == (range as int) * (elapsed as int))
            by (nonlinear_arith);
    }
    let wide: u128 = (range as u128) * (elapsed as u128) / (total as u128);
    let reduction: u64 = wide as u64;
    ceiling - reduction
}

/// Whatever the time, the required amount lies between the floor and the
/// ceiling.
pub proof fn lemma_required_buy_amount_bounds(
    ceiling: u64,
    floor: u64,
    start: u64,
    deadline: u64,
    now: u64,
)
    requires
        floor <= ceiling,
        start < deadline,
    ensures
        floor <= required_buy_amount_spec(ceiling, floor, start, deadline, now) <= ceiling,
{
    if start < now < deadline {
        lemma_decay_reduction_bounds(ceiling, floor, start, deadline, now);
    }
}

/// At or before the auction start the full ceiling is required.
pub proof fn lemma_required_at_or_before_start(
    ceiling: u64,
    floor: u64,
    start: u64,
    deadline: u64,
    now: u64,
)
    requires
        floor <= ceiling,
        start < deadline,
        now <= start,
    ensures
        required_buy_amount_spec(ceiling, floor, start, deadline, now) == ceiling,
{
}

/// At or after the deadline only the floor is required.
pub proof fn lemma_required_at_or_after_deadline(
    ceiling: u64,
    floor: u64,
    start: u64,
    deadline: u64,
    now: u64,
)
    requires
        floor <= ceiling,
        start < deadline,
        now >= deadline,
    ensures
        required_buy_amount_spec(ceiling, floor, start, deadline, now) == floor,
{
}

/// The required buy amount never increases as time advances: a later observer
/// of the same auction is never asked to pay more.
pub proof fn lemma_required_buy_amount_monotonic(
    ceiling: u64,
    floor: u64,
    start: u64,
    deadline: u64,
    n1: u64,
    n2: u64,
)
    requires
        floor <= ceiling,
        start < deadline,
        n1 <= n2,
    ensures
        required_buy_amount_spec(ceiling, floor, start, deadline, n2)
            <= required_buy_amount_spec(ceiling, floor, start, deadline, n1),
{
    let range = ceiling - floor;
    let total = deadline - start;
    if start < n1 < deadline {
        lemma_decay_reduction_bounds(ceiling, floor, start, deadline, n1);
    }
    if start < n2 < deadline {
        lemma_decay_reduction_bounds(ceiling, floor, start, deadline, n2);
    }
    if start < n1 && n2 < deadline {
        lemma_mul_inequality(n1 - start, n2 - start, range);
        assert(range * (n1 - start) == (n1 - start) * range) by (nonlinear_arith);
        assert(range * (n2 - start) == (n2 - start) * range) by (nonlinear_arith);
        lemma_div_is_ordered(range * (n1 - start), range * (n2 - start), total);
    }
}

} // verus!
