//! Vesting arithmetic: elapsed periods and the amount a deposit releases.

use vstd::prelude::*;

verus! {

/// Length of one vesting period in nanoseconds: one second.
pub const SECOND: u64 = 1_000_000_000;

/// Number of vesting periods after which a deposit is fulfilled.
pub const FULL_PERIOD: u8 = 12;

/// Whole periods of `period_length` that lie between `created` and `now`.
/// A clock reading that lies before `created` counts as no time elapsed.
pub open spec fn spec_elapsed_periods(created: int, now: int, period_length: int) -> int {
    if created <= now {
        (now - created) / period_length
    } else {
        0
    }
}

/// The period count as the 8-bit counter of a deposit stores it: the low
/// eight bits, so a count of 256 is stored as 0.
pub open spec fn spec_narrow(periods: int) -> int {
    periods % 256
}

/// The counter a deposit created at `created` holds after a recomputation
/// at `now`.
pub open spec fn spec_paid_at(created: int, now: int) -> int {
    spec_narrow(spec_elapsed_periods(created, now, SECOND as int))
}

/// Value of the periods that are not yet counted as paid: the per-period
/// portion, remainder dropped, times the periods still open.
pub open spec fn spec_withdrawable_amount(amount: int, paid: int, full_period: int) -> int {
    (amount / full_period) * (full_period - paid)
}

/// Counts the whole periods between `created` and `now`.
///
/// The clock is expected never to go back; should `now` lie before
/// `created` all the same, the count is 0. The count is never clamped from
/// above: `cap` names the number of periods of the schedule and has no
/// influence on the result.
#[allow(unused_variables)]
pub fn elapsed_periods(created: u64, now: u64, period_length: u64, cap: u8) -> (periods: u64)
    requires
        period_length > 0,
    ensures
        periods == spec_elapsed_periods(created as int, now as int, period_length as int),
{
    if now < created {
        0
    } else {
        (now - created) / period_length
    }
}

/// Narrows a period count to the 8-bit counter, keeping the low eight bits.
pub fn narrow_periods(periods: u64) -> (paid: u8)
    ensures
        paid == spec_narrow(periods as int),
{
    let paid: u8 = #[verifier::truncate] (periods as u8);
    assert(paid == periods % 256) by (bit_vector)
        requires
            paid == periods as u8,
    ;
    paid
}

/// Computes the amount released for a deposit of `amount` with `paid`
/// periods counted out of `full_period`.
pub fn withdrawable_amount(amount: u128, paid: u8, full_period: u8) -> (value: u128)
    requires
        full_period > 0,
        paid <= full_period,
    ensures
        value == spec_withdrawable_amount(amount as int, paid as int, full_period as int),
        value <= amount,
{
    let portion: u128 = amount / (full_period as u128);
    let remaining: u128 = (full_period - paid) as u128;
    proof {
        lemma_withdrawable_bounded(amount as int, paid as int, full_period as int);
    }
    portion * remaining
}

/// The released amount is never negative and never exceeds the principal.
pub proof fn lemma_withdrawable_bounded(amount: int, paid: int, full_period: int)
    requires
        0 <= amount,
        0 <= paid <= full_period,
        0 < full_period,
    ensures
        0 <= spec_withdrawable_amount(amount, paid, full_period) <= amount,
{
    let portion = amount / full_period;
    vstd::arithmetic::div_mod::lemma_fundamental_div_mod(amount, full_period);
    vstd::arithmetic::div_mod::lemma_mod_bound(amount, full_period);
    vstd::arithmetic::div_mod::lemma_div_pos_is_pos(amount, full_period);
    assert(0 <= portion * (full_period - paid) <= portion * full_period) by (nonlinear_arith)
        requires
            0 <= portion,
            0 <= paid <= full_period,
    ;
    assert(portion * full_period == full_period * portion) by (nonlinear_arith);
}

} // verus!
