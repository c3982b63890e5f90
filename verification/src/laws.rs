//! What holds of the service as a whole, proved over its model.

use vstd::prelude::*;
use vstd::arithmetic::div_mod::{
    lemma_div_is_ordered, lemma_fundamental_div_mod, lemma_mod_bound, lemma_small_mod,
};
use crate::deposit::{spec_stage, DepositView};
use crate::error::Error;
use crate::subscription::{SubscriptionView, TransferView};
use crate::vesting::{
    spec_elapsed_periods, spec_paid_at, spec_withdrawable_amount, FULL_PERIOD, SECOND,
};

verus! {

/// The number of elapsed periods never goes down as the clock goes on.
pub proof fn elapsed_periods_never_decrease(
    created: int,
    first: int,
    second: int,
    period_length: int,
)
    requires
        first <= second,
        period_length > 0,
    ensures
        0 <= spec_elapsed_periods(created, first, period_length) <= spec_elapsed_periods(
            created,
            second,
            period_length,
        ),
{
    if created <= first {
        lemma_div_is_ordered(first - created, second - created, period_length);
        lemma_div_is_ordered(0, first - created, period_length);
    } else if created <= second {
        lemma_div_is_ordered(0, second - created, period_length);
    }
}

/// A second recomputation at a later time never lowers the counter of a
/// deposit, as long as the 8-bit counter has not wrapped in between: the
/// two numbers of elapsed periods lie in the same block of 256.
pub proof fn paid_never_decreases(
    state: SubscriptionView,
    caller: Seq<char>,
    index: int,
    first: u64,
    second: u64,
)
    requires
        state.has_deposit(caller, index),
        first <= second,
        spec_elapsed_periods(state.subs(caller)[index].created as int, first as int, SECOND as int)
            / 256 == spec_elapsed_periods(
            state.subs(caller)[index].created as int,
            second as int,
            SECOND as int,
        ) / 256,
    ensures
        state.ping(caller, index, first).has_deposit(caller, index),
        state.ping(caller, index, first).subs(caller)[index].paid <= state.ping(
            caller,
            index,
            first,
        ).ping(caller, index, second).subs(caller)[index].paid,
{
    let created = state.subs(caller)[index].created as int;
    let early = spec_elapsed_periods(created, first as int, SECOND as int);
    let late = spec_elapsed_periods(created, second as int, SECOND as int);
    elapsed_periods_never_decrease(created, first as int, second as int, SECOND as int);
    lemma_fundamental_div_mod(early, 256);
    lemma_fundamental_div_mod(late, 256);
    lemma_mod_bound(early, 256);
    lemma_mod_bound(late, 256);
}

/// A recomputation at the very time at which a deposit was made leaves its
/// counter at 0, and with it the whole state as it was.
pub proof fn ping_after_subscribe_is_zero(
    state: SubscriptionView,
    caller: Seq<char>,
    memo: Seq<char>,
    amount: u128,
    now: u64,
)
    ensures
        ({
            let made = state.subscribe(caller, memo, amount, now);
            let index = state.subs(caller).len() as int;
            &&& made.has_deposit(caller, index)
            &&& made.ping(caller, index, now).subs(caller)[index].paid == 0
            &&& made.ping(caller, index, now) == made
        }),
{
    let made = state.subscribe(caller, memo, amount, now);
    let index = state.subs(caller).len() as int;
    lemma_small_mod(0, 256);
    assert(made.subs(caller).update(index, made.pinged(caller, index, now)) =~= made.subs(caller));
    assert(made.ping(caller, index, now).deposits =~= made.deposits);
}

/// With no period counted, a deposit releases its principal less the
/// remainder that the principal leaves when divided by the full period.
pub proof fn unpaid_deposit_releases_all_but_remainder(amount: u128)
    ensures
        spec_withdrawable_amount(amount as int, 0, FULL_PERIOD as int) == amount - amount % 12,
{
    lemma_fundamental_div_mod(amount as int, 12);
    assert((amount as int / 12) * 12 == 12 * (amount as int / 12)) by (nonlinear_arith);
}

/// A withdrawal before the first period has passed issues a transfer to the
/// caller of the principal less its remainder modulo the full period.
pub proof fn withdrawal_without_elapsed_time(
    state: SubscriptionView,
    caller: Seq<char>,
    index: int,
    now: u64,
)
    requires
        state.has_deposit(caller, index),
        spec_elapsed_periods(state.subs(caller)[index].created as int, now as int, SECOND as int)
            == 0,
    ensures
        ({
            let amount = state.subs(caller)[index].amount;
            state.withdrawal(caller, index, now) == Ok::<TransferView, Error>(
                TransferView { recipient: caller, amount: (amount - amount % 12) as u128 },
            )
        }),
{
    lemma_small_mod(0, 256);
    unpaid_deposit_releases_all_but_remainder(state.subs(caller)[index].amount);
}

/// A withdrawal fails with `PreconditionFailed` once the full period has
/// elapsed, as long as the low eight bits of the number of elapsed periods,
/// which the counter holds, have reached the full period too.
pub proof fn fulfilled_withdrawal_fails(
    state: SubscriptionView,
    caller: Seq<char>,
    index: int,
    now: u64,
)
    requires
        state.has_deposit(caller, index),
        spec_elapsed_periods(state.subs(caller)[index].created as int, now as int, SECOND as int)
            >= FULL_PERIOD,
        spec_elapsed_periods(state.subs(caller)[index].created as int, now as int, SECOND as int)
            % 256 >= FULL_PERIOD,
    ensures
        state.withdrawal(caller, index, now) == Err::<TransferView, Error>(
            Error::PreconditionFailed,
        ),
{
    let elapsed = spec_elapsed_periods(
        state.subs(caller)[index].created as int,
        now as int,
        SECOND as int,
    );
    lemma_mod_bound(elapsed, 256);
}

/// A recomputation for one deposit, on its own or as the first step of a
/// withdrawal, leaves the other deposits of the caller as they were, each
/// at its index.
pub proof fn ping_leaves_other_deposits(
    state: SubscriptionView,
    caller: Seq<char>,
    index: int,
    other: int,
    now: u64,
)
    requires
        state.has_deposit(caller, other),
        other != index,
    ensures
        state.ping(caller, index, now).has_deposit(caller, other),
        state.ping(caller, index, now).subs(caller)[other] == state.subs(caller)[other],
{
}

/// A new deposit takes the index after the last one of the caller. The
/// deposits made before keep their indices, and the owner and the deposits
/// of every other account stay as they were.
pub proof fn subscribe_keeps_earlier_deposits(
    state: SubscriptionView,
    caller: Seq<char>,
    memo: Seq<char>,
    amount: u128,
    now: u64,
    account: Seq<char>,
    index: int,
)
    requires
        state.has_deposit(account, index),
    ensures
        ({
            let made = state.subscribe(caller, memo, amount, now);
            &&& made.owner_id == state.owner_id
            &&& made.subs(caller).len() == state.subs(caller).len() + 1
            &&& made.subs(caller).last() == DepositView { memo, amount, paid: 0, created: now }
            &&& made.has_deposit(account, index)
            &&& made.subs(account)[index] == state.subs(account)[index]
            &&& account != caller ==> made.subs(account) == state.subs(account)
        }),
{
}

/// A recomputation for one account leaves the deposits of every other
/// account as they were.
pub proof fn ping_leaves_other_accounts(
    state: SubscriptionView,
    caller: Seq<char>,
    index: int,
    account: Seq<char>,
    now: u64,
)
    requires
        account != caller,
    ensures
        state.ping(caller, index, now).subs(account) == state.subs(account),
{
}

/// What a withdrawal yields is read off the one deposit that it names: two
/// states that agree on that deposit yield the same, whatever else they
/// hold.
pub proof fn withdrawal_reads_one_deposit(
    state: SubscriptionView,
    other: SubscriptionView,
    caller: Seq<char>,
    index: int,
    now: u64,
)
    requires
        state.has_deposit(caller, index),
        other.has_deposit(caller, index),
        state.subs(caller)[index] == other.subs(caller)[index],
    ensures
        state.withdrawal(caller, index, now) == other.withdrawal(caller, index, now),
{
}

/// A recomputation changes nothing of a deposit but its counter, and keeps
/// the number and the order of the deposits of the caller.
pub proof fn ping_keeps_terms(state: SubscriptionView, caller: Seq<char>, index: int, now: u64)
    requires
        state.has_deposit(caller, index),
    ensures
        state.ping(caller, index, now).owner_id == state.owner_id,
        state.ping(caller, index, now).subs(caller).len() == state.subs(caller).len(),
        state.ping(caller, index, now).subs(caller)[index].memo == state.subs(caller)[index].memo,
        state.ping(caller, index, now).subs(caller)[index].amount == state.subs(
            caller,
        )[index].amount,
        state.ping(caller, index, now).subs(caller)[index].created == state.subs(
            caller,
        )[index].created,
        state.ping(caller, index, now).subs(caller)[index].paid == spec_paid_at(
            state.subs(caller)[index].created as int,
            now as int,
        ),
{
    let created = state.subs(caller)[index].created as int;
    lemma_mod_bound(spec_elapsed_periods(created, now as int, SECOND as int), 256);
}

/// A second recomputation at the same time changes nothing.
pub proof fn ping_is_idempotent(state: SubscriptionView, caller: Seq<char>, index: int, now: u64)
    ensures
        state.ping(caller, index, now).ping(caller, index, now) == state.ping(caller, index, now),
{
    if state.has_deposit(caller, index) {
        let once = state.ping(caller, index, now);
        assert(once.subs(caller).update(index, once.pinged(caller, index, now)) =~= once.subs(
            caller,
        ));
        assert(once.ping(caller, index, now).deposits =~= once.deposits);
    }
}

/// A withdrawal marks nothing: after one at `now`, a second one at `now`
/// yields what the first one did.
pub proof fn withdrawal_repeats(state: SubscriptionView, caller: Seq<char>, index: int, now: u64)
    ensures
        state.ping(caller, index, now).withdrawal(caller, index, now) == state.withdrawal(
            caller,
            index,
            now,
        ),
{
}

/// A deposit never goes back to an earlier stage when its counter is
/// recomputed at a later time, as long as the 8-bit counter has not wrapped
/// in between.
pub proof fn stage_never_goes_back(
    state: SubscriptionView,
    caller: Seq<char>,
    index: int,
    first: u64,
    second: u64,
)
    requires
        state.has_deposit(caller, index),
        first <= second,
        spec_elapsed_periods(state.subs(caller)[index].created as int, first as int, SECOND as int)
            / 256 == spec_elapsed_periods(
            state.subs(caller)[index].created as int,
            second as int,
            SECOND as int,
        ) / 256,
    ensures
        spec_stage(state.ping(caller, index, first).subs(caller)[index].paid).rank() <= spec_stage(
            state.ping(caller, index, first).ping(caller, index, second).subs(caller)[index].paid,
        ).rank(),
{
    paid_never_decreases(state, caller, index, first, second);
}

/// A state that has just been set up holds no deposit for any account.
pub proof fn fresh_state_has_no_deposits(owner_id: Seq<char>, account: Seq<char>)
    ensures
        SubscriptionView::initialize(owner_id, true, false) is Ok,
        SubscriptionView::initialize(owner_id, true, false)->Ok_0.subs(account) == Seq::<
            DepositView,
        >::empty(),
{
}

} // verus!
