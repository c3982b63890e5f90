//! The service: creating deposits, recomputing their vesting, withdrawing.

use vstd::prelude::*;
use crate::account::{account_id_valid, is_valid_account_id};
use crate::deposit::{deposit_views, Deposit, DepositView};
use crate::error::Error;
use crate::ledger::{deposits_of, Ledger};
use crate::vesting::{
    elapsed_periods, narrow_periods, spec_paid_at, spec_withdrawable_amount, withdrawable_amount,
    FULL_PERIOD, SECOND,
};

verus! {

/// A memo must have fewer characters than this.
pub const MEMO_LIMIT: usize = 64;

/// An instruction to pay `amount` to `recipient`. The service only issues
/// it; carrying it out is left to the host, and its outcome is never seen.
#[derive(Debug)]
pub struct Transfer {
    pub recipient: String,
    pub amount: u128,
}

/// What a [`Transfer`] stands for.
pub struct TransferView {
    pub recipient: Seq<char>,
    pub amount: u128,
}

impl View for Transfer {
    type V = TransferView;

    open spec fn view(&self) -> TransferView {
        TransferView { recipient: self.recipient@, amount: self.amount }
    }
}

/// What the outcome of a withdrawal stands for.
pub open spec fn transfer_outcome(result: Result<Transfer, Error>) -> Result<TransferView, Error> {
    match result {
        Ok(transfer) => Ok(transfer@),
        Err(error) => Err(error),
    }
}

/// The whole state: the owner, fixed at initialization, and the ledger.
#[derive(Debug)]
pub struct Subscription {
    pub owner_id: String,
    pub deposits: Ledger,
}

/// What a [`Subscription`] stands for: the owner as text, and for each
/// account the sequence of its deposits.
pub struct SubscriptionView {
    pub owner_id: Seq<char>,
    pub deposits: Map<Seq<char>, Seq<DepositView>>,
}

impl View for Subscription {
    type V = SubscriptionView;

    open spec fn view(&self) -> SubscriptionView {
        SubscriptionView { owner_id: self.owner_id@, deposits: self.deposits@ }
    }
}

/// What the outcome of an initialization stands for.
pub open spec fn state_outcome(result: Result<Subscription, Error>) -> Result<
    SubscriptionView,
    Error,
> {
    match result {
        Ok(state) => Ok(state@),
        Err(error) => Err(error),
    }
}

impl SubscriptionView {
    /// The outcome of initialization for an owner whose identifier is valid
    /// or not, with the contract state existing already or not. An invalid
    /// owner is reported before an existing state.
    pub open spec fn initialize(
        owner_id: Seq<char>,
        account_valid: bool,
        state_exists: bool,
    ) -> Result<SubscriptionView, Error> {
        if !account_valid {
            Err(Error::InvalidAccount)
        } else if state_exists {
            Err(Error::AlreadyInitialized)
        } else {
            Ok(SubscriptionView { owner_id, deposits: Map::empty() })
        }
    }

    /// The deposits of `account`, in the order in which they were made.
    pub open spec fn subs(self, account: Seq<char>) -> Seq<DepositView> {
        deposits_of(self.deposits, account)
    }

    /// `caller` has a deposit at `index`.
    pub open spec fn has_deposit(self, caller: Seq<char>, index: int) -> bool {
        0 <= index < self.subs(caller).len()
    }

    /// The state after `caller` has deposited `amount` at `now`.
    pub open spec fn subscribe(
        self,
        caller: Seq<char>,
        memo: Seq<char>,
        amount: u128,
        now: u64,
    ) -> SubscriptionView {
        let deposit = DepositView { memo, amount, paid: 0, created: now };
        SubscriptionView {
            owner_id: self.owner_id,
            deposits: self.deposits.insert(caller, self.subs(caller).push(deposit)),
        }
    }

    /// The deposit of `caller` at `index` with its counter recomputed at
    /// `now`.
    pub open spec fn pinged(self, caller: Seq<char>, index: int, now: u64) -> DepositView {
        let deposit = self.subs(caller)[index];
        DepositView {
            memo: deposit.memo,
            amount: deposit.amount,
            paid: spec_paid_at(deposit.created as int, now as int) as u8,
            created: deposit.created,
        }
    }

    /// The state after the counter of the deposit of `caller` at `index` has
    /// been recomputed at `now`; the state itself where there is no such
    /// deposit.
    pub open spec fn ping(self, caller: Seq<char>, index: int, now: u64) -> SubscriptionView {
        if self.has_deposit(caller, index) {
            SubscriptionView {
                owner_id: self.owner_id,
                deposits: self.deposits.insert(
                    caller,
                    self.subs(caller).update(index, self.pinged(caller, index, now)),
                ),
            }
        } else {
            self
        }
    }

    /// What a withdrawal of the deposit of `caller` at `index` yields at
    /// `now`: the transfer to issue, or the reason for which none is issued.
    /// The counter is brought up to `now` first, so a deposit that has just
    /// become fulfilled is refused.
    pub open spec fn withdrawal(self, caller: Seq<char>, index: int, now: u64) -> Result<
        TransferView,
        Error,
    > {
        if !self.has_deposit(caller, index) {
            Err(Error::NotFound)
        } else {
            let deposit = self.pinged(caller, index, now);
            if deposit.paid >= FULL_PERIOD {
                Err(Error::PreconditionFailed)
            } else {
                Ok(
                    TransferView {
                        recipient: caller,
                        amount: spec_withdrawable_amount(
                            deposit.amount as int,
                            deposit.paid as int,
                            FULL_PERIOD as int,
                        ) as u128,
                    },
                )
            }
        }
    }
}

impl Subscription {
    /// Sets up the state for `owner_id`, given whether the host found the
    /// identifier valid and whether the contract state exists already.
    ///
    /// Fails with `InvalidAccount` where `account_valid` is false, else with
    /// `AlreadyInitialized` where `state_exists`.
    pub fn initialize(owner_id: String, account_valid: bool, state_exists: bool) -> (result: Result<
        Subscription,
        Error,
    >)
        ensures
            state_outcome(result) == SubscriptionView::initialize(
                owner_id@,
                account_valid,
                state_exists,
            ),
    {
        if !account_valid {
            return Err(Error::InvalidAccount);
        }
        if state_exists {
            return Err(Error::AlreadyInitialized);
        }
        Ok(Subscription { owner_id, deposits: Ledger::new() })
    }

    /// Sets up the state for `owner_id`, once.
    ///
    /// Fails with `InvalidAccount` where `owner_id` is no valid account
    /// identifier, else with `AlreadyInitialized` where `state_exists`.
    pub fn new(owner_id: String, state_exists: bool) -> (result: Result<Subscription, Error>)
        ensures
            state_outcome(result) == SubscriptionView::initialize(
                owner_id@,
                account_id_valid(owner_id@),
                state_exists,
            ),
    {
        let account_valid = is_valid_account_id(&owner_id);
        Subscription::initialize(owner_id, account_valid, state_exists)
    }

    /// Records a deposit of `attached_amount` made by `caller` at `now`,
    /// after the deposits that `caller` has made before.
    ///
    /// Fails with `InvalidArgument`, and changes nothing, where `memo` has
    /// 64 characters or more.
    pub fn subscribe(
        &mut self,
        caller: String,
        memo: String,
        attached_amount: u128,
        now: u64,
    ) -> (result: Result<(), Error>)
        ensures
            result == (if memo@.len() < MEMO_LIMIT {
                Ok(())
            } else {
                Err(Error::InvalidArgument)
            }),
            final(self)@ == (if memo@.len() < MEMO_LIMIT {
                old(self)@.subscribe(caller@, memo@, attached_amount, now)
            } else {
                old(self)@
            }),
    {
        if memo.as_str().unicode_len() >= MEMO_LIMIT {
            return Err(Error::InvalidArgument);
        }
        let deposit = Deposit { memo, amount: attached_amount, paid: 0, created: now };
        self.deposits.append(caller, deposit);
        Ok(())
    }

    /// Recomputes the counter of the deposit of `caller` at `deposit_index`
    /// from its creation time and `now`.
    ///
    /// The counter holds the low eight bits of the number of whole seconds
    /// elapsed; it is not capped at the number of periods of the schedule.
    /// Fails with `NotFound`, and changes nothing, where `caller` has no
    /// deposit at `deposit_index`.
    pub fn ping(&mut self, caller: String, deposit_index: usize, now: u64) -> (result: Result<
        (),
        Error,
    >)
        ensures
            result == (if old(self)@.has_deposit(caller@, deposit_index as int) {
                Ok(())
            } else {
                Err(Error::NotFound)
            }),
            final(self)@ == old(self)@.ping(caller@, deposit_index as int, now),
    {
        let mut deposits = self.deposits.get(&caller);
        if deposit_index >= deposits.len() {
            return Err(Error::NotFound);
        }
        let ghost before = deposits@;
        let periods = elapsed_periods(deposits[deposit_index].created, now, SECOND, FULL_PERIOD);
        deposits[deposit_index].paid = narrow_periods(periods);
        assert(deposit_views(deposits@) =~= deposit_views(before).update(
            deposit_index as int,
            old(self)@.pinged(caller@, deposit_index as int, now),
        ));
        self.deposits.replace(caller, deposits);
        Ok(())
    }

    /// Brings the counter of the deposit of `caller` at `deposit_index` up
    /// to `now`, then issues the transfer of what the deposit releases.
    ///
    /// Fails with `NotFound`, and changes nothing, where `caller` has no
    /// such deposit. Fails with `PreconditionFailed` where the recomputed
    /// counter has reached the full period; the recomputed counter is kept
    /// all the same. The deposit is not marked by a withdrawal: a second one
    /// at the same time yields the same transfer.
    pub fn withdraw(&mut self, caller: String, deposit_index: usize, now: u64) -> (result: Result<
        Transfer,
        Error,
    >)
        ensures
            transfer_outcome(result) == old(self)@.withdrawal(caller@, deposit_index as int, now),
            final(self)@ == old(self)@.ping(caller@, deposit_index as int, now),
    {
        match self.ping(caller.clone(), deposit_index, now) {
            Err(error) => {
                return Err(error);
            },
            Ok(_) => {},
        }
        let deposits = self.deposits.get(&caller);
        assert(deposit_views(deposits@)[deposit_index as int] == deposits@[deposit_index as int]@);
        let paid = deposits[deposit_index].paid;
        if paid >= FULL_PERIOD {
            return Err(Error::PreconditionFailed);
        }
        let amount = withdrawable_amount(deposits[deposit_index].amount, paid, FULL_PERIOD);
        Ok(Transfer { recipient: caller, amount })
    }

    /// Returns the deposits of `account_id`, in the order in which they
    /// were made; an empty sequence where the account has none.
    pub fn get_subs(&self, account_id: String) -> (deposits: Vec<Deposit>)
        ensures
            deposit_views(deposits@) == self@.subs(account_id@),
            deposits@.len() == self@.subs(account_id@).len(),
    {
        self.deposits.get(&account_id)
    }
}

} // verus!
