//! A single vesting commitment.

use vstd::prelude::*;
use crate::vesting::FULL_PERIOD;

verus! {

/// One deposit: a principal with its own vesting clock, memo and counter of
/// the periods recognised so far.
#[derive(Debug)]
pub struct Deposit {
    /// Short annotation, fewer than 64 characters when the deposit is made.
    pub memo: String,
    /// The principal, fixed when the deposit is made.
    pub amount: u128,
    /// Vesting periods recognised so far.
    pub paid: u8,
    /// Time of creation in nanoseconds.
    pub created: u64,
}

/// What a [`Deposit`] stands for: its four fields, the memo as text.
pub struct DepositView {
    pub memo: Seq<char>,
    pub amount: u128,
    pub paid: u8,
    pub created: u64,
}

impl View for Deposit {
    type V = DepositView;

    open spec fn view(&self) -> DepositView {
        DepositView {
            memo: self.memo@,
            amount: self.amount,
            paid: self.paid,
            created: self.created,
        }
    }
}

impl Clone for Deposit {
    fn clone(&self) -> (copy: Self)
        ensures
            copy == *self,
    {
        Deposit {
            memo: self.memo.clone(),
            amount: self.amount,
            paid: self.paid,
            created: self.created,
        }
    }
}

/// Where a deposit stands in its life. Time alone moves a deposit on.
#[derive(Debug, Clone, Copy, PartialEq, Eq, Structural)]
pub enum Stage {
    /// No period is counted as paid.
    Created,
    /// Some periods are counted, fewer than the full period.
    Accruing,
    /// The full period, or more, is counted.
    Fulfilled,
}

impl Stage {
    /// The place of the stage in the order in which a deposit passes
    /// through the stages.
    pub open spec fn rank(self) -> int {
        match self {
            Stage::Created => 0,
            Stage::Accruing => 1,
            Stage::Fulfilled => 2,
        }
    }
}

/// The stage of a deposit with `paid` periods counted.
pub open spec fn spec_stage(paid: u8) -> Stage {
    if paid == 0 {
        Stage::Created
    } else if paid < FULL_PERIOD {
        Stage::Accruing
    } else {
        Stage::Fulfilled
    }
}

impl Deposit {
    /// Returns the stage that the counter of the deposit puts it in.
    pub fn stage(&self) -> (stage: Stage)
        ensures
            stage == spec_stage(self.paid),
    {
        if self.paid == 0 {
            Stage::Created
        } else if self.paid < FULL_PERIOD {
            Stage::Accruing
        } else {
            Stage::Fulfilled
        }
    }
}

/// The deposits `items` as a sequence of their views.
pub open spec fn deposit_views(items: Seq<Deposit>) -> Seq<DepositView> {
    Seq::new(items.len(), |i: int| items[i]@)
}

/// Copies a sequence of deposits.
pub fn clone_deposits(items: &Vec<Deposit>) -> (copy: Vec<Deposit>)
    ensures
        copy@ == items@,
{
    let mut copy: Vec<Deposit> = Vec::new();
    let mut i: usize = 0;
    while i < items.len()
        invariant
            i <= items.len(),
            copy@ == items@.subrange(0, i as int),
        decreases items.len() - i,
    {
        copy.push(items[i].clone());
        assert(copy@ == items@.subrange(0, i + 1));
        i += 1;
    }
    assert(items@.subrange(0, items.len() as int) == items@);
    copy
}

} // verus!
