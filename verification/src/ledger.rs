//! The ledger: for each account the ordered sequence of its deposits.

use vstd::prelude::*;
use crate::deposit::{clone_deposits, deposit_views, Deposit, DepositView};

verus! {

/// The deposits that `ledger` holds for `account`: none where the account
/// is unknown.
pub open spec fn deposits_of(
    ledger: Map<Seq<char>, Seq<DepositView>>,
    account: Seq<char>,
) -> Seq<DepositView> {
    if ledger.dom().contains(account) {
        ledger[account]
    } else {
        Seq::empty()
    }
}

/// One account with its deposits, in the order in which they were made.
#[derive(Debug)]
struct AccountEntry {
    account: String,
    deposits: Vec<Deposit>,
}

/// Maps each account to its deposits. A deposit is known by its position in
/// the sequence of its account; positions are never reused.
#[derive(Debug)]
pub struct Ledger {
    entries: Vec<AccountEntry>,
}

/// No account stands twice in `entries`.
spec fn distinct_accounts(entries: Seq<AccountEntry>) -> bool {
    forall|i: int, j: int|
        0 <= i < j < entries.len() ==> (#[trigger] entries[i]).account@ != (
        #[trigger] entries[j]).account@
}

/// Some entry of `entries` belongs to `account`.
spec fn has_entry(entries: Seq<AccountEntry>, account: Seq<char>) -> bool {
    exists|i: int| 0 <= i < entries.len() && (#[trigger] entries[i]).account@ == account
}

/// The position of the entry of `account`, where there is one.
spec fn entry_index(entries: Seq<AccountEntry>, account: Seq<char>) -> int {
    choose|i: int| 0 <= i < entries.len() && (#[trigger] entries[i]).account@ == account
}

/// The map that `entries` stand for.
spec fn entries_view(entries: Seq<AccountEntry>) -> Map<Seq<char>, Seq<DepositView>> {
    Map::new(
        |account: Seq<char>| has_entry(entries, account),
        |account: Seq<char>| deposit_views(entries[entry_index(entries, account)].deposits@),
    )
}

/// Where no account stands twice, the entry at `i` is the one that
/// `entry_index` finds for its account.
proof fn lemma_entry_index(entries: Seq<AccountEntry>, i: int)
    requires
        distinct_accounts(entries),
        0 <= i < entries.len(),
    ensures
        has_entry(entries, entries[i].account@),
        entry_index(entries, entries[i].account@) == i,
        entries_view(entries).dom().contains(entries[i].account@),
        entries_view(entries)[entries[i].account@] == deposit_views(entries[i].deposits@),
{
    let account = entries[i].account@;
    let found = entry_index(entries, account);
    assert(0 <= found < entries.len() && entries[found].account@ == account);
    if found < i {
        assert(entries[found].account@ != entries[i].account@);
    } else if i < found {
        assert(entries[i].account@ != entries[found].account@);
    }
}

impl View for Ledger {
    type V = Map<Seq<char>, Seq<DepositView>>;

    closed spec fn view(&self) -> Map<Seq<char>, Seq<DepositView>> {
        entries_view(self.entries@)
    }
}

impl Ledger {
    #[verifier::type_invariant]
    spec fn well_formed(&self) -> bool {
        distinct_accounts(self.entries@)
    }

    /// Creates a ledger without any account.
    pub fn new() -> (ledger: Ledger)
        ensures
            ledger@ == Map::<Seq<char>, Seq<DepositView>>::empty(),
    {
        let ledger = Ledger { entries: Vec::new() };
        assert(ledger@ =~= Map::<Seq<char>, Seq<DepositView>>::empty());
        ledger
    }

    /// Finds the position of the entry of `account`.
    fn find(&self, account: &String) -> (found: Option<usize>)
        ensures
            match found {
                Some(i) => i < self.entries.len() && self.entries[i as int].account@ == account@,
                None => !has_entry(self.entries@, account@),
            },
    {
        let mut i: usize = 0;
        while i < self.entries.len()
            invariant
                i <= self.entries.len(),
                forall|k: int| 0 <= k < i ==> (#[trigger] self.entries[k]).account@ != account@,
            decreases self.entries.len() - i,
        {
            if self.entries[i].account == *account {
                return Some(i);
            }
            i += 1;
        }
        None
    }

    /// Returns a copy of the deposits of `account`, in order; an empty
    /// sequence where the account has none.
    pub fn get(&self, account: &String) -> (deposits: Vec<Deposit>)
        ensures
            deposit_views(deposits@) == deposits_of(self@, account@),
            deposits@.len() == deposits_of(self@, account@).len(),
    {
        proof {
            use_type_invariant(self);
        }
        match self.find(account) {
            Some(i) => {
                proof {
                    lemma_entry_index(self.entries@, i as int);
                }
                clone_deposits(&self.entries[i].deposits)
            },
            None => {
                let deposits: Vec<Deposit> = Vec::new();
                assert(deposit_views(deposits@) =~= Seq::<DepositView>::empty());
                deposits
            },
        }
    }

    /// Puts `deposits` in the place of whatever the ledger held for
    /// `account`. No other account changes.
    pub fn replace(&mut self, account: String, deposits: Vec<Deposit>)
        ensures
            final(self)@ == old(self)@.insert(account@, deposit_views(deposits@)),
    {
        proof {
            use_type_invariant(&*self);
        }
        let found = self.find(&account);
        let ghost before = self.entries@;
        let ghost name = account@;
        let ghost views = deposit_views(deposits@);
        let mut entries: Vec<AccountEntry> = Vec::new();
        std::mem::swap(&mut entries, &mut self.entries);
        let entry = AccountEntry { account, deposits };
        match found {
            Some(i) => {
                entries.set(i, entry);
            },
            None => {
                entries.push(entry);
            },
        }
        proof {
            let after = entries@;
            let at: int = match found {
                Some(i) => i as int,
                None => before.len() as int,
            };
            assert(after[at].account@ == name);
            assert(forall|k: int| 0 <= k < before.len() && k != at ==> after[k] == before[k]);
            assert(distinct_accounts(after)) by {
                assert forall|i: int, j: int| 0 <= i < j < after.len() implies (
                #[trigger] after[i]).account@ != (#[trigger] after[j]).account@ by {
                    if i != at && j != at {
                        assert(before[i].account@ != before[j].account@);
                    } else if i == at {
                        assert(before[j].account@ != name) by {
                            if found is Some {
                                assert(before[at].account@ != before[j].account@);
                            }
                        }
                    } else {
                        assert(before[i].account@ != name) by {
                            if found is Some {
                                assert(before[i].account@ != before[at].account@);
                            }
                        }
                    }
                }
            }
            assert(entries_view(after) =~= entries_view(before).insert(name, views)) by {
                assert forall|a: Seq<char>| has_entry(after, a) <==> (has_entry(before, a) || a
                    == name) by {
                    if has_entry(after, a) {
                        let k = entry_index(after, a);
                        if k != at {
                            assert(before[k].account@ == a);
                        }
                    }
                    if has_entry(before, a) {
                        let k = entry_index(before, a);
                        if k != at {
                            assert(after[k].account@ == a);
                        } else {
                            assert(after[at].account@ == a);
                        }
                    }
                }
                assert forall|a: Seq<char>| has_entry(after, a) implies #[trigger] entries_view(
                    after,
                )[a] == entries_view(before).insert(name, views)[a] by {
                    let k = entry_index(after, a);
                    lemma_entry_index(after, k);
                    if a != name {
                        assert(k != at);
                        assert(before[k] == after[k]);
                        lemma_entry_index(before, k);
                    } else {
                        lemma_entry_index(after, at);
                    }
                }
            }
        }
        self.entries = entries;
    }

    /// Adds `deposit` at the end of the deposits of `account`. The deposits
    /// made before keep their positions.
    pub fn append(&mut self, account: String, deposit: Deposit)
        ensures
            final(self)@ == old(self)@.insert(
                account@,
                deposits_of(old(self)@, account@).push(deposit@),
            ),
    {
        let mut deposits = self.get(&account);
        deposits.push(deposit);
        assert(deposit_views(deposits@) =~= deposits_of(old(self)@, account@).push(deposit@));
        self.replace(account, deposits);
    }
}

} // verus!
