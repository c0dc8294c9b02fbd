//! The balance store: one record for each depositor, made on first deposit.
//!
//! The store is modelled as the sequence of its entries, in the order in
//! which the depositors first appeared. Everything a contract says about a
//! store, it says about that sequence.

use vstd::prelude::*;
use crate::error::ErrorCode;
use crate::identity::Identity;
use crate::records::UserBalance;

verus! {

/// A record together with the depositor it belongs to.
#[derive(Clone, Copy, Debug, PartialEq, Eq)]
pub struct Entry {
    pub owner: Identity,
    pub record: UserBalance,
}

/// `i` is where the record of `owner` stands: the first entry that names it.
pub open spec fn is_record_of(entries: Seq<Entry>, owner: Identity, i: int) -> bool {
    &&& 0 <= i < entries.len()
    &&& entries[i].owner == owner
    &&& forall|j: int| 0 <= j < i ==> (#[trigger] entries[j]).owner != owner
}

/// `owner` has deposited before.
pub open spec fn has_record(entries: Seq<Entry>, owner: Identity) -> bool {
    exists|i: int| is_record_of(entries, owner, i)
}

/// Where the record of `owner` stands, if it has one.
pub open spec fn record_index(entries: Seq<Entry>, owner: Identity) -> int {
    choose|i: int| is_record_of(entries, owner, i)
}

/// The record of `owner`, or `None` before its first deposit.
pub open spec fn record_of(entries: Seq<Entry>, owner: Identity) -> Option<UserBalance> {
    if has_record(entries, owner) {
        Some(entries[record_index(entries, owner)].record)
    } else {
        None
    }
}

/// The tracked amount of `owner`: zero for an identity without a record.
pub open spec fn amount_of(entries: Seq<Entry>, owner: Identity) -> u64 {
    match record_of(entries, owner) {
        Some(record) => record.amount,
        None => 0,
    }
}

/// The sum of all tracked amounts.
pub open spec fn total_amount(entries: Seq<Entry>) -> nat
    decreases entries.len(),
{
    if entries.len() == 0 {
        0
    } else {
        total_amount(entries.drop_last()) + entries.last().record.amount as nat
    }
}

/// No depositor has two records.
pub open spec fn distinct_owners(entries: Seq<Entry>) -> bool {
    forall|i: int, j: int|
        0 <= i < j < entries.len() ==> (#[trigger] entries[i]).owner != (#[trigger] entries[j]).owner
}

/// The entries after `amount` is added to the record of `owner`, which is
/// made first, at the end and with amount zero, if `owner` has none.
///
/// Meant for amounts that the record can hold:
/// `amount_of(entries, owner) + amount <= u64::MAX`.
pub open spec fn credited(entries: Seq<Entry>, owner: Identity, amount: u64) -> Seq<Entry> {
    if has_record(entries, owner) {
        let i = record_index(entries, owner);
        entries.update(
            i,
            Entry { owner, record: UserBalance { amount: (entries[i].record.amount + amount) as u64 } },
        )
    } else {
        entries.push(Entry { owner, record: UserBalance { amount } })
    }
}

/// A record stands in one place only: whoever finds it has found
/// `record_index`.
pub proof fn lemma_record_index(entries: Seq<Entry>, owner: Identity, i: int)
    requires
        is_record_of(entries, owner, i),
    ensures
        has_record(entries, owner),
        record_index(entries, owner) == i,
{
    let k = record_index(entries, owner);
    assert(is_record_of(entries, owner, k));
    if k < i {
        assert(entries[k].owner != owner);
    }
    if i < k {
        assert(entries[i].owner != owner);
    }
}

/// An owner that some entry names has a record.
pub proof fn lemma_named_owner_has_record(entries: Seq<Entry>, owner: Identity, i: int)
    requires
        0 <= i < entries.len(),
        entries[i].owner == owner,
    ensures
        has_record(entries, owner),
        record_index(entries, owner) <= i,
    decreases i,
{
    if forall|j: int| 0 <= j < i ==> (#[trigger] entries[j]).owner != owner {
        lemma_record_index(entries, owner, i);
    } else {
        let j = choose|j: int| 0 <= j < i && (#[trigger] entries[j]).owner == owner;
        lemma_named_owner_has_record(entries, owner, j);
    }
}

/// Adding a record adds its amount to the sum.
pub proof fn lemma_total_after_push(entries: Seq<Entry>, entry: Entry)
    ensures
        total_amount(entries.push(entry)) == total_amount(entries) + entry.record.amount,
{
    assert(entries.push(entry).drop_last() =~= entries);
}

/// Replacing a record changes the sum by the difference of the two amounts.
pub proof fn lemma_total_after_update(entries: Seq<Entry>, i: int, entry: Entry)
    requires
        0 <= i < entries.len(),
    ensures
        total_amount(entries.update(i, entry)) == total_amount(entries) - entries[i].record.amount
            + entry.record.amount,
    decreases entries.len(),
{
    if i == entries.len() - 1 {
        assert(entries.update(i, entry).drop_last() =~= entries.drop_last());
    } else {
        assert(entries.update(i, entry).drop_last() =~= entries.drop_last().update(i, entry));
        lemma_total_after_update(entries.drop_last(), i, entry);
    }
}

/// A credit raises the sum of all records by the amount credited.
pub proof fn lemma_total_after_credit(entries: Seq<Entry>, owner: Identity, amount: u64)
    requires
        amount_of(entries, owner) + amount <= u64::MAX,
    ensures
        total_amount(credited(entries, owner, amount)) == total_amount(entries) + amount,
{
    if has_record(entries, owner) {
        let i = record_index(entries, owner);
        let entry = Entry {
            owner,
            record: UserBalance { amount: (entries[i].record.amount + amount) as u64 },
        };
        lemma_total_after_update(entries, i, entry);
    } else {
        lemma_total_after_push(entries, Entry { owner, record: UserBalance { amount } });
    }
}

/// A credit raises the amount of the owner credited by the amount, gives
/// that owner a record if it had none, and touches nobody else's record.
pub proof fn lemma_record_after_credit(
    entries: Seq<Entry>,
    owner: Identity,
    amount: u64,
    other: Identity,
)
    requires
        amount_of(entries, owner) + amount <= u64::MAX,
    ensures
        has_record(credited(entries, owner, amount), owner),
        amount_of(credited(entries, owner, amount), owner) == amount_of(entries, owner) + amount,
        other != owner ==> record_of(credited(entries, owner, amount), other) == record_of(
            entries,
            other,
        ),
{
    let after = credited(entries, owner, amount);
    if has_record(entries, owner) {
        let i = record_index(entries, owner);
        assert forall|k: int| 0 <= k < entries.len() implies (#[trigger] after[k]).owner
            == entries[k].owner by {}
        lemma_record_index(after, owner, i);
    } else {
        assert forall|k: int| 0 <= k < entries.len() implies (#[trigger] entries[k]).owner
            != owner by {
            if entries[k].owner == owner {
                lemma_named_owner_has_record(entries, owner, k);
            }
        }
        assert forall|k: int| 0 <= k < entries.len() implies (#[trigger] after[k]) == entries[k] by {}
        lemma_record_index(after, owner, entries.len() as int);
    }
    if other != owner {
        if has_record(entries, other) {
            let k = record_index(entries, other);
            lemma_record_index(after, other, k);
        } else if has_record(after, other) {
            let k = record_index(after, other);
            assert(after[k].owner == other);
            assert forall|j: int| 0 <= j < k implies (#[trigger] entries[j]).owner != other by {
                assert(after[j].owner != other);
            }
            lemma_record_index(entries, other, k);
        }
    }
}

/// A credit never gives a depositor a second record.
pub proof fn lemma_credit_keeps_owners_distinct(entries: Seq<Entry>, owner: Identity, amount: u64)
    requires
        distinct_owners(entries),
    ensures
        distinct_owners(credited(entries, owner, amount)),
{
    let after = credited(entries, owner, amount);
    if has_record(entries, owner) {
        assert forall|k: int| 0 <= k < entries.len() implies (#[trigger] after[k]).owner
            == entries[k].owner by {}
    } else {
        assert forall|k: int| 0 <= k < entries.len() implies (#[trigger] after[k]).owner
            != owner by {
            if entries[k].owner == owner {
                lemma_named_owner_has_record(entries, owner, k);
            }
        }
    }
}

/// The depositors' records.
#[derive(Clone, Debug, PartialEq, Eq)]
pub struct BalanceStore {
    entries: Vec<Entry>,
}

impl View for BalanceStore {
    type V = Seq<Entry>;

    closed spec fn view(&self) -> Seq<Entry> {
        self.entries@
    }
}

impl BalanceStore {
    /// A store without records.
    pub fn new() -> (store: BalanceStore)
        ensures
            store@ == Seq::<Entry>::empty(),
            distinct_owners(store@),
    {
        BalanceStore { entries: Vec::new() }
    }

    /// How many depositors have a record.
    pub fn len(&self) -> (n: usize)
        ensures
            n == self@.len(),
    {
        self.entries.len()
    }

    /// Looks for the record of `owner`.
    fn find(&self, owner: &Identity) -> (found: Option<usize>)
        ensures
            match found {
                Some(i) => is_record_of(self@, *owner, i as int),
                None => !has_record(self@, *owner),
            },
    {
        let mut i: usize = 0;
        while i < self.entries.len()
            invariant
                i <= self.entries.len(),
                forall|j: int| 0 <= j < i ==> (#[trigger] self.entries@[j]).owner != *owner,
            decreases self.entries.len() - i,
        {
            if self.entries[i].owner == *owner {
                return Some(i);
            }
            i = i + 1;
        }
        None
    }

    /// The record of `owner`, or `None` if it has never deposited.
    pub fn get(&self, owner: &Identity) -> (record: Option<UserBalance>)
        ensures
            record == record_of(self@, *owner),
    {
        match self.find(owner) {
            Some(i) => {
                proof {
                    lemma_record_index(self@, *owner, i as int);
                }
                Some(self.entries[i].record)
            },
            None => None,
        }
    }

    /// The tracked amount of `owner`; zero if it has no record.
    pub fn amount_of(&self, owner: &Identity) -> (amount: u64)
        ensures
            amount == amount_of(self@, *owner),
    {
        match self.get(owner) {
            Some(record) => record.amount,
            None => 0,
        }
    }

    /// Adds `amount` to the record of `owner`, making the record first if
    /// there is none.
    ///
    /// Fails, and changes nothing, exactly when the record cannot hold the
    /// new amount. A store in which no depositor has two records stays so.
    pub fn credit(&mut self, owner: Identity, amount: u64) -> (r: Result<(), ErrorCode>)
        ensures
            distinct_owners(old(self)@) ==> distinct_owners(final(self)@),
            match r {
                Ok(()) => {
                    &&& amount_of(old(self)@, owner) + amount <= u64::MAX
                    &&& final(self)@ == credited(old(self)@, owner, amount)
                },
                Err(e) => {
                    &&& e == ErrorCode::ArithmeticOverflow
                    &&& amount_of(old(self)@, owner) + amount > u64::MAX
                    &&& final(self)@ == old(self)@
                },
            },
    {
        proof {
            if distinct_owners(self@) {
                lemma_credit_keeps_owners_distinct(self@, owner, amount);
            }
        }
        match self.find(&owner) {
            Some(i) => {
                proof {
                    lemma_record_index(self@, owner, i as int);
                }
                match self.entries[i].record.amount.checked_add(amount) {
                    Some(sum) => {
                        self.entries[i] = Entry { owner, record: UserBalance { amount: sum } };
                        Ok(())
                    },
                    None => Err(ErrorCode::ArithmeticOverflow),
                }
            },
            None => {
                self.entries.push(Entry { owner, record: UserBalance { amount } });
                Ok(())
            },
        }
    }
}

} // verus!
