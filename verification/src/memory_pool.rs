//! The pool of unconfirmed transactions: a map from identifier to
//! transaction, kept in a vector in which no identifier occurs twice.

use crate::transaction::{Transaction, TransactionId};
use vstd::prelude::*;

verus! {

/// Whether some transaction of `s` has the identifier `id`.
pub open spec fn holds(s: Seq<Transaction>, id: TransactionId) -> bool {
    exists|i: int| 0 <= i < s.len() && (#[trigger] s[i]).id == id
}

/// Whether no identifier occurs twice in `s`.
pub open spec fn distinct_ids(s: Seq<Transaction>) -> bool {
    forall|i: int, j: int| 0 <= i < j < s.len() ==> (#[trigger] s[i]).id != (#[trigger] s[j]).id
}

/// A place in `s` at which the identifier `id` stands, where there is one.
pub open spec fn position(s: Seq<Transaction>, id: TransactionId) -> int {
    choose|i: int| 0 <= i < s.len() && (#[trigger] s[i]).id == id
}

/// The identifiers of the transactions of `s`.
pub open spec fn ids(s: Seq<Transaction>) -> Set<TransactionId> {
    Set::new(|id: TransactionId| holds(s, id))
}

/// The transactions of `s`, each under its identifier.
pub open spec fn keyed(s: Seq<Transaction>) -> Map<TransactionId, Transaction> {
    Map::new(|id: TransactionId| holds(s, id), |id: TransactionId| s[position(s, id)])
}

/// In a sequence without repeated identifiers, each transaction is the one
/// that stands under its identifier.
pub proof fn lemma_keyed_lookup(s: Seq<Transaction>, i: int)
    requires
        distinct_ids(s),
        0 <= i < s.len(),
    ensures
        holds(s, s[i].id),
        keyed(s).contains_key(s[i].id),
        keyed(s)[s[i].id] == s[i],
{
    let j = position(s, s[i].id);
    assert(0 <= j < s.len() && s[j].id == s[i].id);
    assert(j == i);
}

/// A sequence extended by one transaction holds an identifier exactly if
/// the shorter one held it or it is that of the new transaction.
pub proof fn lemma_holds_push(s: Seq<Transaction>, transaction: Transaction)
    ensures
        forall|id: TransactionId| #[trigger]
            holds(s.push(transaction), id) <==> (holds(s, id) || id == transaction.id),
{
    let longer = s.push(transaction);
    assert forall|id: TransactionId| #[trigger] holds(longer, id) <==> (holds(s, id) || id
        == transaction.id) by {
        if holds(longer, id) {
            let i = position(longer, id);
            if i < s.len() {
                assert(s[i].id == id);
            }
        }
        if holds(s, id) {
            let i = position(s, id);
            assert(longer[i].id == id);
        }
        if id == transaction.id {
            assert(longer[s.len() as int].id == id);
        }
    }
}

/// A sequence without repeated identifiers has as many entries under its
/// identifiers as it has transactions.
pub proof fn lemma_keyed_len(s: Seq<Transaction>)
    requires
        distinct_ids(s),
    ensures
        keyed(s).dom().finite(),
        keyed(s).len() == s.len(),
    decreases s.len(),
{
    if s.len() == 0 {
        assert(keyed(s).dom() =~= Set::empty());
    } else {
        let front = s.drop_last();
        let last = s.last();
        lemma_keyed_len(front);
        assert(!holds(front, last.id));
        assert(s =~= front.push(last));
        lemma_holds_push(front, last);
        assert(keyed(s).dom() =~= keyed(front).dom().insert(last.id));
    }
}

/// Removing confirmed transactions takes from the pool exactly those
/// entries whose identifier is confirmed: the rest stays as it was, and the
/// pool shrinks by the number of identifiers that it shared with them.
pub proof fn lemma_removal(pool: Map<TransactionId, Transaction>, confirmed: Seq<Transaction>)
    requires
        pool.dom().finite(),
    ensures
        pool.remove_keys(ids(confirmed)).dom() == pool.dom().difference(ids(confirmed)),
        forall|id: TransactionId| #[trigger]
            pool.remove_keys(ids(confirmed)).contains_key(id) ==> pool.remove_keys(
                ids(confirmed),
            )[id] == pool[id],
        pool.remove_keys(ids(confirmed)).dom().finite(),
        pool.remove_keys(ids(confirmed)).len() == pool.len() - pool.dom().intersect(
            ids(confirmed),
        ).len(),
{
    let gone = ids(confirmed);
    let shared = pool.dom().intersect(gone);
    assert(pool.remove_keys(gone).dom() =~= pool.dom().difference(gone));
    assert(pool.dom().difference(gone) =~= pool.dom().difference(shared));
    assert(pool.dom().intersect(shared) =~= shared);
    vstd::set_lib::lemma_set_difference_len(pool.dom(), shared);
}

/// Confirmed transactions that the pool does not hold change nothing.
pub proof fn lemma_absent_are_ignored(
    pool: Map<TransactionId, Transaction>,
    confirmed: Seq<Transaction>,
)
    requires
        forall|i: int| 0 <= i < confirmed.len() ==> !pool.contains_key((#[trigger] confirmed[i]).id),
    ensures
        pool.remove_keys(ids(confirmed)) == pool,
{
    assert forall|id: TransactionId| pool.contains_key(id) implies !ids(confirmed).contains(id) by {
        if holds(confirmed, id) {
            let i = position(confirmed, id);
            assert(!pool.contains_key(confirmed[i].id));
        }
    }
    assert(pool.remove_keys(ids(confirmed)) =~= pool);
}

/// Why the pool refused a transaction.
#[derive(Clone, Copy, Debug, PartialEq, Eq, Structural)]
pub enum PoolError {
    /// The validity rules do not accept the transaction.
    Rejected,
    /// A transaction with the same identifier is in the pool already.
    Duplicate,
}

/// The pool of unconfirmed transactions.
#[derive(Debug)]
pub struct MemoryPool {
    entries: Vec<Transaction>,
}

/// Returns whether some transaction of `transactions` has the identifier `id`.
pub fn holds_id(transactions: &Vec<Transaction>, id: TransactionId) -> (found: bool)
    ensures
        found == holds(transactions@, id),
{
    let mut i: usize = 0;
    while i < transactions.len()
        invariant
            i <= transactions.len(),
            forall|j: int| 0 <= j < i ==> (#[trigger] transactions@[j]).id != id,
        decreases transactions.len() - i,
    {
        if transactions[i].id == id {
            return true;
        }
        i += 1;
    }
    false
}

impl MemoryPool {
    /// The pool as a map from identifier to transaction.
    pub closed spec fn view(&self) -> Map<TransactionId, Transaction> {
        keyed(self.entries@)
    }

    /// What holds of every pool: no identifier occurs twice, and each
    /// transaction in it passed the validity rules.
    pub closed spec fn wf(&self) -> bool {
        &&& distinct_ids(self.entries@)
        &&& forall|i: int| 0 <= i < self.entries@.len() ==> (#[trigger] self.entries@[i]).well_formed
    }

    /// The pool is finite, each entry stands under its own identifier, and
    /// each passed the validity rules.
    pub proof fn lemma_entries(&self)
        requires
            self.wf(),
        ensures
            self@.dom().finite(),
            forall|id: TransactionId| #[trigger]
                self@.contains_key(id) ==> self@[id].id == id && self@[id].well_formed,
    {
        lemma_keyed_len(self.entries@);
        assert forall|id: TransactionId| #[trigger] self@.contains_key(id) implies self@[id].id
            == id && self@[id].well_formed by {
            let i = position(self.entries@, id);
            assert(0 <= i < self.entries@.len() && self.entries@[i].id == id);
        }
    }

    /// Returns an empty pool.
    pub fn new() -> (pool: MemoryPool)
        ensures
            pool.wf(),
            pool@ == Map::<TransactionId, Transaction>::empty(),
    {
        let pool = MemoryPool { entries: Vec::new() };
        assert(pool@ =~= Map::<TransactionId, Transaction>::empty());
        pool
    }

    /// Returns the number of transactions in the pool.
    pub fn len(&self) -> (n: usize)
        requires
            self.wf(),
        ensures
            n == self@.len(),
    {
        proof {
            lemma_keyed_len(self.entries@);
        }
        self.entries.len()
    }

    /// Returns whether the pool is empty.
    pub fn is_empty(&self) -> (empty: bool)
        requires
            self.wf(),
        ensures
            empty == (self@ == Map::<TransactionId, Transaction>::empty()),
    {
        proof {
            if self.entries@.len() == 0 {
                assert(self@ =~= Map::<TransactionId, Transaction>::empty());
            } else {
                lemma_keyed_lookup(self.entries@, 0);
            }
        }
        self.entries.len() == 0
    }

    /// Returns whether the pool holds a transaction with the identifier `id`.
    pub fn contains(&self, id: TransactionId) -> (found: bool)
        ensures
            found == self@.contains_key(id),
    {
        holds_id(&self.entries, id)
    }

    /// Admits `transaction`, unless the validity rules refused it or the
    /// pool holds its identifier already. A refusal leaves the pool as it
    /// was; of the two reasons, the verdict of the rules is reported first.
    pub fn add_transaction(&mut self, transaction: &Transaction) -> (result: Result<(), PoolError>)
        requires
            old(self).wf(),
        ensures
            final(self).wf(),
            match result {
                Ok(()) => {
                    &&& !old(self)@.contains_key(transaction.id)
                    &&& transaction.well_formed
                    &&& final(self)@ == old(self)@.insert(transaction.id, *transaction)
                },
                Err(PoolError::Rejected) => {
                    &&& !transaction.well_formed
                    &&& final(self)@ == old(self)@
                },
                Err(PoolError::Duplicate) => {
                    &&& transaction.well_formed
                    &&& old(self)@.contains_key(transaction.id)
                    &&& final(self)@ == old(self)@
                },
            },
    {
        if !transaction.well_formed {
            return Err(PoolError::Rejected);
        }
        if holds_id(&self.entries, transaction.id) {
            return Err(PoolError::Duplicate);
        }
        let ghost before = self.entries@;
        self.entries.push(*transaction);
        proof {
            let after = self.entries@;
            assert(after == before.push(*transaction));
            assert(distinct_ids(after)) by {
                assert forall|i: int, j: int| 0 <= i < j < after.len() implies (#[trigger] after[i]).id
                    != (#[trigger] after[j]).id by {
                    if j == before.len() {
                        assert(before[i].id != transaction.id);
                    } else {
                        assert(before[i].id != before[j].id);
                    }
                }
            }
            lemma_holds_push(before, *transaction);
            assert forall|id: TransactionId| holds(after, id) implies #[trigger] keyed(after)[id]
                == keyed(before).insert(transaction.id, *transaction)[id] by {
                let i = position(after, id);
                lemma_keyed_lookup(after, i);
                if i < before.len() {
                    lemma_keyed_lookup(before, i);
                }
            }
            assert(keyed(after) =~= keyed(before).insert(transaction.id, *transaction));
        }
        Ok(())
    }

    /// Removes every transaction whose identifier is that of a transaction
    /// of `confirmed`. Those of `confirmed` that the pool does not hold
    /// change nothing.
    pub fn remove_transactions(&mut self, confirmed: &Vec<Transaction>)
        requires
            old(self).wf(),
        ensures
            final(self).wf(),
            final(self)@ == old(self)@.remove_keys(ids(confirmed@)),
            final(self)@.len() == old(self)@.len() - old(self)@.dom().intersect(
                ids(confirmed@),
            ).len(),
    {
        let ghost before = self.entries@;
        let mut kept: Vec<Transaction> = Vec::new();
        let mut i: usize = 0;
        while i < self.entries.len()
            invariant
                self.entries@ == before,
                i <= before.len(),
                distinct_ids(before),
                distinct_ids(kept@),
                forall|k: int|
                    0 <= k < kept@.len() ==> (#[trigger] kept@[k]).well_formed && !holds(
                        confirmed@,
                        kept@[k].id,
                    ) && exists|j: int| 0 <= j < i && #[trigger] before[j] == kept@[k],
                forall|j: int|
                    0 <= j < i && !holds(confirmed@, (#[trigger] before[j]).id) ==> kept@.contains(
                        before[j],
                    ),
                forall|j: int| 0 <= j < before.len() ==> (#[trigger] before[j]).well_formed,
            decreases before.len() - i,
        {
            let entry = self.entries[i];
            if !holds_id(confirmed, entry.id) {
                let ghost kept_before = kept@;
                kept.push(entry);
                proof {
                    assert forall|a: int, b: int| 0 <= a < b < kept@.len() implies (#[trigger] kept@[a]).id
                        != (#[trigger] kept@[b]).id by {
                        if b == kept_before.len() {
                            let j = choose|j: int| 0 <= j < i && #[trigger] before[j] == kept_before[a];
                            assert(before[j].id != before[i as int].id);
                        } else {
                            assert(kept_before[a].id != kept_before[b].id);
                        }
                    }
                    assert forall|j: int|
                        0 <= j < i + 1 && !holds(confirmed@, (#[trigger] before[j]).id) implies kept@.contains(
                        before[j],
                    ) by {
                        if j < i {
                            let k = choose|k: int| 0 <= k < kept_before.len() && kept_before[k] == before[j];
                            assert(kept@[k] == before[j]);
                        } else {
                            assert(kept@[kept_before.len() as int] == before[j]);
                        }
                    }
                }
            }
            i += 1;
        }
        self.entries = kept;
        proof {
            let after = self.entries@;
            let gone = ids(confirmed@);
            assert forall|id: TransactionId| holds(after, id) <==> (holds(before, id) && !holds(
                confirmed@,
                id,
            )) by {
                if holds(after, id) {
                    let k = position(after, id);
                    let j = choose|j: int| 0 <= j < before.len() && #[trigger] before[j] == after[k];
                    assert(before[j].id == id);
                }
                if holds(before, id) && !holds(confirmed@, id) {
                    let j = position(before, id);
                    assert(after.contains(before[j]));
                    let k = choose|k: int| 0 <= k < after.len() && after[k] == before[j];
                    assert(after[k].id == id);
                }
            }
            assert forall|id: TransactionId| holds(after, id) implies #[trigger] keyed(after)[id]
                == keyed(before)[id] by {
                let k = position(after, id);
                lemma_keyed_lookup(after, k);
                let j = choose|j: int| 0 <= j < before.len() && #[trigger] before[j] == after[k];
                lemma_keyed_lookup(before, j);
            }
            assert(keyed(after) =~= keyed(before).remove_keys(gone));
            lemma_keyed_len(before);
            lemma_removal(keyed(before), confirmed@);
        }
    }

    /// Returns a copy of the transactions in the pool, which later changes
    /// to the pool do not touch.
    pub fn transactions(&self) -> (snapshot: Vec<Transaction>)
        requires
            self.wf(),
        ensures
            distinct_ids(snapshot@),
            keyed(snapshot@) == self@,
            snapshot@.len() == self@.len(),
    {
        let mut snapshot: Vec<Transaction> = Vec::new();
        let mut i: usize = 0;
        while i < self.entries.len()
            invariant
                i <= self.entries@.len(),
                snapshot@ == self.entries@.take(i as int),
            decreases self.entries@.len() - i,
        {
            snapshot.push(self.entries[i]);
            proof {
                assert(self.entries@.take(i as int + 1) =~= self.entries@.take(i as int).push(
                    self.entries@[i as int],
                ));
            }
            i += 1;
        }
        proof {
            assert(snapshot@ =~= self.entries@);
            lemma_keyed_len(self.entries@);
        }
        snapshot
    }
}

} // verus!
