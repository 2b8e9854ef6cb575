//! An in-memory pending pool: entries kept in insertion order, at most one per hash.
use crate::collaborators::{pool_key, MemPool};
use crate::models::TransactionWithState;
use vstd::prelude::*;

verus! {

/// The hash keys of a list of entries, in order.
pub open spec fn pool_keys(s: Seq<TransactionWithState>) -> Seq<Seq<u8>> {
    s.map_values(|e: TransactionWithState| pool_key(&e))
}

/// The map that a list of entries with distinct hashes stands for.
pub open spec fn pool_of(s: Seq<TransactionWithState>) -> Map<Seq<u8>, TransactionWithState> {
    Map::new(
        |h: Seq<u8>| pool_keys(s).contains(h),
        |h: Seq<u8>| s[choose|i: int| 0 <= i < s.len() && pool_key(&s[i]) == h],
    )
}

proof fn lemma_pool_at(s: Seq<TransactionWithState>, i: int)
    requires
        pool_keys(s).no_duplicates(),
        0 <= i < s.len(),
    ensures
        pool_of(s).contains_key(pool_key(&s[i])),
        pool_of(s)[pool_key(&s[i])] == s[i],
{
    assert(pool_keys(s)[i] == pool_key(&s[i]));
    let j = choose|j: int| 0 <= j < s.len() && pool_key(&s[j]) == pool_key(&s[i]);
    assert(pool_keys(s)[j] == pool_keys(s)[i]);
}

proof fn lemma_pool_has(s: Seq<TransactionWithState>, h: Seq<u8>) -> (i: int)
    requires
        pool_keys(s).no_duplicates(),
        pool_of(s).contains_key(h),
    ensures
        0 <= i < s.len(),
        pool_key(&s[i]) == h,
        pool_of(s)[h] == s[i],
{
    let i = choose|i: int| 0 <= i < pool_keys(s).len() && pool_keys(s)[i] == h;
    lemma_pool_at(s, i);
    i
}

proof fn lemma_pool_len(s: Seq<TransactionWithState>)
    requires
        pool_keys(s).no_duplicates(),
    ensures
        pool_of(s).dom().finite(),
        pool_of(s).len() == s.len(),
{
    assert(pool_of(s).dom() =~= pool_keys(s).to_set());
    pool_keys(s).unique_seq_to_set();
}

/// A pending pool held in memory, in insertion order: `release` hands out the oldest entries
/// first, and replacing an entry keeps its place.
pub struct InMemoryMemPool {
    entries: Vec<TransactionWithState>,
}

impl InMemoryMemPool {
    /// The entries in the order they will be released.
    pub closed spec fn queue(&self) -> Seq<TransactionWithState> {
        self.entries@
    }

    /// An empty pool.
    pub fn new() -> (r: InMemoryMemPool)
        ensures
            r.entries() == Map::<Seq<u8>, TransactionWithState>::empty(),
            r.queue() == Seq::<TransactionWithState>::empty(),
            r.wf(),
    {
        let r = InMemoryMemPool { entries: Vec::new() };
        assert(pool_of(r.entries@) =~= Map::<Seq<u8>, TransactionWithState>::empty());
        r
    }
}

impl MemPool for InMemoryMemPool {
    closed spec fn wf(&self) -> bool {
        pool_keys(self.entries@).no_duplicates()
    }

    closed spec fn entries(&self) -> Map<Seq<u8>, TransactionWithState> {
        pool_of(self.entries@)
    }

    /// A new hash joins the end of the queue; an entry for a pooled hash takes the place of
    /// the old one.
    fn add(&mut self, transaction: TransactionWithState)
        ensures
            final(self).queue() == old(self).queue().push(transaction) || exists|i: int|
                0 <= i < old(self).queue().len() && pool_key(&old(self).queue()[i]) == pool_key(
                    &transaction,
                ) && final(self).queue() == old(self).queue().update(i, transaction),
    {
        let ghost s = self.entries@;
        let ghost k = pool_key(&transaction);
        let mut i: usize = 0;
        while i < self.entries.len()
            invariant
                self.entries@ == s,
                k == pool_key(&transaction),
                pool_keys(s).no_duplicates(),
                i <= s.len(),
                forall|j: int| 0 <= j < i ==> pool_key(&#[trigger] s[j]) != k,
            ensures
                self.entries@ == s,
                i <= s.len(),
                forall|j: int| 0 <= j < i ==> pool_key(&#[trigger] s[j]) != k,
                i < s.len() ==> pool_key(&s[i as int]) == k,
            decreases s.len() - i,
        {
            if self.entries[i].transaction.hash == transaction.transaction.hash {
                break;
            }
            i = i + 1;
        }
        if i < self.entries.len() {
            let ghost t = transaction;
            self.entries.set(i, transaction);
            proof {
                let s2 = self.entries@;
                assert(s2 == s.update(i as int, t));
                assert(pool_keys(s2) =~= pool_keys(s));
                assert forall|h: Seq<u8>|
                    #![auto]
                    pool_of(s2).contains_key(h) == pool_of(s).insert(k, t).contains_key(h) by {
                    assert(pool_keys(s)[i as int] == k);
                }
                assert forall|h: Seq<u8>|
                    #![auto]
                    pool_of(s2).contains_key(h) implies pool_of(s2)[h] == pool_of(s).insert(
                        k,
                        t,
                    )[h] by {
                    let j = lemma_pool_has(s2, h);
                    assert(pool_keys(s2)[i as int] == k);
                    assert(pool_keys(s2)[j] == h);
                    if j != i {
                        lemma_pool_at(s, j);
                    }
                }
                assert(pool_of(s2) =~= pool_of(s).insert(k, t));
            }
        } else {
            let ghost t = transaction;
            self.entries.push(transaction);
            proof {
                let s2 = self.entries@;
                assert(pool_keys(s2) =~= pool_keys(s).push(k));
                assert forall|a: int, b: int|
                    0 <= a < b < pool_keys(s2).len() implies pool_keys(s2)[a] != pool_keys(
                        s2,
                    )[b] by {
                    if b == s.len() {
                        assert(pool_keys(s2)[a] == pool_key(&s[a]));
                    } else {
                        assert(pool_keys(s2)[a] == pool_keys(s)[a]);
                        assert(pool_keys(s2)[b] == pool_keys(s)[b]);
                    }
                }
                assert forall|h: Seq<u8>|
                    #![auto]
                    pool_of(s2).contains_key(h) == pool_of(s).insert(k, t).contains_key(h) by {
                    if pool_of(s).contains_key(h) {
                        let j = lemma_pool_has(s, h);
                        assert(pool_keys(s2)[j] == h);
                    }
                    if pool_of(s2).contains_key(h) && h != k {
                        let j = lemma_pool_has(s2, h);
                        assert(pool_keys(s)[j] == h);
                    }
                    if h == k {
                        assert(pool_keys(s2)[s.len() as int] == h);
                    }
                }
                assert forall|h: Seq<u8>|
                    #![auto]
                    pool_of(s2).contains_key(h) implies pool_of(s2)[h] == pool_of(s).insert(
                        k,
                        t,
                    )[h] by {
                    let j = lemma_pool_has(s2, h);
                    if j < s.len() {
                        lemma_pool_at(s, j);
                    }
                }
                assert(pool_of(s2) =~= pool_of(s).insert(k, t));
            }
        }
    }

    fn get(&self, hash: &crate::keys::Hash) -> (r: Option<TransactionWithState>) {
        let ghost s = self.entries@;
        let mut i: usize = 0;
        while i < self.entries.len()
            invariant
                self.entries@ == s,
                pool_keys(s).no_duplicates(),
                i <= s.len(),
                forall|j: int| 0 <= j < i ==> pool_key(&#[trigger] s[j]) != hash.0@,
            decreases s.len() - i,
        {
            if self.entries[i].transaction.hash == *hash {
                proof {
                    lemma_pool_at(s, i as int);
                }
                return Some(self.entries[i].clone());
            }
            i = i + 1;
        }
        proof {
            if pool_of(s).contains_key(hash.0@) {
                let j = lemma_pool_has(s, hash.0@);
            }
        }
        None
    }

    /// Hands out the oldest entries first.
    fn release(&mut self, limit: usize) -> (r: Vec<TransactionWithState>)
        ensures
            r@ == old(self).queue().take(r@.len() as int),
            final(self).queue() == old(self).queue().skip(r@.len() as int),
    {
        let ghost s = self.entries@;
        let n: usize = if limit <= self.entries.len() {
            limit
        } else {
            self.entries.len()
        };
        proof {
            lemma_pool_len(s);
            assert(pool_keys(s.take(n as int)) =~= pool_keys(s).take(n as int));
            assert(pool_keys(s.skip(n as int)) =~= pool_keys(s).skip(n as int));
        }
        let mut released = self.entries.split_off(n);
        core::mem::swap(&mut self.entries, &mut released);
        proof {
            let head = s.take(n as int);
            let tail = s.skip(n as int);
            assert(released@ =~= head);
            assert(self.entries@ =~= tail);
            let gone = pool_keys(released@).to_set();
            assert forall|i: int|
                0 <= i < released@.len() implies pool_of(s).contains_key(
                    pool_key(&#[trigger] released@[i]),
                ) && pool_of(s)[pool_key(&released@[i])] == released@[i] by {
                lemma_pool_at(s, i);
            }
            assert forall|i: int, j: int|
                0 <= i < j < released@.len() implies pool_key(&#[trigger] released@[i])
                != pool_key(&#[trigger] released@[j]) by {
                assert(pool_keys(s)[i] == pool_key(&released@[i]));
                assert(pool_keys(s)[j] == pool_key(&released@[j]));
            }
            let want = pool_of(s).remove_keys(gone);
            assert forall|h: Seq<u8>| #![auto] pool_of(tail).contains_key(h) == want.contains_key(h) by {
                if pool_of(tail).contains_key(h) {
                    let j = lemma_pool_has(tail, h);
                    assert(pool_keys(s)[j + n] == h);
                    if gone.contains(h) {
                        let k = choose|k: int| 0 <= k < released@.len() && #[trigger] pool_keys(released@)[k] == h;
                        assert(pool_keys(s)[k] == h);
                    }
                }
                if want.contains_key(h) {
                    let j = lemma_pool_has(s, h);
                    if j < n {
                        assert(pool_keys(released@)[j] == h);
                    } else {
                        assert(pool_keys(tail)[j - n] == h);
                    }
                }
            }
            assert forall|h: Seq<u8>| #![auto] pool_of(tail).contains_key(h) implies pool_of(tail)[h] == want[h] by {
                let j = lemma_pool_has(tail, h);
                lemma_pool_at(s, j + n);
            }
            assert(pool_of(tail) =~= want);
        }
        released
    }

    fn count(&self) -> (r: usize) {
        proof {
            lemma_pool_len(self.entries@);
        }
        self.entries.len()
    }
}

} // verus!
