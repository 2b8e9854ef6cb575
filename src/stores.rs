//! In-memory account and transaction stores, and a fixed routing table.
use crate::address::Address;
use crate::collaborators::{address_key, AccStorage, AppRouter, TxStorage};
use crate::models::{Account, Transaction};
use vstd::prelude::*;

verus! {

/// The keys of a list of (key, value) pairs, in order.
pub open spec fn keys_of<K, V>(s: Seq<(K, V)>) -> Seq<K> {
    s.map_values(|p: (K, V)| p.0)
}

/// The map that a list of (key, value) pairs with distinct keys stands for.
pub open spec fn map_of<K, V>(s: Seq<(K, V)>) -> Map<K, V> {
    Map::new(
        |k: K| keys_of(s).contains(k),
        |k: K| s[choose|i: int| 0 <= i < s.len() && s[i].0 == k].1,
    )
}

proof fn lemma_map_of_at<K, V>(s: Seq<(K, V)>, i: int)
    requires
        keys_of(s).no_duplicates(),
        0 <= i < s.len(),
    ensures
        map_of(s).contains_key(s[i].0),
        map_of(s)[s[i].0] == s[i].1,
{
    assert(keys_of(s)[i] == s[i].0);
    let j = choose|j: int| 0 <= j < s.len() && s[j].0 == s[i].0;
    assert(keys_of(s)[j] == keys_of(s)[i]);
}

proof fn lemma_map_of_has<K, V>(s: Seq<(K, V)>, k: K) -> (i: int)
    requires
        keys_of(s).no_duplicates(),
        map_of(s).contains_key(k),
    ensures
        0 <= i < s.len(),
        s[i].0 == k,
{
    let i = choose|i: int| 0 <= i < keys_of(s).len() && keys_of(s)[i] == k;
    i
}

proof fn lemma_map_of_update<K, V>(s: Seq<(K, V)>, i: int, v: V)
    requires
        keys_of(s).no_duplicates(),
        0 <= i < s.len(),
    ensures
        keys_of(s.update(i, (s[i].0, v))) == keys_of(s),
        map_of(s.update(i, (s[i].0, v))) == map_of(s).insert(s[i].0, v),
{
    let s2 = s.update(i, (s[i].0, v));
    assert(keys_of(s2) =~= keys_of(s));
    assert forall|k: K| #![auto] map_of(s2).contains_key(k) == map_of(s).insert(s[i].0, v).contains_key(k) by {
        assert(keys_of(s)[i] == s[i].0);
    }
    assert forall|k: K| #![auto] map_of(s2).contains_key(k) implies map_of(s2)[k] == map_of(s).insert(s[i].0, v)[k] by {
        let j = lemma_map_of_has(s2, k);
        lemma_map_of_at(s2, j);
        assert(keys_of(s2)[i] == s[i].0);
        assert(keys_of(s2)[j] == k);
        if j != i {
            lemma_map_of_at(s, j);
        }
    }
    assert(map_of(s2) =~= map_of(s).insert(s[i].0, v));
}

proof fn lemma_map_of_push<K, V>(s: Seq<(K, V)>, k: K, v: V)
    requires
        keys_of(s).no_duplicates(),
        forall|j: int| 0 <= j < s.len() ==> (#[trigger] s[j]).0 != k,
    ensures
        keys_of(s.push((k, v))).no_duplicates(),
        map_of(s.push((k, v))) == map_of(s).insert(k, v),
{
    let s2 = s.push((k, v));
    assert(keys_of(s2) =~= keys_of(s).push(k));
    assert forall|a: int, b: int| 0 <= a < b < keys_of(s2).len() implies keys_of(s2)[a] != keys_of(s2)[b] by {
        if b == s.len() {
            assert(keys_of(s2)[a] == s[a].0);
        } else {
            assert(keys_of(s2)[a] == keys_of(s)[a]);
            assert(keys_of(s2)[b] == keys_of(s)[b]);
        }
    }
    assert forall|h: K| #![auto] map_of(s2).contains_key(h) == map_of(s).insert(k, v).contains_key(h) by {
        if map_of(s).contains_key(h) {
            let j = lemma_map_of_has(s, h);
            assert(keys_of(s2)[j] == h);
        }
        if map_of(s2).contains_key(h) && h != k {
            let j = lemma_map_of_has(s2, h);
            assert(keys_of(s)[j] == h);
        }
        if h == k {
            assert(keys_of(s2)[s.len() as int] == h);
        }
    }
    assert forall|h: K| #![auto] map_of(s2).contains_key(h) implies map_of(s2)[h] == map_of(s).insert(k, v)[h] by {
        let j = lemma_map_of_has(s2, h);
        lemma_map_of_at(s2, j);
        if j < s.len() {
            lemma_map_of_at(s, j);
        }
    }
    assert(map_of(s2) =~= map_of(s).insert(k, v));
}

/// The (key, account) pairs that an account list stands for.
pub open spec fn account_pairs(s: Seq<(Address, Account)>) -> Seq<((Seq<char>, Seq<u8>), Account)> {
    s.map_values(|p: (Address, Account)| (address_key(&p.0), p.1))
}

/// Accounts held in memory.
pub struct InMemoryAccStorage {
    entries: Vec<(Address, Account)>,
}

impl InMemoryAccStorage {
    /// A storage with no accounts.
    pub fn new() -> (r: InMemoryAccStorage)
        ensures
            r.accounts() == Map::<(Seq<char>, Seq<u8>), Account>::empty(),
            r.wf(),
    {
        let r = InMemoryAccStorage { entries: Vec::new() };
        assert(map_of(account_pairs(r.entries@)) =~= Map::<(Seq<char>, Seq<u8>), Account>::empty());
        r
    }
}

impl AccStorage for InMemoryAccStorage {
    closed spec fn wf(&self) -> bool {
        keys_of(account_pairs(self.entries@)).no_duplicates()
    }

    closed spec fn accounts(&self) -> Map<(Seq<char>, Seq<u8>), Account> {
        map_of(account_pairs(self.entries@))
    }

    fn get(&self, key: &Address) -> (r: Option<Account>) {
        let ghost s = account_pairs(self.entries@);
        let mut i: usize = 0;
        while i < self.entries.len()
            invariant
                s == account_pairs(self.entries@),
                keys_of(s).no_duplicates(),
                i <= s.len(),
                forall|j: int| 0 <= j < i ==> (#[trigger] s[j]).0 != address_key(key),
            decreases s.len() - i,
        {
            if self.entries[i].0 == *key {
                proof {
                    lemma_map_of_at(s, i as int);
                }
                return Some(self.entries[i].1.clone());
            }
            i = i + 1;
        }
        proof {
            if map_of(s).contains_key(address_key(key)) {
                let j = lemma_map_of_has(s, address_key(key));
            }
        }
        None
    }

    fn set(&mut self, key: Address, acc: Account) {
        let ghost s = account_pairs(self.entries@);
        let ghost k = address_key(&key);
        let mut i: usize = 0;
        while i < self.entries.len()
            invariant
                s == account_pairs(self.entries@),
                k == address_key(&key),
                keys_of(s).no_duplicates(),
                i <= s.len(),
                forall|j: int| 0 <= j < i ==> (#[trigger] s[j]).0 != k,
            ensures
                s == account_pairs(self.entries@),
                i <= s.len(),
                forall|j: int| 0 <= j < i ==> (#[trigger] s[j]).0 != k,
                i < s.len() ==> s[i as int].0 == k,
            decreases s.len() - i,
        {
            if self.entries[i].0 == key {
                break;
            }
            i = i + 1;
        }
        let ghost a = acc;
        if i < self.entries.len() {
            self.entries.set(i, (key, acc));
            proof {
                lemma_map_of_update(s, i as int, a);
                assert(account_pairs(self.entries@) =~= s.update(i as int, (s[i as int].0, a)));
            }
        } else {
            self.entries.push((key, acc));
            proof {
                lemma_map_of_push(s, k, a);
                assert(account_pairs(self.entries@) =~= s.push((k, a)));
            }
        }
    }
}

/// The (key, transaction) pairs that a transaction list stands for.
pub open spec fn tx_pairs(s: Seq<(crate::keys::Hash, Transaction)>) -> Seq<(Seq<u8>, Transaction)> {
    s.map_values(|p: (crate::keys::Hash, Transaction)| (p.0.0@, p.1))
}

/// Confirmed transactions held in memory.
pub struct InMemoryTxStorage {
    entries: Vec<(crate::keys::Hash, Transaction)>,
}

impl InMemoryTxStorage {
    /// A storage with no transactions.
    pub fn new() -> (r: InMemoryTxStorage)
        ensures
            r.transactions() == Map::<Seq<u8>, Transaction>::empty(),
            r.wf(),
    {
        let r = InMemoryTxStorage { entries: Vec::new() };
        assert(map_of(tx_pairs(r.entries@)) =~= Map::<Seq<u8>, Transaction>::empty());
        r
    }
}

impl TxStorage for InMemoryTxStorage {
    closed spec fn wf(&self) -> bool {
        keys_of(tx_pairs(self.entries@)).no_duplicates()
    }

    closed spec fn transactions(&self) -> Map<Seq<u8>, Transaction> {
        map_of(tx_pairs(self.entries@))
    }

    fn get(&self, key: &crate::keys::Hash) -> (r: Option<Transaction>) {
        let ghost s = tx_pairs(self.entries@);
        let mut i: usize = 0;
        while i < self.entries.len()
            invariant
                s == tx_pairs(self.entries@),
                keys_of(s).no_duplicates(),
                i <= s.len(),
                forall|j: int| 0 <= j < i ==> (#[trigger] s[j]).0 != key.0@,
            decreases s.len() - i,
        {
            if self.entries[i].0 == *key {
                proof {
                    lemma_map_of_at(s, i as int);
                }
                return Some(self.entries[i].1.clone());
            }
            i = i + 1;
        }
        proof {
            if map_of(s).contains_key(key.0@) {
                let j = lemma_map_of_has(s, key.0@);
            }
        }
        None
    }

    fn set(&mut self, key: crate::keys::Hash, tx: Transaction) {
        let ghost s = tx_pairs(self.entries@);
        let ghost k = key.0@;
        let mut i: usize = 0;
        while i < self.entries.len()
            invariant
                s == tx_pairs(self.entries@),
                k == key.0@,
                keys_of(s).no_duplicates(),
                i <= s.len(),
                forall|j: int| 0 <= j < i ==> (#[trigger] s[j]).0 != k,
            ensures
                s == tx_pairs(self.entries@),
                i <= s.len(),
                forall|j: int| 0 <= j < i ==> (#[trigger] s[j]).0 != k,
                i < s.len() ==> s[i as int].0 == k,
            decreases s.len() - i,
        {
            if self.entries[i].0 == key {
                break;
            }
            i = i + 1;
        }
        let ghost t = tx;
        if i < self.entries.len() {
            self.entries.set(i, (key, tx));
            proof {
                lemma_map_of_update(s, i as int, t);
                assert(tx_pairs(self.entries@) =~= s.update(i as int, (s[i as int].0, t)));
            }
        } else {
            self.entries.push((key, tx));
            proof {
                lemma_map_of_push(s, k, t);
                assert(tx_pairs(self.entries@) =~= s.push((k, t)));
            }
        }
    }
}

} // verus!
