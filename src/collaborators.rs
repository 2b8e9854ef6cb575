//! The interfaces through which the admission pipeline reaches its collaborators: hashing,
//! signatures, application routing, account storage, confirmed-transaction storage and the
//! pending pool. Each one's contract is stated over a model of the collaborator.
use crate::address::Address;
use crate::error::ApplicationError;
use crate::keys::{SignKey, Signature, VerifyKey};
use crate::models::{Account, Transaction, TransactionWithState};
use vstd::prelude::*;

verus! {

/// The identity of an address as the stores key it: its network tag and key bytes.
pub open spec fn address_key(a: &Address) -> (Seq<char>, Seq<u8>) {
    (a.network@, a.vk.0@)
}

/// A content hash function.
pub trait Hasher {
    /// The hash of a byte sequence: 32 bytes that depend on the bytes alone.
    spec fn hash_of(&self, value: Seq<u8>) -> Seq<u8>;

    /// Hashes `value`.
    fn hash(&self, value: &[u8]) -> (r: crate::keys::Hash)
        ensures
            r.0@ == self.hash_of(value@),
    ;

    /// Whether `hash` is the hash of `value`.
    fn verify(&self, value: &[u8], hash: &crate::keys::Hash) -> (r: bool)
        ensures
            r == (self.hash_of(value@) == hash.0@),
    ;
}

/// A digital-signature scheme.
pub trait Signer {
    /// Whether `signature` is a valid signature of `data` under `verify_key`.
    spec fn accepts(&self, data: Seq<u8>, signature: Seq<u8>, verify_key: Seq<u8>) -> bool;

    /// Signs `data` with `sign_key`.
    fn sign(&self, data: &[u8], sign_key: &SignKey) -> Signature;

    /// Checks `signature` over `data` against `verify_key`.
    fn verify(&self, data: &[u8], signature: &Signature, verify_key: &VerifyKey) -> (r: bool)
        ensures
            r == self.accepts(data@, signature.0@, verify_key.0@),
    ;
}

/// The application router: which (application, operation) pairs are destinations that
/// transaction payloads may name.
pub trait AppRouter {
    /// Whether the pair is a known destination.
    spec fn routes(&self, app_name: Seq<char>, operation: Seq<char>) -> bool;

    /// Whether the pair is a known destination.
    fn is_exist(&self, app_name: &str, operation: &str) -> (r: bool)
        ensures
            r == self.routes(app_name@, operation@),
    ;
}

/// Storage of accounts, one per address.
pub trait AccStorage {
    /// Whether the storage's own representation is consistent.
    spec fn wf(&self) -> bool;

    /// The stored accounts, keyed by address.
    spec fn accounts(&self) -> Map<(Seq<char>, Seq<u8>), Account>;

    /// The account stored for `key`, if any.
    fn get(&self, key: &Address) -> (r: Option<Account>)
        requires
            self.wf(),
        ensures
            r == (if self.accounts().contains_key(address_key(key)) {
                Some(self.accounts()[address_key(key)])
            } else {
                None
            }),
    ;

    /// Stores `acc` for `key`, replacing what was stored for it.
    fn set(&mut self, key: Address, acc: Account)
        requires
            old(self).wf(),
        ensures
            final(self).wf(),
            final(self).accounts() == old(self).accounts().insert(address_key(&key), acc),
    ;
}

/// Storage of confirmed transactions, keyed by hash.
pub trait TxStorage {
    /// Whether the storage's own representation is consistent.
    spec fn wf(&self) -> bool;

    /// The stored transactions, keyed by the bytes of their hash.
    spec fn transactions(&self) -> Map<Seq<u8>, Transaction>;

    /// The transaction stored for `key`, if any.
    fn get(&self, key: &crate::keys::Hash) -> (r: Option<Transaction>)
        requires
            self.wf(),
        ensures
            r == (if self.transactions().contains_key(key.0@) {
                Some(self.transactions()[key.0@])
            } else {
                None
            }),
    ;

    /// Stores `tx` for `key`, replacing what was stored for it.
    fn set(&mut self, key: crate::keys::Hash, tx: Transaction)
        requires
            old(self).wf(),
        ensures
            final(self).wf(),
            final(self).transactions() == old(self).transactions().insert(key.0@, tx),
    ;
}

/// The key under which the pending pool holds an entry: the bytes of its transaction's hash.
pub open spec fn pool_key(e: &TransactionWithState) -> Seq<u8> {
    e.transaction.hash.0@
}

/// The pending pool: transactions with their lifecycle state, at most one per hash, waiting to
/// be drained into blocks.
pub trait MemPool {
    /// Whether the pool's own representation is consistent.
    spec fn wf(&self) -> bool;

    /// The pooled entries, keyed by the bytes of their transaction's hash.
    spec fn entries(&self) -> Map<Seq<u8>, TransactionWithState>;

    /// Inserts `transaction`, replacing an entry with the same hash.
    fn add(&mut self, transaction: TransactionWithState)
        requires
            old(self).wf(),
        ensures
            final(self).wf(),
            final(self).entries() == old(self).entries().insert(
                pool_key(&transaction),
                transaction,
            ),
    ;

    /// The entry for `hash`, if any.
    fn get(&self, hash: &crate::keys::Hash) -> (r: Option<TransactionWithState>)
        requires
            self.wf(),
        ensures
            r == (if self.entries().contains_key(hash.0@) {
                Some(self.entries()[hash.0@])
            } else {
                None
            }),
    ;

    /// Removes and returns up to `limit` entries: as many as there are, if fewer.
    fn release(&mut self, limit: usize) -> (r: Vec<TransactionWithState>)
        requires
            old(self).wf(),
        ensures
            final(self).wf(),
            old(self).entries().dom().finite(),
            r@.len() == if limit <= old(self).entries().len() {
                limit as nat
            } else {
                old(self).entries().len()
            },
            forall|i: int|
                0 <= i < r@.len() ==> old(self).entries().contains_key(pool_key(&#[trigger] r@[i]))
                    && old(self).entries()[pool_key(&r@[i])] == r@[i],
            forall|i: int, j: int|
                0 <= i < j < r@.len() ==> pool_key(&#[trigger] r@[i]) != pool_key(&#[trigger] r@[j]),
            final(self).entries() == old(self).entries().remove_keys(
                r@.map_values(|e: TransactionWithState| pool_key(&e)).to_set(),
            ),
    ;

    /// The number of pooled entries.
    fn count(&self) -> (r: usize)
        requires
            self.wf(),
        ensures
            self.entries().dom().finite(),
            r == self.entries().len(),
    ;
}

/// An application-layer operation: takes a request, returns a result or an error.
pub trait Interactor<I, O> {
    /// Whether the operation's collaborators are ready to be used.
    spec fn wf(&self) -> bool;

    /// Runs the operation.
    fn execute(&mut self, data: I) -> (r: Result<O, ApplicationError>)
        requires
            old(self).wf(),
        ensures
            final(self).wf(),
    ;
}

} // verus!
