//! Ledger entities: accounts, application messages, transactions and their lifecycle.
use crate::address::{same_address, Address};
use crate::keys::Signature;
use crate::token::{same_token, Token};
use vstd::prelude::*;

verus! {

/// An account: its address, the sequence number of its last transaction, and its balance.
#[derive(Debug)]
pub struct Account {
    /// Account address.
    pub address: Address,
    /// Number of the last transaction.
    pub nonce: u64,
    /// Account balance.
    pub balance: Token,
}

impl Clone for Account {
    fn clone(&self) -> (r: Self)
        ensures
            r == *self,
    {
        Account { address: self.address.clone(), nonce: self.nonce, balance: self.balance.clone() }
    }
}

/// Whether two accounts hold equal fields.
pub open spec fn same_account(a: &Account, b: &Account) -> bool {
    same_address(&a.address, &b.address) && a.nonce == b.nonce && same_token(&a.balance, &b.balance)
}

impl PartialEq for Account {
    fn eq(&self, other: &Self) -> (r: bool) {
        self.address == other.address && self.nonce == other.nonce && self.balance == other.balance
    }
}

impl Eq for Account {}

impl vstd::std_specs::cmp::PartialEqSpecImpl for Account {
    open spec fn obeys_eq_spec() -> bool {
        true
    }

    open spec fn eq_spec(&self, other: &Account) -> bool {
        same_account(self, other)
    }
}

/// A message for a target application: the application's name, the operation, and a payload
/// that this core does not read, held as its compact JSON text
/// (e.g. `{"app":"bank","operation":"transfer","payload":{"receiver":"addr"}}`).
#[derive(Debug)]
pub struct AppData {
    /// Application name, e.g. `bank`.
    pub app: String,
    /// Application operation, e.g. `transfer`.
    pub operation: String,
    /// Compact JSON text of the payload, e.g. `{"receiver":"addr"}`.
    pub payload: String,
}

impl Clone for AppData {
    fn clone(&self) -> (r: Self)
        ensures
            r == *self,
    {
        AppData {
            app: self.app.clone(),
            operation: self.operation.clone(),
            payload: self.payload.clone(),
        }
    }
}

/// Whether two application messages hold the same texts.
pub open spec fn same_app_data(a: &AppData, b: &AppData) -> bool {
    a.app@ == b.app@ && a.operation@ == b.operation@ && a.payload@ == b.payload@
}

impl PartialEq for AppData {
    fn eq(&self, other: &Self) -> (r: bool) {
        self.app == other.app && self.operation == other.operation && self.payload == other.payload
    }
}

impl Eq for AppData {}

impl vstd::std_specs::cmp::PartialEqSpecImpl for AppData {
    open spec fn obeys_eq_spec() -> bool {
        true
    }

    open spec fn eq_spec(&self, other: &AppData) -> bool {
        same_app_data(self, other)
    }
}

/// Where a transaction stands in its lifecycle.
#[derive(Debug, Clone, Copy, PartialEq, Eq, Structural)]
pub enum TxState {
    /// The transaction is confirmed.
    Confirmed,
    /// The transaction was reverted.
    Reverted,
    /// The transaction waits for confirmation.
    PendingConfirmation,
}

/// A signed transaction; it does not change once built.
#[derive(Debug)]
pub struct Transaction {
    pub hash: crate::keys::Hash,
    pub sender: Address,
    pub data: AppData,
    pub amount: Token,
    pub timestamp: u64,
    pub gas: u64,
    pub nonce: u64,
    pub signature: Signature,
}

impl Clone for Transaction {
    fn clone(&self) -> (r: Self)
        ensures
            r == *self,
    {
        Transaction {
            hash: self.hash.clone(),
            sender: self.sender.clone(),
            data: self.data.clone(),
            amount: self.amount.clone(),
            timestamp: self.timestamp,
            gas: self.gas,
            nonce: self.nonce,
            signature: self.signature.clone(),
        }
    }
}

/// Whether two transactions hold equal fields.
pub open spec fn same_transaction(a: &Transaction, b: &Transaction) -> bool {
    &&& a.hash.0@ == b.hash.0@
    &&& same_address(&a.sender, &b.sender)
    &&& same_app_data(&a.data, &b.data)
    &&& same_token(&a.amount, &b.amount)
    &&& a.timestamp == b.timestamp
    &&& a.gas == b.gas
    &&& a.nonce == b.nonce
    &&& a.signature.0@ == b.signature.0@
}

impl PartialEq for Transaction {
    fn eq(&self, other: &Self) -> (r: bool) {
        self.hash == other.hash && self.sender == other.sender && self.data == other.data
            && self.amount == other.amount && self.timestamp == other.timestamp && self.gas
            == other.gas && self.nonce == other.nonce && self.signature == other.signature
    }
}

impl Eq for Transaction {}

impl vstd::std_specs::cmp::PartialEqSpecImpl for Transaction {
    open spec fn obeys_eq_spec() -> bool {
        true
    }

    open spec fn eq_spec(&self, other: &Transaction) -> bool {
        same_transaction(self, other)
    }
}

/// Relies on chrono's `Utc::now` and `DateTime::timestamp`: the current time in seconds since
/// the Unix epoch. Nothing is promised of the value.
#[verifier::external_body]
pub(crate) fn unix_time_now() -> u64 {
    chrono::Utc::now().timestamp() as u64
}

impl Transaction {
    /// Builds a transaction stamped with the current time.
    pub fn new(
        hash: crate::keys::Hash,
        sender: Address,
        data: AppData,
        amount: Token,
        gas: u64,
        nonce: u64,
        signature: Signature,
    ) -> (r: Transaction)
        ensures
            r.hash == hash,
            r.sender == sender,
            r.data == data,
            r.amount == amount,
            r.gas == gas,
            r.nonce == nonce,
            r.signature == signature,
    {
        Transaction {
            hash,
            sender,
            data,
            amount,
            timestamp: unix_time_now(),
            gas,
            nonce,
            signature,
        }
    }

    /// Whether the transaction meets the invariants a stored transaction keeps that need no
    /// collaborator to check: its fee budget and its amount are both positive.
    pub fn is_valid(&self) -> (r: bool)
        ensures
            r == (self.gas > 0 && self.amount.amount > 0),
    {
        self.gas > 0 && self.amount.amount > 0
    }
}

/// A transaction together with where it stands in its lifecycle: the unit the pending pool
/// holds.
#[derive(Debug)]
pub struct TransactionWithState {
    pub transaction: Transaction,
    pub state: TxState,
}

impl Clone for TransactionWithState {
    fn clone(&self) -> (r: Self)
        ensures
            r == *self,
    {
        TransactionWithState { transaction: self.transaction.clone(), state: self.state }
    }
}

impl TransactionWithState {
    /// Pairs a copy of `transaction` with `state`.
    pub fn new(transaction: &Transaction, state: TxState) -> (r: TransactionWithState)
        ensures
            r.transaction == *transaction,
            r.state == state,
    {
        TransactionWithState { transaction: transaction.clone(), state }
    }
}

} // verus!
