//! Point lookups: an account by address, a confirmed transaction by hash.
use crate::address::Address;
use crate::collaborators::{address_key, AccStorage, Interactor, TxStorage};
use crate::error::ApplicationError;
use crate::models::{Account, Transaction};
use vstd::prelude::*;

verus! {

/// A request for the account of an address.
#[derive(Debug)]
pub struct GetAccountRequest {
    pub address: Address,
}

/// Looks up accounts.
pub struct GetAccount<A> {
    pub acc_storage: A,
}

impl<A: AccStorage> Interactor<GetAccountRequest, Account> for GetAccount<A> {
    open spec fn wf(&self) -> bool {
        self.acc_storage.wf()
    }

    /// The stored account of the address, or `NotFound("Account not found")`.
    fn execute(&mut self, data: GetAccountRequest) -> (r: Result<Account, ApplicationError>)
        ensures
            *final(self) == *old(self),
            match r {
                Ok(acc) => old(self).acc_storage.accounts().contains_key(address_key(&data.address))
                    && acc == old(self).acc_storage.accounts()[address_key(&data.address)],
                Err(e) => !old(self).acc_storage.accounts().contains_key(
                    address_key(&data.address),
                ) && (e matches ApplicationError::NotFound(m) && m@ == "Account not found"@),
            },
    {
        match self.acc_storage.get(&data.address) {
            Some(acc) => Ok(acc),
            None => Err(ApplicationError::NotFound(String::from_str("Account not found"))),
        }
    }
}

/// A request for the confirmed transaction with a hash.
#[derive(Debug)]
pub struct GetTransactionByHashRequest {
    pub hash: crate::keys::Hash,
}

/// Looks up confirmed transactions.
pub struct GetTransactionByHash<T> {
    pub tx_storage: T,
}

impl<T: TxStorage> Interactor<GetTransactionByHashRequest, Transaction> for GetTransactionByHash<T> {
    open spec fn wf(&self) -> bool {
        self.tx_storage.wf()
    }

    /// The stored transaction with the hash, or `NotFound("Transaction not found")`.
    fn execute(&mut self, data: GetTransactionByHashRequest) -> (r: Result<
        Transaction,
        ApplicationError,
    >)
        ensures
            *final(self) == *old(self),
            match r {
                Ok(tx) => old(self).tx_storage.transactions().contains_key(data.hash.0@) && tx
                    == old(self).tx_storage.transactions()[data.hash.0@],
                Err(e) => !old(self).tx_storage.transactions().contains_key(data.hash.0@)
                    && (e matches ApplicationError::NotFound(m) && m@ == "Transaction not found"@),
            },
    {
        match self.tx_storage.get(&data.hash) {
            Some(tx) => Ok(tx),
            None => Err(ApplicationError::NotFound(String::from_str("Transaction not found"))),
        }
    }
}

} // verus!
