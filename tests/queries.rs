use lokichain::address::Address;
use lokichain::collaborators::{AccStorage, Interactor, TxStorage};
use lokichain::error::ApplicationError;
use lokichain::keys::{Signature, VerifyKey};
use lokichain::models::{Account, AppData, Transaction};
use lokichain::queries::{GetAccount, GetAccountRequest, GetTransactionByHash, GetTransactionByHashRequest};
use lokichain::stores::{InMemoryAccStorage, InMemoryTxStorage};
use lokichain::token::Token;

fn make_transaction_stub() -> Transaction {
    Transaction::new(
        lokichain::keys::Hash([0; 32]),
        Address { network: "lokichain".to_string(), vk: VerifyKey([1; 32]) },
        AppData { app: "bank".to_string(), operation: "transfer".to_string(), payload: "null".to_string() },
        Token { amount: 100, denom: "LOKI".to_string() },
        10,
        0,
        Signature([0; 64]),
    )
}

#[test]
fn test_get_account_ok() {
    let mut acc_storage = InMemoryAccStorage::new();
    let address = Address { network: "lokichain".to_string(), vk: VerifyKey([1; 32]) };
    let account = Account {
        address: address.clone(),
        nonce: 1,
        balance: Token { amount: 100, denom: "LOKI".to_string() },
    };
    acc_storage.set(address.clone(), account.clone());

    let mut interactor = GetAccount { acc_storage };
    let result = interactor.execute(GetAccountRequest { address });
    assert!(result.is_ok());
    assert_eq!(result.unwrap(), account);
}

#[test]
fn test_get_account_acc_not_found() {
    let address = Address { network: "lokichain".to_string(), vk: VerifyKey([1; 32]) };

    let mut interactor = GetAccount { acc_storage: InMemoryAccStorage::new() };
    let result = interactor.execute(GetAccountRequest { address });
    assert!(result.is_err());
    assert!(match result.err().unwrap() {
        ApplicationError::NotFound(msg) => msg == "Account not found",
        _ => panic!("Unexpected error"),
    });
}

#[test]
fn test_get_transaction_by_hash_ok() {
    let mut tx_storage = InMemoryTxStorage::new();
    let tx = make_transaction_stub();
    tx_storage.set(tx.hash.clone(), tx.clone());

    let mut interactor = GetTransactionByHash { tx_storage };
    let request = GetTransactionByHashRequest { hash: tx.hash.clone() };
    let result = interactor.execute(request);
    assert!(result.is_ok());
    assert_eq!(result.unwrap().hash, tx.hash);
}

#[test]
fn test_get_transaction_by_hash_not_found() {
    let mut interactor = GetTransactionByHash { tx_storage: InMemoryTxStorage::new() };
    let request = GetTransactionByHashRequest { hash: lokichain::keys::Hash([1; 32]) };
    let result = interactor.execute(request);
    assert!(result.is_err());
    assert!(match result.err().unwrap() {
        ApplicationError::NotFound(msg) => msg == "Transaction not found",
        _ => panic!("Unexpected error"),
    });
}
