use lokichain::address::Address;
use lokichain::collaborators::{AccStorage, AppRouter, Hasher, MemPool, Signer, TxStorage};
use lokichain::hashing::{EchoSigner, SchnorrSigner, Sha256Hasher, TruncatingHasher};
use lokichain::keys::{SignKey, Signature, VerifyKey};
use lokichain::mempool::InMemoryMemPool;
use lokichain::models::{Account, AppData, Transaction, TransactionWithState, TxState};
use lokichain::routing::RouteTable;
use lokichain::stores::{InMemoryAccStorage, InMemoryTxStorage};
use lokichain::token::Token;

fn bank_router() -> RouteTable {
    let mut router = RouteTable::new();
    router.add("bank", "transfer");
    router
}

fn stub_transaction(hash: [u8; 32]) -> Transaction {
    Transaction::new(
        lokichain::keys::Hash(hash),
        Address { network: "lokichain".to_string(), vk: VerifyKey([0; 32]) },
        AppData { app: "bank".to_string(), operation: "transfer".to_string(), payload: "null".to_string() },
        Token { amount: 10, denom: "LOKI".to_string() },
        10,
        0,
        Signature([0u8; 64]),
    )
}

#[test]
fn acc_storage_test_acc_storage() {
    let mut storage = InMemoryAccStorage::new();

    let address = Address { network: "lokichain".to_string(), vk: VerifyKey([0; 32]) };

    let account = Account {
        address: address.clone(),
        nonce: 0,
        balance: Token { amount: 0, denom: "LOKI".to_string() },
    };

    storage.set(address.clone(), account.clone());
    let result = storage.get(&address).unwrap();
    assert_eq!(account, result);
}

#[test]
fn acc_storage_replaces_and_separates_accounts() {
    let mut storage = InMemoryAccStorage::new();
    let a = Address { network: "lokichain".to_string(), vk: VerifyKey([1; 32]) };
    let b = Address { network: "lokichain".to_string(), vk: VerifyKey([2; 32]) };
    let first = Account { address: a.clone(), nonce: 0, balance: Token { amount: 5, denom: "LOKI".to_string() } };
    let second = Account { address: a.clone(), nonce: 1, balance: Token { amount: 7, denom: "LOKI".to_string() } };
    storage.set(a.clone(), first);
    storage.set(a.clone(), second.clone());
    assert_eq!(storage.get(&a).unwrap(), second);
    assert!(storage.get(&b).is_none());
    let other_net = Address { network: "testnet".to_string(), vk: VerifyKey([1; 32]) };
    assert!(storage.get(&other_net).is_none());
}

#[test]
fn test_is_exist() {
    let router = bank_router();
    assert!(router.is_exist("bank", "transfer"));
    assert!(!router.is_exist("bank", "deposit"));
    assert!(!router.is_exist("wallet", "transfer"));
}

#[test]
fn test_hasher() {
    let hasher = TruncatingHasher;
    let value = "hello world";
    let hash = hasher.hash(value.as_bytes());
    assert!(hasher.verify(value.as_bytes(), &hash));
}

#[test]
fn truncating_hasher_pads_and_cuts() {
    let hash = TruncatingHasher.hash(b"ab");
    let mut expected = [0u8; 32];
    expected[0] = b'a';
    expected[1] = b'b';
    assert_eq!(hash, lokichain::keys::Hash(expected));
    let long = [9u8; 40];
    assert_eq!(TruncatingHasher.hash(&long), lokichain::keys::Hash([9; 32]));
    assert!(!TruncatingHasher.verify(b"ac", &hash));
}

#[test]
fn sha256_hasher_known_digests() {
    let empty = Sha256Hasher.hash(b"");
    assert_eq!(
        lokichain::block::to_hex(&empty.0),
        "e3b0c44298fc1c149afbf4c8996fb92427ae41e4649b934ca495991b7852b855"
    );
    let abc = Sha256Hasher.hash(b"abc");
    assert_eq!(
        lokichain::block::to_hex(&abc.0),
        "ba7816bf8f01cfea414140de5dae2223b00361a396177a9cb410ff61f20015ad"
    );
    assert!(Sha256Hasher.verify(b"abc", &abc));
    assert!(!Sha256Hasher.verify(b"abd", &abc));
}

#[test]
fn test_signer() {
    let signer = EchoSigner;
    let data = b"hello world";
    let sign_key = SignKey([0u8; 32]);
    let verify_key = VerifyKey([0u8; 32]);
    let signature = signer.sign(data, &sign_key);
    assert!(signer.verify(data, &signature, &verify_key));
}

#[test]
fn echo_signer_rejects_other_keys_and_data() {
    let signer = EchoSigner;
    let signature = signer.sign(b"payload", &SignKey([3; 32]));
    assert!(signer.verify(b"payload", &signature, &VerifyKey([3; 32])));
    assert!(!signer.verify(b"payload", &signature, &VerifyKey([4; 32])));
    assert!(!signer.verify(b"payloaD", &signature, &VerifyKey([3; 32])));
    assert_eq!(&signature.0[..7], b"payload");
    assert_eq!(&signature.0[32..], &[3u8; 32]);
}

#[test]
fn test_mempool() {
    let mut mempool = InMemoryMemPool::new();
    let hash = lokichain::keys::Hash([0u8; 32]);
    let transaction = stub_transaction([0u8; 32]);

    let state = TxState::PendingConfirmation;
    let transaction_with_state = TransactionWithState::new(&transaction, state);

    mempool.add(transaction_with_state.clone());
    assert_eq!(mempool.count(), 1);
    assert_eq!(mempool.get(&hash).unwrap().transaction.hash.clone(), hash.clone());
    mempool.release(1);
    assert_eq!(mempool.count(), 0);
}

#[test]
fn mempool_overwrites_same_hash_and_releases_in_insertion_order() {
    let mut mempool = InMemoryMemPool::new();
    mempool.add(TransactionWithState::new(&stub_transaction([1; 32]), TxState::PendingConfirmation));
    mempool.add(TransactionWithState::new(&stub_transaction([2; 32]), TxState::PendingConfirmation));
    mempool.add(TransactionWithState::new(&stub_transaction([3; 32]), TxState::PendingConfirmation));
    mempool.add(TransactionWithState::new(&stub_transaction([1; 32]), TxState::Confirmed));
    assert_eq!(mempool.count(), 3);
    assert_eq!(mempool.get(&lokichain::keys::Hash([1; 32])).unwrap().state, TxState::Confirmed);

    let released = mempool.release(2);
    assert_eq!(released.len(), 2);
    assert_eq!(released[0].transaction.hash, lokichain::keys::Hash([1; 32]));
    assert_eq!(released[1].transaction.hash, lokichain::keys::Hash([2; 32]));
    assert_eq!(mempool.count(), 1);
    assert!(mempool.get(&lokichain::keys::Hash([1; 32])).is_none());

    let rest = mempool.release(10);
    assert_eq!(rest.len(), 1);
    assert_eq!(rest[0].transaction.hash, lokichain::keys::Hash([3; 32]));
    assert_eq!(mempool.count(), 0);
    assert!(mempool.release(5).is_empty());
}

#[test]
fn tx_storage_test_acc_storage() {
    let mut storage = InMemoryTxStorage::new();

    let hash = lokichain::keys::Hash([0; 32]);

    let tx = Transaction::new(
        hash.clone(),
        Address { network: "lokichain".to_string(), vk: VerifyKey([1; 32]) },
        AppData { app: "bank".to_string(), operation: "transfer".to_string(), payload: "null".to_string() },
        Token { amount: 100, denom: "LOKI".to_string() },
        10,
        0,
        Signature([0; 64]),
    );
    storage.set(hash.clone(), tx);
    let result = storage.get(&hash).unwrap();
    assert_eq!(hash, result.hash);
}

#[test]
fn schnorr_signer_round_trip() {
    let sign_key = SignKey([1; 32]);
    let verify_key = SchnorrSigner::verify_key_of(&sign_key).unwrap();
    let message = [7u8; 32];
    let signature = SchnorrSigner.sign(&message, &sign_key);
    assert_ne!(signature, Signature([0; 64]));
    assert!(SchnorrSigner.verify(&message, &signature, &verify_key));
    let mut other = message;
    other[0] = 8;
    assert!(!SchnorrSigner.verify(&other, &signature, &verify_key));
    assert!(!SchnorrSigner.verify(&message[..31], &signature, &verify_key));
    let other_key = SchnorrSigner::verify_key_of(&SignKey([2; 32])).unwrap();
    assert!(!SchnorrSigner.verify(&message, &signature, &other_key));
}

#[test]
fn schnorr_signer_refuses_bad_input() {
    assert!(SchnorrSigner::verify_key_of(&SignKey([0; 32])).is_none());
    assert_eq!(SchnorrSigner.sign(&[7u8; 32], &SignKey([0; 32])), Signature([0; 64]));
    assert_eq!(SchnorrSigner.sign(b"short", &SignKey([1; 32])), Signature([0; 64]));
}

#[test]
fn transactions_compare_by_fields() {
    let a = stub_transaction([4; 32]);
    let mut b = a.clone();
    assert_eq!(a, b);
    b.nonce = 1;
    assert_ne!(a, b);
    let mut c = a.clone();
    c.data.payload = "{\"receiver\":\"addr\"}".to_string();
    assert_ne!(a, c);
    assert_ne!(a.data, c.data);
}
