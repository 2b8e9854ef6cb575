use lokichain::address::Address;
use lokichain::admission::{CreateTransaction, CreateTransactionRequest, TxBody};
use lokichain::collaborators::{AccStorage, Hasher, Interactor, MemPool, Signer};
use lokichain::error::ApplicationError;
use lokichain::hashing::{EchoSigner, SchnorrSigner, Sha256Hasher, TruncatingHasher};
use lokichain::keys::{SignKey, Signature, VerifyKey};
use lokichain::mempool::InMemoryMemPool;
use lokichain::models::{Account, AppData, Transaction, TransactionWithState, TxState};
use lokichain::routing::RouteTable;
use lokichain::stores::InMemoryAccStorage;
use lokichain::token::Token;

type Pipeline<H> = CreateTransaction<H, InMemoryMemPool, RouteTable, EchoSigner, InMemoryAccStorage>;

fn pipeline<H>(hasher: H) -> Pipeline<H> {
    let mut router = RouteTable::new();
    router.add("bank", "transfer");
    CreateTransaction {
        hasher,
        mem_pool: InMemoryMemPool::new(),
        app_router: router,
        signer: EchoSigner,
        acc_storage: InMemoryAccStorage::new(),
    }
}

fn sender() -> Address {
    Address { network: "lokichain".to_string(), vk: VerifyKey([1; 32]) }
}

fn fund<H>(interactor: &mut Pipeline<H>, amount: u64, denom: &str) {
    let address = sender();
    interactor.acc_storage.set(
        address.clone(),
        Account { address: address.clone(), nonce: 0, balance: Token { amount, denom: denom.to_string() } },
    );
}

fn request(amount: u64, denom: &str, gas: u64, app: &str, operation: &str) -> CreateTransactionRequest {
    CreateTransactionRequest {
        body: TxBody {
            sender: sender(),
            amount: Token { amount, denom: denom.to_string() },
            gas,
            nonce: 0,
            data: AppData { app: app.to_string(), operation: operation.to_string(), payload: "null".to_string() },
        },
        hash: lokichain::keys::Hash([0; 32]),
        signature: Signature([0; 64]),
    }
}

fn seal<H: Hasher>(hasher: &H, transaction: &mut CreateTransactionRequest) {
    let text = transaction.body.canonical_json().unwrap();
    transaction.hash = hasher.hash(text.as_bytes());
    transaction.signature = EchoSigner.sign(&transaction.hash.0, &SignKey([1; 32]));
}

fn rejected_field(result: &Result<lokichain::admission::CreateTransactionResult, ApplicationError>, field: &str) -> String {
    match result {
        Err(ApplicationError::InvalidData(errors)) => {
            assert_eq!(errors.len(), 1);
            errors.get(field).unwrap().clone()
        }
        _ => panic!("expected an invalid-data error"),
    }
}

#[test]
fn test_create_transaction_ok() {
    let mut interactor = pipeline(TruncatingHasher);
    fund(&mut interactor, 100, "LOKI");
    let mut transaction = request(10, "LOKI", 10, "bank", "transfer");
    seal(&TruncatingHasher, &mut transaction);

    let result = interactor.execute(transaction);
    assert!(result.is_ok());
}

#[test]
fn test_create_transaction_invalid_hash() {
    let mut interactor = pipeline(TruncatingHasher);
    fund(&mut interactor, 100, "LOKI");
    let mut transaction = request(10, "LOKI", 10, "bank", "transfer");
    seal(&TruncatingHasher, &mut transaction);
    transaction.hash = lokichain::keys::Hash([1; 32]);

    let result = interactor.execute(transaction);
    assert!(result.is_err());

    if let Err(ApplicationError::InvalidData(ref errors)) = result {
        assert_eq!(errors.get("hash").unwrap(), "hash is not valid");
    }
    assert_eq!(interactor.mem_pool.count(), 0);
}

#[test]
fn test_create_transaction_invalid_signature() {
    let mut interactor = pipeline(TruncatingHasher);
    fund(&mut interactor, 100, "LOKI");
    let mut transaction = request(10, "LOKI", 10, "bank", "transfer");
    seal(&TruncatingHasher, &mut transaction);
    transaction.signature = Signature([1; 64]);

    let result = interactor.execute(transaction);
    assert!(result.is_err());

    if let Err(ApplicationError::InvalidData(ref errors)) = result {
        assert_eq!(errors.get("signature").unwrap(), "signature is not valid");
    }
}

#[test]
fn test_is_exist_condition() {
    let mut interactor = pipeline(TruncatingHasher);
    fund(&mut interactor, 100, "LOKI");
    let transaction = request(10, "LOKI", 10, "test_app", "test_op");

    let result = interactor.execute(transaction);
    assert!(result.is_err(), "AppRouter should confirm that app and operation exist");
}

#[test]
fn test_exist_transaction_mempool() {
    let mut interactor = pipeline(TruncatingHasher);
    fund(&mut interactor, 100, "LOKI");
    let mut transaction = request(10, "LOKI", 10, "bank", "transfer");
    seal(&TruncatingHasher, &mut transaction);

    let created_transaction = Transaction::new(
        transaction.hash.clone(),
        transaction.body.sender.clone(),
        transaction.body.data.clone(),
        transaction.body.amount.clone(),
        transaction.body.gas,
        transaction.body.nonce,
        transaction.signature.clone(),
    );
    let transaction_with_state = TransactionWithState::new(&created_transaction, TxState::Confirmed);
    interactor.mem_pool.add(transaction_with_state);

    let result = interactor.execute(transaction);
    assert!(result.is_err());
    assert_eq!(rejected_field(&result, "hash"), "tx is already exist");
}

#[test]
fn test_gas() {
    let mut interactor = pipeline(TruncatingHasher);
    fund(&mut interactor, 100, "LOKI");
    let mut transaction = request(10, "LOKI", 0, "bank", "transfer");
    seal(&TruncatingHasher, &mut transaction);

    let result = interactor.execute(transaction);
    assert!(result.is_err());
}

#[test]
fn test_amount_value() {
    let mut interactor = pipeline(TruncatingHasher);
    fund(&mut interactor, 100, "LOKI");
    let mut transaction = request(0, "LOKI", 10, "bank", "transfer");
    seal(&TruncatingHasher, &mut transaction);

    let result = interactor.execute(transaction);
    assert!(result.is_err());
}

#[test]
fn test_insufficient_balance() {
    let mut interactor = pipeline(TruncatingHasher);
    fund(&mut interactor, 10, "LOKI");
    let mut transaction = request(100, "LOKI", 10, "bank", "transfer");
    seal(&TruncatingHasher, &mut transaction);

    let result = interactor.execute(transaction);
    assert!(result.is_err());
}

#[test]
fn test_invalid_denom() {
    let mut interactor = pipeline(TruncatingHasher);
    fund(&mut interactor, 100, "LOKI");
    let mut transaction = request(10, "Bitcoin", 10, "bank", "transfer");
    seal(&TruncatingHasher, &mut transaction);

    let result = interactor.execute(transaction);
    assert!(result.is_err());
}

#[test]
fn test_account_not_found() {
    let mut interactor = pipeline(TruncatingHasher);
    let mut transaction = request(10, "LOKI", 10, "bank", "transfer");
    seal(&TruncatingHasher, &mut transaction);

    let result = interactor.execute(transaction);
    assert!(result.is_err());
}

#[test]
fn admitted_then_resubmitted_scenario() {
    let mut interactor = pipeline(Sha256Hasher);
    fund(&mut interactor, 100, "LOKI");
    let mut transaction = request(10, "LOKI", 10, "bank", "transfer");
    seal(&Sha256Hasher, &mut transaction);
    let hash = transaction.hash.clone();
    let mut again = request(10, "LOKI", 10, "bank", "transfer");
    again.hash = transaction.hash.clone();
    again.signature = transaction.signature.clone();

    let result = interactor.execute(transaction);
    assert_eq!(result.unwrap().hash, hash);
    assert_eq!(interactor.mem_pool.count(), 1);
    let entry = interactor.mem_pool.get(&hash).unwrap();
    assert_eq!(entry.state, TxState::PendingConfirmation);
    assert_eq!(entry.transaction.amount, Token { amount: 10, denom: "LOKI".to_string() });
    assert_eq!(entry.transaction.gas, 10);
    assert_eq!(entry.transaction.sender, sender());

    let second = interactor.execute(again);
    assert_eq!(rejected_field(&second, "hash"), "tx is already exist");
    assert_eq!(interactor.mem_pool.count(), 1);
}

#[test]
fn each_failed_check_names_its_field() {
    let cases: [(u64, &str, u64, &str, &str, &str); 5] = [
        (10, "LOKI", 0, "bank", "transfer", "body.gas"),
        (0, "LOKI", 10, "bank", "transfer", "body.amount"),
        (1000, "LOKI", 10, "bank", "transfer", "body.sender"),
        (10, "USDT", 10, "bank", "transfer", "body.amount"),
        (10, "LOKI", 10, "bank", "deposit", "body.data"),
    ];
    let reasons = [
        "gas must be greater than 0",
        "amount must be greater than 0",
        "you dont have coins",
        "denom is not valid",
        "is not valid",
    ];
    for (i, (amount, denom, gas, app, op, field)) in cases.iter().enumerate() {
        let mut interactor = pipeline(Sha256Hasher);
        fund(&mut interactor, 100, "LOKI");
        let mut transaction = request(*amount, denom, *gas, app, op);
        seal(&Sha256Hasher, &mut transaction);
        let result = interactor.execute(transaction);
        assert_eq!(rejected_field(&result, field), reasons[i]);
        assert_eq!(interactor.mem_pool.count(), 0);
    }
}

#[test]
fn unknown_sender_is_rejected() {
    let mut interactor = pipeline(Sha256Hasher);
    let mut transaction = request(10, "LOKI", 10, "bank", "transfer");
    seal(&Sha256Hasher, &mut transaction);
    let result = interactor.execute(transaction);
    assert_eq!(rejected_field(&result, "body.sender"), "you dont have coins");
}

#[test]
fn denomination_mismatch_is_reported_before_balance() {
    let mut interactor = pipeline(Sha256Hasher);
    fund(&mut interactor, 5, "LOKI");
    let mut transaction = request(10, "USDT", 10, "bank", "transfer");
    seal(&Sha256Hasher, &mut transaction);
    let result = interactor.execute(transaction);
    assert_eq!(rejected_field(&result, "body.amount"), "denom is not valid");
}

#[test]
fn wrong_hash_is_checked_first() {
    let mut interactor = pipeline(Sha256Hasher);
    let mut transaction = request(0, "LOKI", 0, "nowhere", "nothing");
    seal(&Sha256Hasher, &mut transaction);
    transaction.hash.0[0] ^= 1;
    let result = interactor.execute(transaction);
    assert_eq!(rejected_field(&result, "hash"), "hash is not valid");
}

#[test]
fn unencodable_sender_fails_the_hash_check() {
    let mut interactor = pipeline(Sha256Hasher);
    let mut transaction = request(10, "LOKI", 10, "bank", "transfer");
    transaction.body.sender.network = "Bad Net".to_string();
    assert!(transaction.body.canonical_json().is_none());
    let result = interactor.execute(transaction);
    assert_eq!(rejected_field(&result, "hash"), "hash is not valid");
}

#[test]
fn canonical_json_layout() {
    let transaction = request(10, "LOKI", 7, "bank", "transfer");
    let text = transaction.body.canonical_json().unwrap();
    let sender = sender().encode().unwrap();
    assert_eq!(
        text,
        format!(
            "{{\"sender\":\"{}\",\"data\":{{\"app\":\"bank\",\"operation\":\"transfer\",\"payload\":null}},\"amount\":{{\"amount\":10,\"denom\":\"LOKI\"}},\"gas\":7,\"nonce\":0}}",
            sender
        )
    );
    let mut quoted = request(1, "a\"b", 1, "x\\y", "t");
    quoted.body.nonce = 18446744073709551615;
    let text = quoted.body.canonical_json().unwrap();
    assert!(text.contains("\"app\":\"x\\\\y\""));
    assert!(text.contains("\"denom\":\"a\\\"b\""));
    assert!(text.ends_with("\"nonce\":18446744073709551615}"));
}

#[test]
fn production_collaborators_admit_a_signed_request() {
    let sign_key = SignKey([5; 32]);
    let address = Address { network: "lokichain".to_string(), vk: SchnorrSigner::verify_key_of(&sign_key).unwrap() };
    let mut router = RouteTable::new();
    router.add("bank", "transfer");
    let mut interactor = CreateTransaction {
        hasher: Sha256Hasher,
        mem_pool: InMemoryMemPool::new(),
        app_router: router,
        signer: SchnorrSigner,
        acc_storage: InMemoryAccStorage::new(),
    };
    interactor.acc_storage.set(
        address.clone(),
        Account { address: address.clone(), nonce: 0, balance: Token { amount: 100, denom: "LOKI".to_string() } },
    );
    let mut transaction = request(10, "LOKI", 10, "bank", "transfer");
    transaction.body.sender = address;
    let text = transaction.body.canonical_json().unwrap();
    transaction.hash = Sha256Hasher.hash(text.as_bytes());
    transaction.signature = SchnorrSigner.sign(&transaction.hash.0, &sign_key);
    let forged = Signature(transaction.signature.0.map(|b| b ^ 1));
    let hash = transaction.hash.clone();

    let result = interactor.execute(transaction);
    assert_eq!(result.unwrap().hash, hash);
    assert_eq!(interactor.mem_pool.count(), 1);

    let mut tampered = request(10, "LOKI", 10, "bank", "transfer");
    tampered.body.sender = Address { network: "lokichain".to_string(), vk: SchnorrSigner::verify_key_of(&sign_key).unwrap() };
    tampered.body.nonce = 1;
    let text = tampered.body.canonical_json().unwrap();
    tampered.hash = Sha256Hasher.hash(text.as_bytes());
    tampered.signature = forged;
    let result = interactor.execute(tampered);
    assert_eq!(rejected_field(&result, "signature"), "signature is not valid");
}
