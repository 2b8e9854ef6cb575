//! The admission pipeline: the ordered checks that decide whether a signed transaction may
//! enter the pending pool, and the insertion that follows when all of them pass.
use crate::address::Address;
use crate::codec::{bech32m_of, decimal, decimal_text, hrp_accepted, json_quote, json_string_of};
use crate::collaborators::{address_key, AccStorage, AppRouter, Hasher, Interactor, MemPool, Signer};
use crate::error::{ApplicationError, ErrorMap};
use crate::keys::Signature;
use crate::models::{Account, AppData, Transaction, TransactionWithState, TxState};
use crate::token::Token;
use vstd::prelude::*;
use vstd::utf8::encode_utf8;

verus! {

/// The signed part of a transaction request.
#[derive(Debug)]
pub struct TxBody {
    pub sender: Address,
    pub data: AppData,
    pub amount: Token,
    pub gas: u64,
    pub nonce: u64,
}

/// A request to admit a transaction: its body, the hash claimed for the body, and the
/// sender's signature over that hash.
#[derive(Debug)]
pub struct CreateTransactionRequest {
    pub body: TxBody,
    pub hash: crate::keys::Hash,
    pub signature: Signature,
}

/// What a successful admission returns: the admitted transaction's hash.
#[derive(Debug)]
pub struct CreateTransactionResult {
    pub hash: crate::keys::Hash,
}

/// The canonical JSON text of a body, given the text form of its sender: the fields in
/// declaration order, with no whitespace, the payload as its own JSON text.
pub open spec fn body_json(sender_text: Seq<char>, body: &TxBody) -> Seq<char> {
    "{\"sender\":"@ + json_string_of(sender_text) + ",\"data\":{\"app\":"@ + json_string_of(
        body.data.app@,
    ) + ",\"operation\":"@ + json_string_of(body.data.operation@) + ",\"payload\":"@
        + body.data.payload@ + "},\"amount\":{\"amount\":"@ + decimal(body.amount.amount as nat)
        + ",\"denom\":"@ + json_string_of(body.amount.denom@) + "},\"gas\":"@ + decimal(
        body.gas as nat,
    ) + ",\"nonce\":"@ + decimal(body.nonce as nat) + "}"@
}

/// The bytes that a body's hash covers: the UTF-8 bytes of its canonical JSON text, or `None`
/// when the sender's network tag has no text form.
pub open spec fn body_bytes(body: &TxBody) -> Option<Seq<u8>> {
    if hrp_accepted(body.sender.network@) {
        Some(
            encode_utf8(
                body_json(bech32m_of(body.sender.network@, body.sender.vk.0@), body),
            ),
        )
    } else {
        None
    }
}

impl TxBody {
    /// The canonical JSON text of the body; `None` when the sender's network tag has no text
    /// form.
    pub fn canonical_json(&self) -> (r: Option<String>)
        ensures
            r.is_some() == hrp_accepted(self.sender.network@),
            r.is_some() ==> r.unwrap()@ == body_json(
                bech32m_of(self.sender.network@, self.sender.vk.0@),
                self,
            ),
    {
        let sender = match self.sender.encode() {
            Some(s) => s,
            None => return None,
        };
        let mut out = String::from_str("{\"sender\":");
        out.append(json_quote(sender.as_str()).as_str());
        out.append(",\"data\":{\"app\":");
        out.append(json_quote(self.data.app.as_str()).as_str());
        out.append(",\"operation\":");
        out.append(json_quote(self.data.operation.as_str()).as_str());
        out.append(",\"payload\":");
        out.append(self.data.payload.as_str());
        out.append("},\"amount\":{\"amount\":");
        out.append(decimal_text(self.amount.amount).as_str());
        out.append(",\"denom\":");
        out.append(json_quote(self.amount.denom.as_str()).as_str());
        out.append("},\"gas\":");
        out.append(decimal_text(self.gas).as_str());
        out.append(",\"nonce\":");
        out.append(decimal_text(self.nonce).as_str());
        out.append("}");
        Some(out)
    }
}

/// The first check that fails, as (field, reason), given what each check found; `None` when
/// all pass. The checks run in this order: the hash, the signature, the route, the pool (no
/// entry with the hash), the gas, the amount, then the sender's account (it exists, holds the
/// same denomination, and at least the amount).
pub open spec fn verdict(
    hash_ok: bool,
    signature_ok: bool,
    route_ok: bool,
    pooled: bool,
    body: &TxBody,
    account: Option<Account>,
) -> Option<(Seq<char>, Seq<char>)> {
    if !hash_ok {
        Some(("hash"@, "hash is not valid"@))
    } else if !signature_ok {
        Some(("signature"@, "signature is not valid"@))
    } else if !route_ok {
        Some(("body.data"@, "is not valid"@))
    } else if pooled {
        Some(("hash"@, "tx is already exist"@))
    } else if body.gas == 0 {
        Some(("body.gas"@, "gas must be greater than 0"@))
    } else if body.amount.amount == 0 {
        Some(("body.amount"@, "amount must be greater than 0"@))
    } else {
        match account {
            None => Some(("body.sender"@, "you dont have coins"@)),
            Some(acc) => if acc.balance.denom@ != body.amount.denom@ {
                Some(("body.amount"@, "denom is not valid"@))
            } else if acc.balance.amount < body.amount.amount {
                Some(("body.sender"@, "you dont have coins"@))
            } else {
                None
            },
        }
    }
}

/// Whether `e` is the pool entry that admitting `req` creates: the request's fields, stamped
/// with some time, waiting for confirmation.
pub open spec fn admitted_entry(req: &CreateTransactionRequest, e: TransactionWithState) -> bool {
    &&& e.state == TxState::PendingConfirmation
    &&& e.transaction.hash == req.hash
    &&& e.transaction.sender == req.body.sender
    &&& e.transaction.data == req.body.data
    &&& e.transaction.amount == req.body.amount
    &&& e.transaction.gas == req.body.gas
    &&& e.transaction.nonce == req.body.nonce
    &&& e.transaction.signature == req.signature
}

/// What one admission attempt did, given the pool before and after it and the first failing
/// check: on a rejection, an invalid-data error naming that one field and an unchanged pool;
/// otherwise the request's hash, and the pool with one entry added for it.
pub open spec fn admission_outcome(
    before: Map<Seq<u8>, TransactionWithState>,
    rejection: Option<(Seq<char>, Seq<char>)>,
    req: &CreateTransactionRequest,
    r: &Result<CreateTransactionResult, ApplicationError>,
    after: Map<Seq<u8>, TransactionWithState>,
) -> bool {
    match rejection {
        Some(fr) => {
            &&& r matches Err(ApplicationError::InvalidData(m)) && m@ == seq![fr]
            &&& after == before
        },
        None => {
            &&& r matches Ok(res) && res.hash == req.hash
            &&& after.contains_key(req.hash.0@)
            &&& admitted_entry(req, after[req.hash.0@])
            &&& after == before.insert(req.hash.0@, after[req.hash.0@])
        },
    }
}

/// The admission use case, over its collaborators.
pub struct CreateTransaction<H, M, R, S, A> {
    pub hasher: H,
    pub mem_pool: M,
    pub app_router: R,
    pub signer: S,
    pub acc_storage: A,
}

impl<H: Hasher, M: MemPool, R: AppRouter, S: Signer, A: AccStorage> CreateTransaction<H, M, R, S, A> {
    /// The account stored for `sender`, if any.
    pub open spec fn account_for(&self, sender: &Address) -> Option<Account> {
        if self.acc_storage.accounts().contains_key(address_key(sender)) {
            Some(self.acc_storage.accounts()[address_key(sender)])
        } else {
            None
        }
    }

    /// Whether the hash claimed in `req` is the hash of its body's canonical bytes.
    pub open spec fn hash_ok(&self, req: &CreateTransactionRequest) -> bool {
        body_bytes(&req.body) matches Some(b) && self.hasher.hash_of(b) == req.hash.0@
    }

    /// Whether the signature in `req` is valid for its claimed hash under the sender's key.
    pub open spec fn signature_ok(&self, req: &CreateTransactionRequest) -> bool {
        self.signer.accepts(req.hash.0@, req.signature.0@, req.body.sender.vk.0@)
    }

    /// Whether the application and operation that `req` names are a known destination.
    pub open spec fn route_ok(&self, req: &CreateTransactionRequest) -> bool {
        self.app_router.routes(req.body.data.app@, req.body.data.operation@)
    }

    /// Whether the pool already holds an entry with the hash claimed in `req`.
    pub open spec fn pooled(&self, req: &CreateTransactionRequest) -> bool {
        self.mem_pool.entries().contains_key(req.hash.0@)
    }

    /// The first check that `req` fails against the collaborators as they are; `None` when it
    /// passes all of them.
    pub open spec fn rejection(&self, req: &CreateTransactionRequest) -> Option<(Seq<char>, Seq<char>)> {
        verdict(
            self.hash_ok(req),
            self.signature_ok(req),
            self.route_ok(req),
            self.pooled(req),
            &req.body,
            self.account_for(&req.body.sender),
        )
    }
}

fn invalid(field: &str, reason: &str) -> (r: Result<CreateTransactionResult, ApplicationError>)
    ensures
        r matches Err(ApplicationError::InvalidData(m)) && m@ == seq![(field@, reason@)],
{
    Err(ApplicationError::InvalidData(ErrorMap::single(field, reason)))
}

impl<H: Hasher, M: MemPool, R: AppRouter, S: Signer, A: AccStorage> Interactor<
    CreateTransactionRequest,
    CreateTransactionResult,
> for CreateTransaction<H, M, R, S, A> {
    open spec fn wf(&self) -> bool {
        self.mem_pool.wf() && self.acc_storage.wf()
    }

    /// Admits `data` into the pending pool when it passes every check, in order; otherwise
    /// rejects it, naming the first field that fails, and leaves the pool as it was. Only the
    /// pool changes.
    fn execute(&mut self, data: CreateTransactionRequest) -> (r: Result<
        CreateTransactionResult,
        ApplicationError,
    >)
        ensures
            final(self).hasher == old(self).hasher,
            final(self).app_router == old(self).app_router,
            final(self).signer == old(self).signer,
            final(self).acc_storage == old(self).acc_storage,
            admission_outcome(
                old(self).mem_pool.entries(),
                old(self).rejection(&data),
                &data,
                &r,
                final(self).mem_pool.entries(),
            ),
    {
        let hash_ok = match data.body.canonical_json() {
            Some(text) => {
                let computed = self.hasher.hash(text.as_str().as_bytes());
                computed == data.hash
            },
            None => false,
        };
        if !hash_ok {
            return invalid("hash", "hash is not valid");
        }
        if !self.signer.verify(data.hash.0.as_slice(), &data.signature, &data.body.sender.vk) {
            return invalid("signature", "signature is not valid");
        }
        if !self.app_router.is_exist(data.body.data.app.as_str(), data.body.data.operation.as_str()) {
            return invalid("body.data", "is not valid");
        }
        if self.mem_pool.get(&data.hash).is_some() {
            return invalid("hash", "tx is already exist");
        }
        if data.body.gas == 0 {
            return invalid("body.gas", "gas must be greater than 0");
        }
        if data.body.amount.amount == 0 {
            return invalid("body.amount", "amount must be greater than 0");
        }
        match self.acc_storage.get(&data.body.sender) {
            None => {
                return invalid("body.sender", "you dont have coins");
            },
            Some(acc) => {
                if !(acc.balance.denom == data.body.amount.denom) {
                    return invalid("body.amount", "denom is not valid");
                }
                if acc.balance.amount < data.body.amount.amount {
                    return invalid("body.sender", "you dont have coins");
                }
            },
        }
        let hash = data.hash.clone();
        let transaction = Transaction::new(
            data.hash,
            data.body.sender,
            data.body.data,
            data.body.amount,
            data.body.gas,
            data.body.nonce,
            data.signature,
        );
        let entry = TransactionWithState::new(&transaction, TxState::PendingConfirmation);
        self.mem_pool.add(entry);
        Ok(CreateTransactionResult { hash })
    }
}


/// A request that passes every check is admitted: the call returns the request's hash, and
/// afterwards the pool holds an entry for that hash, waiting for confirmation, and otherwise
/// what it held before.
pub proof fn lemma_valid_request_admitted<H: Hasher, M: MemPool, R: AppRouter, S: Signer, A: AccStorage>(
    p: CreateTransaction<H, M, R, S, A>,
    req: CreateTransactionRequest,
    r: Result<CreateTransactionResult, ApplicationError>,
    after: Map<Seq<u8>, TransactionWithState>,
)
    requires
        p.hash_ok(&req),
        p.signature_ok(&req),
        p.route_ok(&req),
        !p.pooled(&req),
        req.body.gas > 0,
        req.body.amount.amount > 0,
        p.account_for(&req.body.sender) matches Some(acc) && acc.balance.denom@
            == req.body.amount.denom@ && acc.balance.amount >= req.body.amount.amount,
        admission_outcome(p.mem_pool.entries(), p.rejection(&req), &req, &r, after),
    ensures
        r matches Ok(res) && res.hash == req.hash,
        after.contains_key(req.hash.0@),
        after[req.hash.0@].state == TxState::PendingConfirmation,
        after.remove(req.hash.0@) == p.mem_pool.entries(),
{
    assert(after.remove(req.hash.0@) =~= p.mem_pool.entries());
}

/// A request whose claimed hash is not the hash of its body is rejected on the field `hash`,
/// and the pool is left as it was.
pub proof fn lemma_wrong_hash_rejected<H: Hasher, M: MemPool, R: AppRouter, S: Signer, A: AccStorage>(
    p: CreateTransaction<H, M, R, S, A>,
    req: CreateTransactionRequest,
    r: Result<CreateTransactionResult, ApplicationError>,
    after: Map<Seq<u8>, TransactionWithState>,
)
    requires
        !p.hash_ok(&req),
        admission_outcome(p.mem_pool.entries(), p.rejection(&req), &req, &r, after),
    ensures
        r matches Err(ApplicationError::InvalidData(m)) && m@ == seq![
            ("hash"@, "hash is not valid"@),
        ],
        after == p.mem_pool.entries(),
{
}

/// Admitting the same request twice, one attempt after the other with the same collaborators
/// (attempts cannot overlap: each holds the pipeline exclusively), admits it once: after a
/// first attempt succeeds, the second is rejected on the field `hash` as already pooled, and
/// leaves the pool as the first left it.
pub proof fn lemma_resubmission_rejected<H: Hasher, M: MemPool, R: AppRouter, S: Signer, A: AccStorage>(
    first: CreateTransaction<H, M, R, S, A>,
    second: CreateTransaction<H, M, R, S, A>,
    req: CreateTransactionRequest,
    r1: Result<CreateTransactionResult, ApplicationError>,
    after1: Map<Seq<u8>, TransactionWithState>,
    r2: Result<CreateTransactionResult, ApplicationError>,
    after2: Map<Seq<u8>, TransactionWithState>,
)
    requires
        admission_outcome(first.mem_pool.entries(), first.rejection(&req), &req, &r1, after1),
        r1 is Ok,
        second.hasher == first.hasher,
        second.signer == first.signer,
        second.app_router == first.app_router,
        second.acc_storage == first.acc_storage,
        second.mem_pool.entries() == after1,
        admission_outcome(second.mem_pool.entries(), second.rejection(&req), &req, &r2, after2),
    ensures
        r2 matches Err(ApplicationError::InvalidData(m)) && m@ == seq![
            ("hash"@, "tx is already exist"@),
        ],
        after2 == after1,
{
}

/// Once the hash, the signature, the route and the pool check pass, the remaining checks
/// name their fields: a zero gas budget `body.gas`; a zero amount `body.amount`; a sender
/// without an account `body.sender`; a balance of another denomination `body.amount`; a
/// balance of the same denomination below the amount `body.sender`.
pub proof fn lemma_field_checks<H: Hasher, M: MemPool, R: AppRouter, S: Signer, A: AccStorage>(
    p: CreateTransaction<H, M, R, S, A>,
    req: CreateTransactionRequest,
)
    requires
        p.hash_ok(&req),
        p.signature_ok(&req),
        p.route_ok(&req),
        !p.pooled(&req),
    ensures
        req.body.gas == 0 ==> p.rejection(&req) == Some(
            ("body.gas"@, "gas must be greater than 0"@),
        ),
        req.body.gas > 0 && req.body.amount.amount == 0 ==> p.rejection(&req) == Some(
            ("body.amount"@, "amount must be greater than 0"@),
        ),
        req.body.gas > 0 && req.body.amount.amount > 0 && p.account_for(&req.body.sender) is None
            ==> p.rejection(&req) == Some(("body.sender"@, "you dont have coins"@)),
        req.body.gas > 0 && req.body.amount.amount > 0 && p.account_for(&req.body.sender) is Some
            && p.account_for(&req.body.sender).unwrap().balance.denom@ != req.body.amount.denom@
            ==> p.rejection(&req) == Some(
            ("body.amount"@, "denom is not valid"@),
        ),
        req.body.gas > 0 && req.body.amount.amount > 0 && p.account_for(&req.body.sender) is Some
            && p.account_for(&req.body.sender).unwrap().balance.denom@ == req.body.amount.denom@
            && p.account_for(&req.body.sender).unwrap().balance.amount < req.body.amount.amount
            ==> p.rejection(&req) == Some(
            ("body.sender"@, "you dont have coins"@),
        ),
{
}

/// A request whose hash and signature check out but which names an unknown (application,
/// operation) pair is rejected on the field `body.data`.
pub proof fn lemma_unknown_route_rejected<H: Hasher, M: MemPool, R: AppRouter, S: Signer, A: AccStorage>(
    p: CreateTransaction<H, M, R, S, A>,
    req: CreateTransactionRequest,
)
    requires
        p.hash_ok(&req),
        p.signature_ok(&req),
        !p.route_ok(&req),
    ensures
        p.rejection(&req) == Some(("body.data"@, "is not valid"@)),
{
}

} // verus!
