//! Hashers and signers: SHA-256 for production, and simple deterministic stand-ins for tests.
use crate::collaborators::{Hasher, Signer};
use crate::keys::{SignKey, Signature, VerifyKey};
use secp256k1::{schnorr, Keypair, Message, Secp256k1, XOnlyPublicKey};
use sha2::Digest;
use vstd::prelude::*;

verus! {

/// The SHA-256 digest of a byte sequence.
pub uninterp spec fn sha256_of(bytes: Seq<u8>) -> Seq<u8>;

/// Relies on sha2's `Sha256::digest`: the 32-byte SHA-256 digest of the bytes, which depends on
/// the bytes alone.
#[verifier::external_body]
pub(crate) fn sha256(bytes: &[u8]) -> (r: [u8; 32])
    ensures
        r@ == sha256_of(bytes@),
{
    sha2::Sha256::digest(bytes).into()
}

/// Hashes with SHA-256.
pub struct Sha256Hasher;

impl Hasher for Sha256Hasher {
    open spec fn hash_of(&self, value: Seq<u8>) -> Seq<u8> {
        sha256_of(value)
    }

    fn hash(&self, value: &[u8]) -> (r: crate::keys::Hash) {
        crate::keys::Hash(sha256(value))
    }

    fn verify(&self, value: &[u8], hash: &crate::keys::Hash) -> (r: bool) {
        let h = crate::keys::Hash(sha256(value));
        h == *hash
    }
}

/// The first 32 bytes of `value`, padded with zero bytes when it is shorter.
pub open spec fn first_32(value: Seq<u8>) -> Seq<u8> {
    if value.len() >= 32 {
        value.take(32)
    } else {
        value + Seq::new((32 - value.len()) as nat, |i: int| 0u8)
    }
}

fn copy_first_32(value: &[u8]) -> (r: [u8; 32])
    ensures
        r@ == first_32(value@),
{
    let mut r = [0u8; 32];
    let mut i: usize = 0;
    while i < 32 && i < value.len()
        invariant
            i <= 32,
            i <= value@.len(),
            forall|j: int| 0 <= j < i ==> r@[j] == value@[j],
            forall|j: int| i <= j < 32 ==> r@[j] == 0u8,
        decreases 32 - i,
    {
        r[i] = value[i];
        i = i + 1;
    }
    assert(r@ =~= first_32(value@));
    r
}

/// A stand-in hasher for tests: the "hash" is the first 32 bytes of the value, zero-padded.
/// It is not collision resistant.
pub struct TruncatingHasher;

impl Hasher for TruncatingHasher {
    open spec fn hash_of(&self, value: Seq<u8>) -> Seq<u8> {
        first_32(value)
    }

    fn hash(&self, value: &[u8]) -> (r: crate::keys::Hash) {
        crate::keys::Hash(copy_first_32(value))
    }

    fn verify(&self, value: &[u8], hash: &crate::keys::Hash) -> (r: bool) {
        crate::keys::Hash(copy_first_32(value)) == *hash
    }
}

/// The stand-in signature of `data` under `key`: the first 32 bytes of the data (zero-padded)
/// followed by the key.
pub open spec fn echo_signature(data: Seq<u8>, key: Seq<u8>) -> Seq<u8> {
    first_32(data) + key
}

fn echo_sign(data: &[u8], key: &[u8; 32]) -> (r: Signature)
    ensures
        r.0@ == echo_signature(data@, key@),
{
    let head = copy_first_32(data);
    let mut sig = [0u8; 64];
    let mut i: usize = 0;
    while i < 32
        invariant
            i <= 32,
            forall|j: int| 0 <= j < i ==> sig@[j] == head@[j],
        decreases 32 - i,
    {
        sig[i] = head[i];
        i = i + 1;
    }
    while i < 64
        invariant
            32 <= i <= 64,
            forall|j: int| 0 <= j < 32 ==> sig@[j] == head@[j],
            forall|j: int| 32 <= j < i ==> sig@[j] == key@[j - 32],
        decreases 64 - i,
    {
        sig[i] = key[i - 32];
        i = i + 1;
    }
    assert(sig@ =~= echo_signature(data@, key@));
    Signature(sig)
}

/// A stand-in signer for tests: a signature is the first 32 bytes of the data followed by the
/// key, and the verification key of a signing key is the same 32 bytes. It is not secure.
pub struct EchoSigner;

impl Signer for EchoSigner {
    open spec fn accepts(&self, data: Seq<u8>, signature: Seq<u8>, verify_key: Seq<u8>) -> bool {
        signature == echo_signature(data, verify_key)
    }

    fn sign(&self, data: &[u8], sign_key: &SignKey) -> (r: Signature)
        ensures
            r.0@ == echo_signature(data@, sign_key.0@),
    {
        echo_sign(data, &sign_key.0)
    }

    fn verify(&self, data: &[u8], signature: &Signature, verify_key: &VerifyKey) -> (r: bool) {
        echo_sign(data, &verify_key.0) == *signature
    }
}


/// Whether `signature` is a valid BIP-340 Schnorr signature over secp256k1 of the 32-byte
/// message `data` under the x-only public key `verify_key`.
pub uninterp spec fn schnorr_accepts(data: Seq<u8>, signature: Seq<u8>, verify_key: Seq<u8>) -> bool;

/// Relies on secp256k1's `Secp256k1::verify_schnorr`, after `Message::from_digest_slice`,
/// `schnorr::Signature::from_slice` and `XOnlyPublicKey::from_slice` read the arguments; an
/// argument they refuse (a message that is not 32 bytes, a key that is not a curve point)
/// makes the answer `false`. BIP-340 verification depends on its arguments alone.
#[verifier::external_body]
fn schnorr_verify(data: &[u8], signature: &[u8; 64], verify_key: &[u8; 32]) -> (r: bool)
    ensures
        r == schnorr_accepts(data@, signature@, verify_key@),
{
    let (Ok(msg), Ok(sig), Ok(pk)) = (
        Message::from_digest_slice(data),
        schnorr::Signature::from_slice(signature),
        XOnlyPublicKey::from_slice(verify_key),
    ) else {
        return false;
    };
    Secp256k1::verification_only().verify_schnorr(&sig, &msg, &pk).is_ok()
}

/// Relies on secp256k1's `Keypair::from_seckey_slice` and `Secp256k1::sign_schnorr_no_aux_rand`
/// (after `Message::from_digest_slice`): the BIP-340 signature of a 32-byte message; `None`
/// when secp256k1 refuses the message or the secret key.
#[verifier::external_body]
fn schnorr_sign(data: &[u8], sign_key: &[u8; 32]) -> Option<[u8; 64]> {
    let secp = Secp256k1::signing_only();
    let keypair = Keypair::from_seckey_slice(&secp, sign_key).ok()?;
    let msg = Message::from_digest_slice(data).ok()?;
    Some(secp.sign_schnorr_no_aux_rand(&msg, &keypair).serialize())
}

/// Relies on secp256k1's `Keypair::from_seckey_slice` and `Keypair::x_only_public_key`: the
/// x-only public key of a secret key; `None` when secp256k1 refuses the secret key.
#[verifier::external_body]
fn schnorr_public_key(sign_key: &[u8; 32]) -> Option<[u8; 32]> {
    let keypair = Keypair::from_seckey_slice(&Secp256k1::signing_only(), sign_key).ok()?;
    Some(keypair.x_only_public_key().0.serialize())
}

/// BIP-340 Schnorr signatures over secp256k1: 32-byte x-only verification keys, 64-byte
/// signatures, 32-byte messages (the hashes that transactions sign).
pub struct SchnorrSigner;

impl SchnorrSigner {
    /// The verification key of `sign_key`; `None` when it is not a valid secret key.
    pub fn verify_key_of(sign_key: &SignKey) -> Option<VerifyKey> {
        match schnorr_public_key(&sign_key.0) {
            Some(k) => Some(VerifyKey(k)),
            None => None,
        }
    }
}

impl Signer for SchnorrSigner {
    open spec fn accepts(&self, data: Seq<u8>, signature: Seq<u8>, verify_key: Seq<u8>) -> bool {
        schnorr_accepts(data, signature, verify_key)
    }

    /// The signature of `data`; all zero bytes when `data` is not 32 bytes long or `sign_key`
    /// is not a valid secret key.
    fn sign(&self, data: &[u8], sign_key: &SignKey) -> Signature {
        match schnorr_sign(data, &sign_key.0) {
            Some(s) => Signature(s),
            None => Signature([0u8; 64]),
        }
    }

    fn verify(&self, data: &[u8], signature: &Signature, verify_key: &VerifyKey) -> (r: bool) {
        schnorr_verify(data, &signature.0, &verify_key.0)
    }
}

} // verus!
