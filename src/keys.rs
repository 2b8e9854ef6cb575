//! Fixed-width byte values: content hashes, signatures and key material, each with its unpadded
//! base64 text form.
use crate::codec::{base64_decode, base64_encode, base64_of};
use vstd::prelude::*;

verus! {

/// Why a text form could not be read back into a value.
#[derive(Debug, Clone, Copy, PartialEq, Eq, Structural)]
pub enum DecodeError {
    /// The text is not in the expected encoding.
    Text,
    /// The text decodes, but to the wrong number of bytes.
    Length,
}

/// Whether two byte sequences hold the same bytes.
pub fn bytes_eq(a: &[u8], b: &[u8]) -> (r: bool)
    ensures
        r == (a@ == b@),
{
    if a.len() != b.len() {
        return false;
    }
    let mut i: usize = 0;
    while i < a.len()
        invariant
            a@.len() == b@.len(),
            i <= a@.len(),
            forall|j: int| 0 <= j < i ==> a@[j] == b@[j],
        decreases a@.len() - i,
    {
        if a[i] != b[i] {
            return false;
        }
        i = i + 1;
    }
    assert(a@ =~= b@);
    true
}

pub(crate) fn array32_from(v: &Vec<u8>) -> (r: [u8; 32])
    requires
        v@.len() == 32,
    ensures
        r@ == v@,
{
    let mut r = [0u8; 32];
    let mut i: usize = 0;
    while i < 32
        invariant
            v@.len() == 32,
            i <= 32,
            forall|j: int| 0 <= j < i ==> r@[j] == v@[j],
        decreases 32 - i,
    {
        r[i] = v[i];
        i = i + 1;
    }
    assert(r@ =~= v@);
    r
}

fn array64_from(v: &Vec<u8>) -> (r: [u8; 64])
    requires
        v@.len() == 64,
    ensures
        r@ == v@,
{
    let mut r = [0u8; 64];
    let mut i: usize = 0;
    while i < 64
        invariant
            v@.len() == 64,
            i <= 64,
            forall|j: int| 0 <= j < i ==> r@[j] == v@[j],
        decreases 64 - i,
    {
        r[i] = v[i];
        i = i + 1;
    }
    assert(r@ =~= v@);
    r
}

/// What reading `text` as `len` bytes of base64 gives: the bytes when the text encodes exactly
/// `len` of them, a length error when it encodes some other number, a text error otherwise.
pub open spec fn base64_read(text: Seq<char>, len: nat, r: Result<Seq<u8>, DecodeError>) -> bool {
    &&& r matches Ok(b) ==> b.len() == len && base64_of(b) == text
    &&& r matches Err(DecodeError::Length) ==> exists|b: Seq<u8>|
        #[trigger] base64_of(b) == text && b.len() != len
    &&& r matches Err(DecodeError::Text) ==> forall|b: Seq<u8>| #[trigger] base64_of(b) != text
    &&& forall|b: Seq<u8>| #[trigger] base64_of(b) == text && b.len() == len ==> r == Ok::<
        Seq<u8>,
        DecodeError,
    >(b)
}

/// Reads unpadded base64 text that must encode exactly 32 bytes.
fn read32(text: &str) -> (r: Result<[u8; 32], DecodeError>)
    ensures
        base64_read(
            text@,
            32,
            match r {
                Ok(a) => Ok(a@),
                Err(e) => Err(e),
            },
        ),
{
    match base64_decode(text) {
        None => Err(DecodeError::Text),
        Some(v) => {
            if v.len() != 32 {
                Err(DecodeError::Length)
            } else {
                Ok(array32_from(&v))
            }
        },
    }
}

/// Reads unpadded base64 text that must encode exactly 64 bytes.
fn read64(text: &str) -> (r: Result<[u8; 64], DecodeError>)
    ensures
        base64_read(
            text@,
            64,
            match r {
                Ok(a) => Ok(a@),
                Err(e) => Err(e),
            },
        ),
{
    match base64_decode(text) {
        None => Err(DecodeError::Text),
        Some(v) => {
            if v.len() != 64 {
                Err(DecodeError::Length)
            } else {
                Ok(array64_from(&v))
            }
        },
    }
}


/// A 32-byte content hash: the identifier of a transaction and the message that its signature covers.
#[derive(Debug)]
pub struct Hash(pub [u8; 32]);

impl Clone for Hash {
    fn clone(&self) -> (r: Self)
        ensures
            r == *self,
    {
        Hash(self.0)
    }
}

impl PartialEq for Hash {
    fn eq(&self, other: &Self) -> (r: bool) {
        bytes_eq(self.0.as_slice(), other.0.as_slice())
    }
}

impl Eq for Hash {}

impl vstd::std_specs::cmp::PartialEqSpecImpl for Hash {
    open spec fn obeys_eq_spec() -> bool {
        true
    }

    open spec fn eq_spec(&self, other: &Hash) -> bool {
        self.0@ == other.0@
    }
}

/// What reading `text` as a hash gives (see `base64_read`).
pub open spec fn hash_decoded(text: Seq<char>, r: Result<Hash, DecodeError>) -> bool {
    base64_read(
        text,
        32,
        match r {
            Ok(v) => Ok(v.0@),
            Err(e) => Err(e),
        },
    )
}

impl Hash {
    /// The unpadded base64 text of the bytes.
    pub fn encode(&self) -> (r: String)
        ensures
            r@ == base64_of(self.0@),
    {
        base64_encode(self.0.as_slice())
    }

    /// Reads a hash back from unpadded base64 text; any other text is an error.
    pub fn decode(text: &str) -> (r: Result<Hash, DecodeError>)
        ensures
            hash_decoded(text@, r),
    {
        match read32(text) {
            Ok(a) => Ok(Hash(a)),
            Err(e) => Err(e),
        }
    }
}

/// Reading back the text form of a hash gives that same hash.
pub proof fn lemma_hash_round_trip(v: Hash, text: Seq<char>, back: Result<Hash, DecodeError>)
    requires
        text == base64_of(v.0@),
        hash_decoded(text, back),
    ensures
        back == Ok::<Hash, DecodeError>(v),
{
    let b = v.0@;
    assert(base64_of(b) == text && b.len() == 32);
    let w = back->Ok_0;
    assert(w.0 =~= v.0);
}

/// A 64-byte signature over a hash.
#[derive(Debug)]
pub struct Signature(pub [u8; 64]);

impl Clone for Signature {
    fn clone(&self) -> (r: Self)
        ensures
            r == *self,
    {
        Signature(self.0)
    }
}

impl PartialEq for Signature {
    fn eq(&self, other: &Self) -> (r: bool) {
        bytes_eq(self.0.as_slice(), other.0.as_slice())
    }
}

impl Eq for Signature {}

impl vstd::std_specs::cmp::PartialEqSpecImpl for Signature {
    open spec fn obeys_eq_spec() -> bool {
        true
    }

    open spec fn eq_spec(&self, other: &Signature) -> bool {
        self.0@ == other.0@
    }
}

/// What reading `text` as a signature gives (see `base64_read`).
pub open spec fn signature_decoded(text: Seq<char>, r: Result<Signature, DecodeError>) -> bool {
    base64_read(
        text,
        64,
        match r {
            Ok(v) => Ok(v.0@),
            Err(e) => Err(e),
        },
    )
}

impl Signature {
    /// The unpadded base64 text of the bytes.
    pub fn encode(&self) -> (r: String)
        ensures
            r@ == base64_of(self.0@),
    {
        base64_encode(self.0.as_slice())
    }

    /// Reads a signature back from unpadded base64 text; any other text is an error.
    pub fn decode(text: &str) -> (r: Result<Signature, DecodeError>)
        ensures
            signature_decoded(text@, r),
    {
        match read64(text) {
            Ok(a) => Ok(Signature(a)),
            Err(e) => Err(e),
        }
    }
}

/// Reading back the text form of a signature gives that same signature.
pub proof fn lemma_signature_round_trip(v: Signature, text: Seq<char>, back: Result<Signature, DecodeError>)
    requires
        text == base64_of(v.0@),
        signature_decoded(text, back),
    ensures
        back == Ok::<Signature, DecodeError>(v),
{
    let b = v.0@;
    assert(base64_of(b) == text && b.len() == 64);
    let w = back->Ok_0;
    assert(w.0 =~= v.0);
}

/// 32 bytes of secret signing key material.
#[derive(Debug)]
pub struct SignKey(pub [u8; 32]);

impl Clone for SignKey {
    fn clone(&self) -> (r: Self)
        ensures
            r == *self,
    {
        SignKey(self.0)
    }
}

impl PartialEq for SignKey {
    fn eq(&self, other: &Self) -> (r: bool) {
        bytes_eq(self.0.as_slice(), other.0.as_slice())
    }
}

impl Eq for SignKey {}

impl vstd::std_specs::cmp::PartialEqSpecImpl for SignKey {
    open spec fn obeys_eq_spec() -> bool {
        true
    }

    open spec fn eq_spec(&self, other: &SignKey) -> bool {
        self.0@ == other.0@
    }
}

/// What reading `text` as a signing key gives (see `base64_read`).
pub open spec fn sign_key_decoded(text: Seq<char>, r: Result<SignKey, DecodeError>) -> bool {
    base64_read(
        text,
        32,
        match r {
            Ok(v) => Ok(v.0@),
            Err(e) => Err(e),
        },
    )
}

impl SignKey {
    /// The unpadded base64 text of the bytes.
    pub fn encode(&self) -> (r: String)
        ensures
            r@ == base64_of(self.0@),
    {
        base64_encode(self.0.as_slice())
    }

    /// Reads a signing key back from unpadded base64 text; any other text is an error.
    pub fn decode(text: &str) -> (r: Result<SignKey, DecodeError>)
        ensures
            sign_key_decoded(text@, r),
    {
        match read32(text) {
            Ok(a) => Ok(SignKey(a)),
            Err(e) => Err(e),
        }
    }
}

/// Reading back the text form of a signing key gives that same signing key.
pub proof fn lemma_sign_key_round_trip(v: SignKey, text: Seq<char>, back: Result<SignKey, DecodeError>)
    requires
        text == base64_of(v.0@),
        sign_key_decoded(text, back),
    ensures
        back == Ok::<SignKey, DecodeError>(v),
{
    let b = v.0@;
    assert(base64_of(b) == text && b.len() == 32);
    let w = back->Ok_0;
    assert(w.0 =~= v.0);
}

/// 32 bytes of public verification key material.
#[derive(Debug)]
pub struct VerifyKey(pub [u8; 32]);

impl Clone for VerifyKey {
    fn clone(&self) -> (r: Self)
        ensures
            r == *self,
    {
        VerifyKey(self.0)
    }
}

impl PartialEq for VerifyKey {
    fn eq(&self, other: &Self) -> (r: bool) {
        bytes_eq(self.0.as_slice(), other.0.as_slice())
    }
}

impl Eq for VerifyKey {}

impl vstd::std_specs::cmp::PartialEqSpecImpl for VerifyKey {
    open spec fn obeys_eq_spec() -> bool {
        true
    }

    open spec fn eq_spec(&self, other: &VerifyKey) -> bool {
        self.0@ == other.0@
    }
}

/// What reading `text` as a verification key gives (see `base64_read`).
pub open spec fn verify_key_decoded(text: Seq<char>, r: Result<VerifyKey, DecodeError>) -> bool {
    base64_read(
        text,
        32,
        match r {
            Ok(v) => Ok(v.0@),
            Err(e) => Err(e),
        },
    )
}

impl VerifyKey {
    /// The unpadded base64 text of the bytes.
    pub fn encode(&self) -> (r: String)
        ensures
            r@ == base64_of(self.0@),
    {
        base64_encode(self.0.as_slice())
    }

    /// Reads a verification key back from unpadded base64 text; any other text is an error.
    pub fn decode(text: &str) -> (r: Result<VerifyKey, DecodeError>)
        ensures
            verify_key_decoded(text@, r),
    {
        match read32(text) {
            Ok(a) => Ok(VerifyKey(a)),
            Err(e) => Err(e),
        }
    }
}

/// Reading back the text form of a verification key gives that same verification key.
pub proof fn lemma_verify_key_round_trip(v: VerifyKey, text: Seq<char>, back: Result<VerifyKey, DecodeError>)
    requires
        text == base64_of(v.0@),
        verify_key_decoded(text, back),
    ensures
        back == Ok::<VerifyKey, DecodeError>(v),
{
    let b = v.0@;
    assert(base64_of(b) == text && b.len() == 32);
    let w = back->Ok_0;
    assert(w.0 =~= v.0);
}

} // verus!
