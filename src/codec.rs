//! Calls into outside encoders: unpadded base64, bech32m, JSON string literals and decimal
//! numerals.
use base64::engine::general_purpose::STANDARD_NO_PAD;
use base64::Engine;
use vstd::prelude::*;

verus! {

/// The unpadded standard-alphabet base64 text of a byte sequence.
pub uninterp spec fn base64_of(bytes: Seq<u8>) -> Seq<char>;

/// Relies on base64's `Engine::encode` with the `STANDARD_NO_PAD` engine: the text depends on the
/// bytes alone.
#[verifier::external_body]
pub(crate) fn base64_encode(bytes: &[u8]) -> (r: String)
    ensures
        r@ == base64_of(bytes@),
{
    STANDARD_NO_PAD.encode(bytes)
}

/// Relies on base64's `Engine::decode` with the `STANDARD_NO_PAD` engine. That engine rejects
/// padding and non-zero trailing bits, so it accepts canonical text only: what it decodes
/// encodes back to the same text, and the encoding of any bytes decodes back to those bytes.
#[verifier::external_body]
pub(crate) fn base64_decode(text: &str) -> (r: Option<Vec<u8>>)
    ensures
        r matches Some(b) ==> base64_of(b@) == text@,
        forall|b: Seq<u8>| #[trigger] base64_of(b) == text@ ==> r.is_some() && r.unwrap()@ == b,
{
    STANDARD_NO_PAD.decode(text).ok()
}


/// The lower-case bech32m text of `data` under the human-readable part `hrp`.
pub uninterp spec fn bech32m_of(hrp: Seq<char>, data: Seq<u8>) -> Seq<char>;

/// Whether `text` holds a lower-case ASCII letter.
pub open spec fn has_lower(text: Seq<char>) -> bool {
    exists|i: int| 0 <= i < text.len() && 'a' <= #[trigger] text[i] <= 'z'
}

/// Whether `text` holds an upper-case ASCII letter.
pub open spec fn has_upper(text: Seq<char>) -> bool {
    exists|i: int| 0 <= i < text.len() && 'A' <= #[trigger] text[i] <= 'Z'
}

/// Whether bech32 takes `hrp` as a human-readable part: 1 to 83 printable ASCII characters
/// (`!` to `~`) that do not mix lower and upper case.
pub open spec fn hrp_accepted(hrp: Seq<char>) -> bool {
    &&& 1 <= hrp.len() <= 83
    &&& forall|i: int| 0 <= i < hrp.len() ==> '!' <= #[trigger] hrp[i] <= '~'
    &&& !(has_lower(hrp) && has_upper(hrp))
}

/// Relies on bech32's `Hrp::parse` and `bech32::encode::<Bech32m>`. `Hrp::parse` refuses a part
/// that is empty, longer than 83 bytes, not printable ASCII or of mixed case; the encoding of
/// 32 bytes under any other part stays within bech32m's length limit of 1023, so it succeeds.
#[verifier::external_body]
pub(crate) fn bech32m_encode(hrp: &str, data: &[u8; 32]) -> (r: Option<String>)
    ensures
        r.is_some() == hrp_accepted(hrp@),
        r.is_some() ==> r.unwrap()@ == bech32m_of(hrp@, data@),
{
    let hrp = bech32::Hrp::parse(hrp).ok()?;
    bech32::encode::<bech32::Bech32m>(hrp, data).ok()
}

/// Relies on `bech32::decode` (and `Hrp`'s `Display`): the bech32m text of 32 bytes under a
/// human-readable part with no upper-case letter decodes back to that part and those bytes.
#[verifier::external_body]
pub(crate) fn bech32_decode(text: &str) -> (r: Option<(String, Vec<u8>)>)
    ensures
        forall|hrp: Seq<char>, data: Seq<u8>|
            #[trigger] bech32m_of(hrp, data) == text@ && hrp_accepted(hrp) && !has_upper(hrp)
                && data.len() == 32 ==> r.is_some() && r.unwrap().0@ == hrp && r.unwrap().1@
                == data,
{
    bech32::decode(text).ok().map(|(hrp, data)| (hrp.to_string(), data))
}


/// The JSON string literal of a text: the text in double quotes, with quotes, backslashes and
/// control characters escaped.
pub uninterp spec fn json_string_of(text: Seq<char>) -> Seq<char>;

/// Relies on `serde_json::to_string` on a string slice: the JSON string literal of the text,
/// which depends on the text alone. serde_json writes it into a `Vec<u8>`, whose writes never
/// fail, so the call always returns `Ok`.
#[verifier::external_body]
pub(crate) fn json_quote(text: &str) -> (r: String)
    ensures
        r@ == json_string_of(text@),
{
    serde_json::to_string(text).unwrap_or_default()
}

/// The decimal digit for `d` (below ten).
pub open spec fn digit_char(d: nat) -> char {
    seq!['0', '1', '2', '3', '4', '5', '6', '7', '8', '9'][d as int]
}

/// The decimal numeral of `n`, without sign or leading zeros.
pub open spec fn decimal(n: nat) -> Seq<char>
    decreases n,
{
    if n < 10 {
        seq![digit_char(n)]
    } else {
        decimal(n / 10).push(digit_char(n % 10))
    }
}

/// Relies on `u64`'s `Display` (through `ToString::to_string`), which writes the decimal
/// numeral of the value.
#[verifier::external_body]
pub(crate) fn decimal_text(n: u64) -> (r: String)
    ensures
        r@ == decimal(n as nat),
{
    n.to_string()
}

} // verus!
