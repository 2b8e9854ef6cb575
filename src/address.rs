//! Account addresses and their bech32m text form.
use crate::codec::{bech32_decode, bech32m_encode, bech32m_of, has_upper, hrp_accepted};
use crate::keys::{array32_from, DecodeError, VerifyKey};
use vstd::prelude::*;

verus! {

/// A hierarchical-deterministic derivation path of an address.
#[derive(Debug)]
pub struct RawAddress {
    /// Network tag, e.g. `lokichain`.
    pub network: String,
    /// 44 for BIP-44.
    pub purpose: u32,
    /// 0 for Bitcoin, 60 for Ethereum.
    pub coin_type: u32,
    /// Number of the account; a user may hold several.
    pub account: u32,
    /// 0 for external addresses, 1 for internal ones.
    pub change: u32,
    /// Index of the address; an account may hold several of one currency.
    pub address_index: u32,
}

/// An account identity: a network tag and the account's public key.
#[derive(Debug)]
pub struct Address {
    /// Network tag, e.g. `lokichain`.
    pub network: String,
    /// Public key.
    pub vk: VerifyKey,
}

/// Whether two addresses name the same network and key.
pub open spec fn same_address(a: &Address, b: &Address) -> bool {
    a.network@ == b.network@ && a.vk.0@ == b.vk.0@
}

impl Clone for Address {
    fn clone(&self) -> (r: Self)
        ensures
            r == *self,
    {
        Address { network: self.network.clone(), vk: self.vk.clone() }
    }
}

impl PartialEq for Address {
    fn eq(&self, other: &Self) -> (r: bool) {
        self.network == other.network && self.vk == other.vk
    }
}

impl Eq for Address {}

impl vstd::std_specs::cmp::PartialEqSpecImpl for Address {
    open spec fn obeys_eq_spec() -> bool {
        true
    }

    open spec fn eq_spec(&self, other: &Address) -> bool {
        same_address(self, other)
    }
}

/// Whether an address's network tag survives the text form unchanged: bech32 takes it as a
/// human-readable part, and it holds no upper-case letter (the text is lower case).
pub open spec fn network_canonical(network: Seq<char>) -> bool {
    hrp_accepted(network) && !has_upper(network)
}

/// What reading `text` as an address gives: the text form of every address with a canonical
/// network tag reads back to an equal address.
pub open spec fn address_decoded(text: Seq<char>, r: Result<Address, DecodeError>) -> bool {
    forall|a: Address|
        network_canonical(a.network@) && #[trigger] bech32m_of(a.network@, a.vk.0@) == text ==> (
        r matches Ok(b) && same_address(&b, &a))
}

impl Address {
    /// The bech32m text of the key under the network tag; `None` when bech32 does not take the
    /// tag as a human-readable part.
    pub fn encode(&self) -> (r: Option<String>)
        ensures
            r.is_some() == hrp_accepted(self.network@),
            r.is_some() ==> r.unwrap()@ == bech32m_of(self.network@, self.vk.0@),
    {
        bech32m_encode(self.network.as_str(), &self.vk.0)
    }

    /// Reads an address from bech32 or bech32m text whose payload is a 32-byte key.
    pub fn decode(text: &str) -> (r: Result<Address, DecodeError>)
        ensures
            address_decoded(text@, r),
    {
        match bech32_decode(text) {
            None => Err(DecodeError::Text),
            Some((network, data)) => {
                if data.len() != 32 {
                    Err(DecodeError::Length)
                } else {
                    Ok(Address { network, vk: VerifyKey(array32_from(&data)) })
                }
            },
        }
    }
}

/// Reading back the text form of an address with a canonical network tag gives an equal
/// address.
pub proof fn lemma_address_round_trip(
    a: Address,
    text: Seq<char>,
    back: Result<Address, DecodeError>,
)
    requires
        network_canonical(a.network@),
        text == bech32m_of(a.network@, a.vk.0@),
        address_decoded(text, back),
    ensures
        back matches Ok(b) && same_address(&b, &a),
{
}

} // verus!
