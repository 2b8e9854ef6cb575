//! A denominated amount of tokens.
use core::cmp::Ordering;
use vstd::prelude::*;

verus! {

/// An amount of tokens of one denomination.
#[derive(Debug)]
pub struct Token {
    pub amount: u64,
    pub denom: String,
}

impl Clone for Token {
    fn clone(&self) -> (r: Self)
        ensures
            r == *self,
    {
        Token { amount: self.amount, denom: self.denom.clone() }
    }
}

impl PartialEq for Token {
    fn eq(&self, other: &Self) -> (r: bool) {
        self.amount == other.amount && self.denom == other.denom
    }
}

impl Eq for Token {}

impl vstd::std_specs::cmp::PartialEqSpecImpl for Token {
    open spec fn obeys_eq_spec() -> bool {
        true
    }

    open spec fn eq_spec(&self, other: &Token) -> bool {
        same_token(self, other)
    }
}

/// Whether two tokens hold the same amount of the same denomination.
pub open spec fn same_token(a: &Token, b: &Token) -> bool {
    a.amount == b.amount && a.denom@ == b.denom@
}

/// How two amounts order.
pub open spec fn order_of(a: u64, b: u64) -> Ordering {
    if a < b {
        Ordering::Less
    } else if a > b {
        Ordering::Greater
    } else {
        Ordering::Equal
    }
}

/// Tokens of one denomination compare by amount; tokens of different denominations do not
/// compare at all.
pub open spec fn token_cmp(a: &Token, b: &Token) -> Option<Ordering> {
    if a.denom@ == b.denom@ {
        Some(order_of(a.amount, b.amount))
    } else {
        None
    }
}

impl PartialOrd for Token {
    fn partial_cmp(&self, other: &Self) -> (r: Option<Ordering>) {
        if !(self.denom == other.denom) {
            return None;
        }
        if self.amount < other.amount {
            Some(Ordering::Less)
        } else if self.amount > other.amount {
            Some(Ordering::Greater)
        } else {
            Some(Ordering::Equal)
        }
    }
}

impl vstd::std_specs::cmp::PartialOrdSpecImpl for Token {
    open spec fn obeys_partial_cmp_spec() -> bool {
        true
    }

    open spec fn partial_cmp_spec(&self, other: &Token) -> Option<Ordering> {
        token_cmp(self, other)
    }
}

/// Whether `a` orders at or before `b`.
pub open spec fn token_le(a: &Token, b: &Token) -> bool {
    token_cmp(a, b) matches Some(o) && o != Ordering::Greater
}

/// Tokens of one denomination are totally ordered by amount: any two of them compare, they
/// compare as their amounts do, they compare equal exactly when they are equal, and the order
/// is transitive. Tokens of different denominations never compare.
pub proof fn lemma_token_order(a: Token, b: Token, c: Token)
    ensures
        a.denom@ != b.denom@ ==> token_cmp(&a, &b) is None,
        a.denom@ == b.denom@ ==> token_cmp(&a, &b) is Some,
        a.denom@ == b.denom@ ==> (token_cmp(&a, &b) == Some(Ordering::Less) <==> a.amount
            < b.amount),
        a.denom@ == b.denom@ ==> (token_cmp(&a, &b) == Some(Ordering::Greater) <==> a.amount
            > b.amount),
        token_cmp(&a, &b) == Some(Ordering::Equal) <==> same_token(&a, &b),
        token_cmp(&a, &b) == Some(Ordering::Less) <==> token_cmp(&b, &a) == Some(
            Ordering::Greater,
        ),
        token_le(&a, &b) && token_le(&b, &a) ==> same_token(&a, &b),
        token_le(&a, &b) && token_le(&b, &c) ==> token_le(&a, &c),
        a.denom@ == b.denom@ ==> token_le(&a, &b) || token_le(&b, &a),
{
}

} // verus!
