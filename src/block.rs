//! Blocks and a chain of them: headers linked by the hash of the previous header, and checks
//! over the chain.
use crate::codec::decimal;
use crate::hashing::{sha256, sha256_of};
use crate::models::{unix_time_now, Transaction};
use vstd::prelude::*;
use vstd::utf8::encode_utf8;

verus! {

/// The lower-case hexadecimal digit for `d` (below sixteen).
pub open spec fn hex_char(d: nat) -> char {
    seq!['0', '1', '2', '3', '4', '5', '6', '7', '8', '9', 'a', 'b', 'c', 'd', 'e', 'f'][d as int]
}

/// The lower-case hexadecimal text of a byte sequence, two digits per byte.
pub open spec fn hex_of(bytes: Seq<u8>) -> Seq<char>
    decreases bytes.len(),
{
    if bytes.len() == 0 {
        Seq::empty()
    } else {
        hex_of(bytes.drop_last()) + seq![
            hex_char((bytes.last() / 16) as nat),
            hex_char((bytes.last() % 16) as nat),
        ]
    }
}

fn hex_digit(d: u8) -> (r: &'static str)
    requires
        d < 16,
    ensures
        r@ == seq![hex_char(d as nat)],
{
    proof {
        reveal_strlit("0");
        reveal_strlit("1");
        reveal_strlit("2");
        reveal_strlit("3");
        reveal_strlit("4");
        reveal_strlit("5");
        reveal_strlit("6");
        reveal_strlit("7");
        reveal_strlit("8");
        reveal_strlit("9");
        reveal_strlit("a");
        reveal_strlit("b");
        reveal_strlit("c");
        reveal_strlit("d");
        reveal_strlit("e");
        reveal_strlit("f");
    }
    let r = match d {
        0 => "0",
        1 => "1",
        2 => "2",
        3 => "3",
        4 => "4",
        5 => "5",
        6 => "6",
        7 => "7",
        8 => "8",
        9 => "9",
        10 => "a",
        11 => "b",
        12 => "c",
        13 => "d",
        14 => "e",
        _ => "f",
    };
    assert(r@ =~= seq![hex_char(d as nat)]);
    r
}

/// The lower-case hexadecimal text of `bytes`.
pub fn to_hex(bytes: &[u8]) -> (r: String)
    ensures
        r@ == hex_of(bytes@),
{
    let mut out = String::new();
    let mut i: usize = 0;
    while i < bytes.len()
        invariant
            i <= bytes@.len(),
            out@ == hex_of(bytes@.take(i as int)),
        decreases bytes@.len() - i,
    {
        proof {
            assert(bytes@.take(i + 1).drop_last() =~= bytes@.take(i as int));
        }
        out.append(hex_digit(bytes[i] / 16));
        out.append(hex_digit(bytes[i] % 16));
        i = i + 1;
    }
    assert(bytes@.take(i as int) =~= bytes@);
    out
}

/// The header of a block.
#[derive(Debug)]
pub struct BlockHeader {
    /// Time of creation, in seconds since the Unix epoch.
    pub timestamp: u64,
    /// Proof-of-work nonce.
    pub nonce: u32,
    /// The hash text of the previous block's header.
    pub pre_hash: String,
    /// Merkle root of the block's transactions.
    pub merkle: String,
    /// Proof-of-work difficulty.
    pub difficulty: u32,
}

/// The text a header's hash covers: its numbers in decimal and its texts, run together.
pub open spec fn header_text(h: &BlockHeader) -> Seq<char> {
    decimal(h.timestamp as nat) + decimal(h.nonce as nat) + h.pre_hash@ + h.merkle@ + decimal(
        h.difficulty as nat,
    )
}

/// The hash text of a header: the hexadecimal SHA-256 digest of its text's UTF-8 bytes.
pub open spec fn header_hash_text(h: &BlockHeader) -> Seq<char> {
    hex_of(sha256_of(encode_utf8(header_text(h))))
}

impl BlockHeader {
    /// A header for a new block after the one whose header hashes to `previous_block_hash`,
    /// stamped with the current time, with a zero nonce and an empty Merkle root.
    pub fn create_block_header(previous_block_hash: &str, difficulty: u32) -> (r: BlockHeader)
        ensures
            r.nonce == 0,
            r.pre_hash@ == previous_block_hash@,
            r.merkle@ == Seq::<char>::empty(),
            r.difficulty == difficulty,
    {
        BlockHeader {
            timestamp: unix_time_now(),
            nonce: 0,
            pre_hash: previous_block_hash.to_string(),
            merkle: String::new(),
            difficulty,
        }
    }

    /// The hash text of the header.
    pub fn calculate_header_hash(&self) -> (r: String)
        ensures
            r@ == header_hash_text(self),
    {
        let mut data = crate::codec::decimal_text(self.timestamp);
        data.append(crate::codec::decimal_text(self.nonce as u64).as_str());
        data.append(self.pre_hash.as_str());
        data.append(self.merkle.as_str());
        data.append(crate::codec::decimal_text(self.difficulty as u64).as_str());
        let digest = sha256(data.as_str().as_bytes());
        to_hex(digest.as_slice())
    }
}

/// A block: its header, its number in the chain, and its transactions.
#[derive(Debug)]
pub struct Block {
    pub header: BlockHeader,
    pub count: u32,
    pub transactions: Vec<Transaction>,
}

/// A block being assembled: a header and the transactions gathered so far.
#[derive(Debug)]
pub struct BlockService {
    pub header: BlockHeader,
    pub transactions: Vec<Transaction>,
}

impl BlockService {
    /// Appends `transactions` to the block.
    pub fn add_transactions(&mut self, transactions: Vec<Transaction>)
        ensures
            final(self).header == old(self).header,
            final(self).transactions@ == old(self).transactions@ + transactions@,
    {
        let mut more = transactions;
        self.transactions.append(&mut more);
    }

    /// Whether the block follows the block whose header hashes to `previous_block_hash`.
    pub fn is_valid(&self, previous_block_hash: &str) -> (r: bool)
        ensures
            r == (self.header.pre_hash@ == previous_block_hash@),
    {
        crate::routing::same_text(self.header.pre_hash.as_str(), previous_block_hash)
    }

    /// Makes the block follow the block whose header hashes to `previous_block_hash`.
    pub fn link_to_previous_block(&mut self, previous_block_hash: &str)
        ensures
            final(self).header.pre_hash@ == previous_block_hash@,
            final(self).header.timestamp == old(self).header.timestamp,
            final(self).header.nonce == old(self).header.nonce,
            final(self).header.merkle == old(self).header.merkle,
            final(self).header.difficulty == old(self).header.difficulty,
            final(self).transactions == old(self).transactions,
    {
        self.header.pre_hash = previous_block_hash.to_string();
    }
}

/// Whether a transaction keeps the invariants that need no collaborator to check.
pub open spec fn tx_valid(t: &Transaction) -> bool {
    t.gas > 0 && t.amount.amount > 0
}

/// Whether every transaction of a list is valid.
pub open spec fn all_valid(txs: Seq<Transaction>) -> bool {
    forall|i: int| 0 <= i < txs.len() ==> tx_valid(&#[trigger] txs[i])
}

/// Whether a chain is linked and holds valid transactions: each block after the first names
/// the hash text of its predecessor's header and holds only valid transactions.
pub open spec fn chain_valid(chain: Seq<Block>) -> bool {
    forall|i: int|
        1 <= i < chain.len() ==> (#[trigger] chain[i]).header.pre_hash@ == header_hash_text(
            &chain[i - 1].header,
        ) && all_valid(chain[i].transactions@)
}

/// A chain of blocks and the transactions waiting for the next one.
#[derive(Debug)]
pub struct BlockChainService {
    pub chain: Vec<Block>,
    pub curr_trans: Vec<Transaction>,
    pub difficulty: u32,
}

impl BlockChainService {
    /// Appends `block` to the chain.
    pub fn add_block(&mut self, block: Block)
        ensures
            final(self).chain@ == old(self).chain@.push(block),
            final(self).curr_trans == old(self).curr_trans,
            final(self).difficulty == old(self).difficulty,
    {
        self.chain.push(block);
    }

    /// The next block: a new header that follows the last block's header, numbered one past
    /// the chain's length, holding the queued transactions.
    pub fn create_block(&mut self) -> (r: Block)
        requires
            old(self).chain@.len() > 0,
            old(self).chain@.len() < u32::MAX,
        ensures
            *final(self) == *old(self),
            r.header.pre_hash@ == header_hash_text(&old(self).chain@.last().header),
            r.header.nonce == 0,
            r.header.merkle@ == Seq::<char>::empty(),
            r.header.difficulty == old(self).difficulty,
            r.count == old(self).chain@.len() + 1,
            r.transactions@ == old(self).curr_trans@,
    {
        let previous_block = &self.chain[self.chain.len() - 1];
        let block_header = BlockHeader::create_block_header(
            previous_block.header.calculate_header_hash().as_str(),
            self.difficulty,
        );
        let mut transactions: Vec<Transaction> = Vec::new();
        let mut i: usize = 0;
        while i < self.curr_trans.len()
            invariant
                i <= self.curr_trans@.len(),
                transactions@ == self.curr_trans@.take(i as int),
            decreases self.curr_trans@.len() - i,
        {
            transactions.push(self.curr_trans[i].clone());
            assert(self.curr_trans@.take(i + 1) =~= self.curr_trans@.take(i as int).push(self.curr_trans@[i as int]));
            i = i + 1;
        }
        assert(self.curr_trans@.take(i as int) =~= self.curr_trans@);
        Block { header: block_header, count: self.chain.len() as u32 + 1, transactions }
    }

    /// Whether every transaction in `transactions` is valid.
    fn validate_transactions(&self, transactions: &[Transaction]) -> (r: bool)
        ensures
            r == all_valid(transactions@),
    {
        let mut i: usize = 0;
        while i < transactions.len()
            invariant
                i <= transactions@.len(),
                all_valid(transactions@.take(i as int)),
            decreases transactions@.len() - i,
        {
            if !transactions[i].is_valid() {
                return false;
            }
            i = i + 1;
        }
        assert(transactions@.take(i as int) =~= transactions@);
        true
    }

    /// Whether the chain is linked and holds only valid transactions.
    pub fn validate_chain(&self) -> (r: bool)
        ensures
            r == chain_valid(self.chain@),
    {
        let mut i: usize = 1;
        while i < self.chain.len()
            invariant
                1 <= i,
                forall|j: int|
                    1 <= j < i && j < self.chain@.len() ==> (#[trigger] self.chain@[j]).header.pre_hash@
                        == header_hash_text(&self.chain@[j - 1].header) && all_valid(
                        self.chain@[j].transactions@,
                    ),
            decreases self.chain@.len() - i,
        {
            let previous_block = &self.chain[i - 1];
            let current_block = &self.chain[i];
            let expected = previous_block.header.calculate_header_hash();
            if !crate::routing::same_text(current_block.header.pre_hash.as_str(), expected.as_str()) {
                return false;
            }
            if !self.validate_transactions(current_block.transactions.as_slice()) {
                return false;
            }
            i = i + 1;
        }
        true
    }

    /// The block at `index`, if the chain is that long.
    pub fn get_block_by_index(&self, index: usize) -> (r: Option<&Block>)
        ensures
            r == (if index < self.chain@.len() {
                Some(&self.chain@[index as int])
            } else {
                None
            }),
    {
        if index < self.chain.len() {
            Some(&self.chain[index])
        } else {
            None
        }
    }

    /// Queues `tx` for the next block if it is valid; an invalid one is dropped.
    pub fn add_transaction(&mut self, tx: Transaction)
        ensures
            final(self).curr_trans@ == if tx_valid(&tx) {
                old(self).curr_trans@.push(tx)
            } else {
                old(self).curr_trans@
            },
            final(self).chain == old(self).chain,
            final(self).difficulty == old(self).difficulty,
    {
        if tx.is_valid() {
            self.curr_trans.push(tx);
        }
    }

    /// Whether every transaction in every block is valid.
    pub fn verify_transactions_in_blocks(&self) -> (r: bool)
        ensures
            r == forall|i: int| 0 <= i < self.chain@.len() ==> all_valid(#[trigger] self.chain@[i].transactions@),
    {
        let mut i: usize = 0;
        while i < self.chain.len()
            invariant
                i <= self.chain@.len(),
                forall|j: int| 0 <= j < i ==> all_valid(#[trigger] self.chain@[j].transactions@),
            decreases self.chain@.len() - i,
        {
            if !self.validate_transactions(self.chain[i].transactions.as_slice()) {
                return false;
            }
            i = i + 1;
        }
        true
    }
}

} // verus!
