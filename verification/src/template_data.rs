use crate::error::Sv2BitcoinCoreError;
use crate::merkle::{lemma_branch_length, tree_height, hash_seqs, merkle_branch, next_level, parent_of, sibling};
use vstd::prelude::*;
use vstd::slice::slice_to_vec;

verus! {

broadcast use vstd::array::group_array_axioms;

/// A transaction of a block template, by what the template logic reads of it:
/// its consensus version and its txid (in the byte order of the hash, as it
/// enters merkle trees).
#[derive(Clone, Copy, Debug)]
pub struct TemplateTransaction {
    pub version: i32,
    pub txid: [u8; 32],
}

/// A block template, by what the template logic reads of it: the header's
/// version, time and compact target, and its transactions in block order.
#[derive(Clone, Debug)]
pub struct TemplateBlock {
    pub version: i32,
    pub time: u32,
    pub bits: u32,
    pub txdata: Vec<TemplateTransaction>,
}

pub struct TemplateBlockView {
    pub version: i32,
    pub time: u32,
    pub bits: u32,
    pub txdata: Seq<TemplateTransaction>,
}

impl View for TemplateBlock {
    type V = TemplateBlockView;

    open spec fn view(&self) -> TemplateBlockView {
        TemplateBlockView {
            version: self.version,
            time: self.time,
            bits: self.bits,
            txdata: self.txdata@,
        }
    }
}

/// The txids of `txdata`, in block order: the leaves of the block's merkle tree.
pub open spec fn txid_level(txdata: Seq<TemplateTransaction>) -> Seq<Seq<u8>> {
    txdata.map_values(|tx: TemplateTransaction| tx.txid@)
}

/// The bytes held by each vector of `vecs`.
pub open spec fn byte_seqs(vecs: Seq<Vec<u8>>) -> Seq<Seq<u8>> {
    vecs.map_values(|v: Vec<u8>| v@)
}

/// The unsigned 32-bit integer stored little-endian at `at` in `bytes`.
pub open spec fn le_u32(bytes: Seq<u8>, at: int) -> int {
    bytes[at] + 0x100 * bytes[at + 1] + 0x1_0000 * bytes[at + 2] + 0x100_0000 * bytes[at + 3]
}

/// The signed (two's complement) 32-bit integer stored little-endian at `at` in
/// `bytes`.
pub open spec fn le_i32(bytes: Seq<u8>, at: int) -> int {
    if le_u32(bytes, at) < 0x8000_0000 {
        le_u32(bytes, at)
    } else {
        le_u32(bytes, at) - 0x1_0000_0000
    }
}

/// The transactions, each by its version and `compute_txid` bytes, that Bitcoin
/// consensus decoding finds in `bytes` read as a block: `None` where the bytes are
/// not exactly one well-formed block.
pub uninterp spec fn decoded_block_txdata(bytes: Seq<u8>) -> Option<Seq<TemplateTransaction>>;

/// The `compute_txid` bytes of the transaction that Bitcoin consensus decoding
/// finds in `bytes`: `None` where the bytes are not exactly one well-formed
/// transaction.
pub uninterp spec fn decoded_txid(bytes: Seq<u8>) -> Option<[u8; 32]>;

/// What decoding makes of `bytes` as a block template: the 80-byte header comes
/// first, with its version in the first four bytes, then the previous block's
/// hash and the merkle root (32 bytes each), the time at byte 68 and the compact
/// target at byte 72, all little-endian; the transactions follow.
pub open spec fn decoded_block(bytes: Seq<u8>) -> Option<TemplateBlockView> {
    match decoded_block_txdata(bytes) {
        Some(txdata) => Some(
            TemplateBlockView {
                version: le_i32(bytes, 0) as i32,
                time: le_u32(bytes, 68) as u32,
                bits: le_u32(bytes, 72) as u32,
                txdata,
            },
        ),
        None => None,
    }
}

/// What decoding makes of `bytes` as a transaction: its version is the first
/// field of its serialisation, four bytes little-endian.
pub open spec fn decoded_transaction(bytes: Seq<u8>) -> Option<TemplateTransaction> {
    match decoded_txid(bytes) {
        Some(txid) => Some(TemplateTransaction { version: le_i32(bytes, 0) as i32, txid }),
        None => None,
    }
}

/// Calls `bitcoin::consensus::deserialize::<Block>` (through `roles_logic_sv2`) and
/// reads, for each transaction of the decoded block, its version and its
/// `compute_txid` bytes.
/// Claimed: the outcome, success or failure and the transactions read, is a
/// function of the bytes alone, named by `decoded_block_txdata`; and a block that
/// decodes is at least as long as its 80-byte header. Which decoding error comes
/// back is left unsaid.
#[verifier::external_body]
fn consensus_decode_block(bytes: &[u8]) -> (res: Result<
    Vec<TemplateTransaction>,
    roles_logic_sv2::bitcoin::consensus::encode::Error,
>)
    ensures
        match res {
            Ok(txdata) => decoded_block_txdata(bytes@) == Some(txdata@) && bytes@.len() >= 80,
            Err(_) => decoded_block_txdata(bytes@) is None,
        },
{
    let block: roles_logic_sv2::bitcoin::Block = roles_logic_sv2::bitcoin::consensus::deserialize(bytes)?;
    Ok(block.txdata.iter().map(|tx| TemplateTransaction {
        version: tx.version.0,
        txid: roles_logic_sv2::bitcoin::hashes::Hash::to_byte_array(tx.compute_txid()),
    }).collect())
}

/// Calls `bitcoin::consensus::deserialize::<Transaction>` (through `roles_logic_sv2`)
/// and returns the decoded transaction's `compute_txid` bytes.
/// Claimed: the outcome is a function of the bytes alone, named by
/// `decoded_txid`; and a transaction that decodes is longer than its 4-byte
/// version field. Which decoding error comes back is left unsaid.
#[verifier::external_body]
fn consensus_decode_transaction(bytes: &[u8]) -> (res: Result<
    [u8; 32],
    roles_logic_sv2::bitcoin::consensus::encode::Error,
>)
    ensures
        match res {
            Ok(txid) => decoded_txid(bytes@) == Some(txid) && bytes@.len() >= 4,
            Err(_) => decoded_txid(bytes@) is None,
        },
{
    let tx: roles_logic_sv2::bitcoin::Transaction = roles_logic_sv2::bitcoin::consensus::deserialize(bytes)?;
    Ok(roles_logic_sv2::bitcoin::hashes::Hash::to_byte_array(tx.compute_txid()))
}

/// Reads the unsigned 32-bit little-endian integer at `at`.
fn read_u32_le(bytes: &[u8], at: usize) -> (res: u32)
    requires
        at + 4 <= bytes@.len(),
    ensures
        res == le_u32(bytes@, at as int),
{
    let b0 = bytes[at] as u32;
    let b1 = bytes[at + 1] as u32;
    let b2 = bytes[at + 2] as u32;
    let b3 = bytes[at + 3] as u32;
    b0 + 0x100 * b1 + 0x1_0000 * b2 + 0x100_0000 * b3
}

/// Reads the signed 32-bit little-endian integer at `at`.
fn read_i32_le(bytes: &[u8], at: usize) -> (res: i32)
    requires
        at + 4 <= bytes@.len(),
    ensures
        res == le_i32(bytes@, at as int),
{
    let v = read_u32_le(bytes, at);
    if v < 0x8000_0000 {
        v as i32
    } else {
        ((v - 0x8000_0000) as i32) + i32::MIN
    }
}

/// Decodes a block template as Bitcoin Core serialises it; a decoding failure
/// is an invalid template header. The header's version, time and compact target
/// are read from their fixed places in the 80-byte header.
pub fn decode_block_template(bytes: &[u8]) -> (res: Result<TemplateBlock, Sv2BitcoinCoreError>)
    ensures
        match res {
            Ok(block) => decoded_block(bytes@) == Some(block@),
            Err(e) => decoded_block(bytes@) is None && e is InvalidTemplateHeader,
        },
        res matches Ok(block) ==> {
            &&& bytes@.len() >= 80
            &&& block.version == le_i32(bytes@, 0)
            &&& block.time == le_u32(bytes@, 68)
            &&& block.bits == le_u32(bytes@, 72)
            &&& Some(block.txdata@) == decoded_block_txdata(bytes@)
        },
{
    match consensus_decode_block(bytes) {
        Ok(txdata) => Ok(
            TemplateBlock {
                version: read_i32_le(bytes, 0),
                time: read_u32_le(bytes, 68),
                bits: read_u32_le(bytes, 72),
                txdata,
            },
        ),
        Err(e) => Err(Sv2BitcoinCoreError::from(e)),
    }
}

/// Decodes the coinbase transaction of a template as Bitcoin Core serialises
/// it; a decoding failure is an invalid template header. The version is the
/// transaction's first field.
pub fn decode_coinbase_transaction(bytes: &[u8]) -> (res: Result<
    TemplateTransaction,
    Sv2BitcoinCoreError,
>)
    ensures
        match res {
            Ok(tx) => decoded_transaction(bytes@) == Some(tx),
            Err(e) => decoded_transaction(bytes@) is None && e is InvalidTemplateHeader,
        },
        res matches Ok(tx) ==> {
            &&& bytes@.len() >= 4
            &&& tx.version == le_i32(bytes@, 0)
            &&& Some(tx.txid) == decoded_txid(bytes@)
        },
{
    match consensus_decode_transaction(bytes) {
        Ok(txid) => Ok(TemplateTransaction { version: read_i32_le(bytes, 0), txid }),
        Err(e) => Err(Sv2BitcoinCoreError::from(e)),
    }
}

/// A block template received from Bitcoin Core, with its coinbase transaction.
#[derive(Clone, Debug)]
pub struct TemplateData {
    template_id: u64,
    block: TemplateBlock,
    coinbase: TemplateTransaction,
}

pub struct TemplateDataView {
    pub template_id: u64,
    pub block: TemplateBlockView,
    pub coinbase: TemplateTransaction,
}

impl View for TemplateData {
    type V = TemplateDataView;

    closed spec fn view(&self) -> TemplateDataView {
        TemplateDataView {
            template_id: self.template_id,
            block: self.block@,
            coinbase: self.coinbase,
        }
    }
}

impl TemplateData {
    /// Creates a new `TemplateData` from a template's id, block and coinbase.
    pub fn new(template_id: u64, block: TemplateBlock, coinbase: TemplateTransaction) -> (res: Self)
        ensures
            res@ == (TemplateDataView { template_id, block: block@, coinbase }),
    {
        Self { template_id, block, coinbase }
    }

    /// The id this template was given.
    pub fn template_id(&self) -> (res: u64)
        ensures
            res == self@.template_id,
    {
        self.template_id
    }

    /// The compact target (`nBits`) of the template's header.
    pub fn get_nbits(&self) -> (res: u32)
        ensures
            res == self@.block.bits,
    {
        self.block.bits
    }

    /// The time (`nTime`) of the template's header.
    pub fn get_ntime(&self) -> (res: u32)
        ensures
            res == self@.block.time,
    {
        self.block.time
    }

    /// The version of the template's header, which a node never makes negative.
    pub fn get_version(&self) -> (res: u32)
        requires
            self@.block.version >= 0,
        ensures
            res == self@.block.version,
    {
        self.block.version as u32
    }

    /// The version of the template's coinbase transaction, which is never negative.
    pub fn get_coinbase_tx_version(&self) -> (res: u32)
        requires
            self@.coinbase.version >= 0,
        ensures
            res == self@.coinbase.version,
    {
        self.coinbase.version as u32
    }

    /// The template's transactions, in block order.
    pub fn get_txs(&self) -> (res: &Vec<TemplateTransaction>)
        ensures
            res@ == self@.block.txdata,
    {
        &self.block.txdata
    }

    /// The merkle path of the coinbase (the first transaction): the sibling hash
    /// at each level of the block's merkle tree, from the leaves up. It is empty
    /// for a block of at most one transaction.
    pub fn get_merkle_path(&self) -> (res: Vec<Vec<u8>>)
        ensures
            byte_seqs(res@) == merkle_branch(txid_level(self@.block.txdata), 0),
            forall|i: int| 0 <= i < res@.len() ==> (#[trigger] res@[i])@.len() == 32,
            res@.len() == tree_height(self@.block.txdata.len()),
    {
        let txdata = &self.block.txdata;
        let n = txdata.len();
        let mut tx_hashes: Vec<[u8; 32]> = Vec::new();
        let mut j: usize = 0;
        while j < n
            invariant
                n == txdata@.len(),
                j <= n,
                tx_hashes@.len() == j,
                forall|k: int| 0 <= k < j ==> #[trigger] tx_hashes@[k] == txdata@[k].txid,
            decreases n - j,
        {
            tx_hashes.push(txdata[j].txid);
            j = j + 1;
        }
        let ghost leaves = txid_level(txdata@);
        proof {
            lemma_branch_length(leaves, 0);
        }
        assert(hash_seqs(tx_hashes@) =~= leaves);

        if tx_hashes.len() == 1 {
            // Only the coinbase transaction: the path is empty.
            return Vec::new();
        }

        let mut merkle_path: Vec<Vec<u8>> = Vec::new();
        let mut current_level = tx_hashes;
        // The coinbase is the first leaf.
        let mut target_index: usize = 0;
        assert(byte_seqs(merkle_path@) + merkle_branch(hash_seqs(current_level@), 0) =~= merkle_branch(leaves, 0));

        while current_level.len() > 1
            invariant
                current_level.len() > 0 ==> target_index < current_level.len(),
                byte_seqs(merkle_path@) + merkle_branch(hash_seqs(current_level@), target_index as int)
                    == merkle_branch(leaves, 0),
                forall|i: int| 0 <= i < merkle_path@.len() ==> (#[trigger] merkle_path@[i])@.len() == 32,
            decreases current_level.len(),
        {
            let len = current_level.len();
            let ghost level = hash_seqs(current_level@);
            let ghost path_before = byte_seqs(merkle_path@);
            let next_target_index = target_index / 2;

            // The sibling of the target at this level.
            let sibling_index = if target_index % 2 == 0 {
                target_index + 1
            } else {
                target_index - 1
            };
            if sibling_index < len {
                merkle_path.push(slice_to_vec(current_level[sibling_index].as_slice()));
            } else {
                // No sibling (odd number of nodes): the node is paired with itself.
                merkle_path.push(slice_to_vec(current_level[target_index].as_slice()));
            }
            assert(byte_seqs(merkle_path@) =~= path_before.push(sibling(level, target_index as int)));

            // The next level of the tree.
            let mut next_level_hashes: Vec<[u8; 32]> = Vec::new();
            let pairs = len / 2 + len % 2;
            let mut k: usize = 0;
            while k < pairs
                invariant
                    len == current_level@.len(),
                    level == hash_seqs(current_level@),
                    pairs == (len + 1) / 2,
                    k <= pairs,
                    next_level_hashes@.len() == k,
                    forall|m: int| 0 <= m < k ==> #[trigger] next_level_hashes@[m]@ == next_level(level)[m],
                decreases pairs - k,
            {
                let i = 2 * k;
                let left = current_level[i];
                let right = if i + 1 < len {
                    current_level[i + 1]
                } else {
                    // Duplicate the last hash where the count is odd.
                    left
                };
                next_level_hashes.push(parent_of(&left, &right));
                k = k + 1;
            }
            assert(hash_seqs(next_level_hashes@) =~= next_level(level));
            assert(merkle_branch(level, target_index as int) == seq![sibling(level, target_index as int)]
                + merkle_branch(next_level(level), target_index as int / 2));
            assert(byte_seqs(merkle_path@) + merkle_branch(next_level(level), next_target_index as int)
                =~= path_before + merkle_branch(level, target_index as int));

            current_level = next_level_hashes;
            target_index = next_target_index;
        }
        merkle_path
    }
}

} // verus!
