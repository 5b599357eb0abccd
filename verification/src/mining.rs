use vstd::prelude::*;

verus! {

/// The least block weight that Bitcoin Core accepts to keep free for the coinbase.
pub const MIN_BLOCK_RESERVED_WEIGHT: u64 = 2000;

/// The options of a request for a new block template.
#[derive(Clone, Copy, Debug)]
pub struct BlockCreateOptions {
    /// Block weight kept free for the coinbase transaction.
    pub block_reserved_weight: u64,
    /// Signature operations that the coinbase outputs may add.
    pub coinbase_output_max_additional_sigops: u64,
    /// Whether the template takes transactions from the mempool.
    pub use_mempool: bool,
}

/// The block weight that coinbase outputs of `coinbase_output_max_additional_size`
/// bytes take: four weight units per byte.
pub open spec fn coinbase_weight(coinbase_output_max_additional_size: u32) -> int {
    4 * coinbase_output_max_additional_size
}

/// The options with which templates are asked of Bitcoin Core: room for the
/// coinbase outputs, never less than the node's minimum, and the mempool's
/// transactions. The size is multiplied in `u32`, so it must leave room for that.
pub fn block_create_options(
    coinbase_output_max_additional_size: u32,
    coinbase_output_max_additional_sigops: u16,
) -> (res: BlockCreateOptions)
    requires
        coinbase_weight(coinbase_output_max_additional_size) <= u32::MAX,
    ensures
        res.block_reserved_weight == if coinbase_weight(coinbase_output_max_additional_size)
            >= MIN_BLOCK_RESERVED_WEIGHT {
            coinbase_weight(coinbase_output_max_additional_size)
        } else {
            MIN_BLOCK_RESERVED_WEIGHT as int
        },
        res.coinbase_output_max_additional_sigops == coinbase_output_max_additional_sigops,
        res.use_mempool,
{
    let coinbase_weight = (coinbase_output_max_additional_size * 4) as u64;
    let block_reserved_weight = if coinbase_weight >= MIN_BLOCK_RESERVED_WEIGHT {
        coinbase_weight
    } else {
        MIN_BLOCK_RESERVED_WEIGHT
    };
    BlockCreateOptions {
        block_reserved_weight,
        coinbase_output_max_additional_sigops: coinbase_output_max_additional_sigops as u64,
        use_mempool: true,
    }
}

} // verus!
