use vstd::prelude::*;
use vstd::slice::slice_to_vec;

verus! {

/// The double SHA-256 digest of `data`, as the `bitcoin_hashes` crate computes it.
pub uninterp spec fn spec_sha256d(data: Seq<u8>) -> Seq<u8>;

/// Calls `sha256d::Hash::hash` of `bitcoin_hashes` (re-exported by `roles_logic_sv2`)
/// and returns the digest's bytes in their internal order.
/// Claimed: the bytes are the double SHA-256 of `data`, named by `spec_sha256d`
/// (the function is deterministic); the 32-byte length is the result's type.
#[verifier::external_body]
fn sha256d(data: &[u8]) -> (res: [u8; 32])
    ensures
        res@ == spec_sha256d(data@),
{
    let digest: roles_logic_sv2::bitcoin::hashes::sha256d::Hash =
        roles_logic_sv2::bitcoin::hashes::Hash::hash(data);
    roles_logic_sv2::bitcoin::hashes::Hash::to_byte_array(digest)
}

/// The node above `left` and `right` in a Bitcoin merkle tree: the double
/// SHA-256 of the two hashes one after the other.
pub open spec fn parent_hash(left: Seq<u8>, right: Seq<u8>) -> Seq<u8> {
    spec_sha256d(left + right)
}

/// The bytes of each hash of a level.
pub open spec fn hash_seqs(hashes: Seq<[u8; 32]>) -> Seq<Seq<u8>> {
    hashes.map_values(|h: [u8; 32]| h@)
}

/// The level above `level` in a Bitcoin merkle tree: nodes are paired from the
/// left, and a last node without a partner is paired with itself.
pub open spec fn next_level(level: Seq<Seq<u8>>) -> Seq<Seq<u8>> {
    Seq::new(
        ((level.len() + 1) / 2) as nat,
        |i: int|
            parent_hash(
                level[2 * i],
                if 2 * i + 1 < level.len() {
                    level[2 * i + 1]
                } else {
                    level[2 * i]
                },
            ),
    )
}

/// The node that is combined with the node at `index` to form its parent: its
/// neighbour in the pair, or the node itself where that neighbour is missing.
pub open spec fn sibling(level: Seq<Seq<u8>>, index: int) -> Seq<u8> {
    let s = if index % 2 == 0 {
        index + 1
    } else {
        index - 1
    };
    if s < level.len() {
        level[s]
    } else {
        level[index]
    }
}

/// The merkle branch of the node at `index`: the sibling at each level, from the
/// leaves up to (not including) the root.
pub open spec fn merkle_branch(level: Seq<Seq<u8>>, index: int) -> Seq<Seq<u8>>
    decreases level.len(),
{
    if level.len() <= 1 {
        Seq::empty()
    } else {
        seq![sibling(level, index)] + merkle_branch(next_level(level), index / 2)
    }
}

/// The number of levels above `n` leaves before a single node is left: the
/// ceiling of the base-2 logarithm of `n`, and 0 for at most one leaf.
pub open spec fn tree_height(n: nat) -> nat
    decreases n,
{
    if n <= 1 {
        0
    } else {
        1 + tree_height(((n + 1) / 2) as nat)
    }
}

/// A merkle branch holds one node per level of the tree above the leaves.
pub proof fn lemma_branch_length(level: Seq<Seq<u8>>, index: int)
    ensures
        merkle_branch(level, index).len() == tree_height(level.len()),
    decreases level.len(),
{
    if level.len() > 1 {
        lemma_branch_length(next_level(level), index / 2);
    }
}

/// Every tree of at most `2^h` leaves has height at most `h`, and more than
/// `2^(h-1)` leaves give height `h` exactly.
pub proof fn lemma_tree_height_bounds(n: nat)
    requires
        n >= 1,
    ensures
        n <= vstd::arithmetic::power2::pow2(tree_height(n)),
        tree_height(n) > 0 ==> vstd::arithmetic::power2::pow2((tree_height(n) - 1) as nat) < n,
    decreases n,
{
    vstd::arithmetic::power2::lemma2_to64();
    if n > 1 {
        let m = ((n + 1) / 2) as nat;
        lemma_tree_height_bounds(m);
        vstd::arithmetic::power2::lemma_pow2_unfold(tree_height(n));
        if tree_height(m) > 0 {
            vstd::arithmetic::power2::lemma_pow2_unfold(tree_height(m));
        }
    }
}

/// The merkle root of a non-empty level of leaves.
pub open spec fn merkle_root(level: Seq<Seq<u8>>) -> Seq<u8>
    decreases level.len(),
{
    if level.len() <= 1 {
        level[0]
    } else {
        merkle_root(next_level(level))
    }
}

/// Climbs from `leaf`, the node at `index`, through `branch`: at each step the
/// node is the left child when its index is even and the right child otherwise.
pub open spec fn fold_branch(leaf: Seq<u8>, branch: Seq<Seq<u8>>, index: int) -> Seq<u8>
    decreases branch.len(),
{
    if branch.len() == 0 {
        leaf
    } else {
        let up = if index % 2 == 0 {
            parent_hash(leaf, branch[0])
        } else {
            parent_hash(branch[0], leaf)
        };
        fold_branch(up, branch.drop_first(), index / 2)
    }
}

/// Folding a leaf with its merkle branch gives the merkle root of the level: the
/// branch is exactly what a holder of that one leaf needs to rebuild the root.
pub proof fn lemma_branch_rebuilds_root(level: Seq<Seq<u8>>, index: int)
    requires
        0 <= index < level.len(),
    ensures
        fold_branch(level[index], merkle_branch(level, index), index) == merkle_root(level),
    decreases level.len(),
{
    if level.len() > 1 {
        let next = next_level(level);
        let branch = merkle_branch(level, index);
        assert(branch.drop_first() =~= merkle_branch(next, index / 2));
        assert(branch[0] == sibling(level, index));
        let up = if index % 2 == 0 {
            parent_hash(level[index], branch[0])
        } else {
            parent_hash(branch[0], level[index])
        };
        assert(2 * (index / 2) == index || 2 * (index / 2) + 1 == index);
        assert(next[index / 2] == up);
        lemma_branch_rebuilds_root(next, index / 2);
    }
}

/// The parent of two hashes: the double SHA-256 of `left` followed by `right`.
pub fn parent_of(left: &[u8; 32], right: &[u8; 32]) -> (res: [u8; 32])
    ensures
        res@ == parent_hash(left@, right@),
{
    let mut data = slice_to_vec(left.as_slice());
    let mut tail = slice_to_vec(right.as_slice());
    data.append(&mut tail);
    sha256d(data.as_slice())
}

} // verus!
