//! The Merkle model: how a leaf and its authentication path lead to a root,
//! and the trees whose paths lead back to their root.

use vstd::prelude::*;
use crate::digest::{H256, sha256_of};

verus! {

/// The hashes of an authentication path, leaf side first.
pub open spec fn path_view(path: Seq<H256>) -> Seq<Seq<u8>> {
    path.map_values(|h: H256| h@)
}

/// The parent of two nodes: the hash of the left child followed by the right.
pub open spec fn node_hash(left: Seq<u8>, right: Seq<u8>) -> Seq<u8> {
    sha256_of(left + right)
}

/// The node reached from `current` by climbing along `path`; bit `k` of
/// `index` tells whether the node at step `k` is a left (0) or right (1) child.
pub open spec fn climb(current: Seq<u8>, path: Seq<Seq<u8>>, index: nat) -> Seq<u8>
    decreases path.len(),
{
    if path.len() == 0 {
        current
    } else {
        let next = if index % 2 == 0 {
            node_hash(current, path[0])
        } else {
            node_hash(path[0], current)
        };
        climb(next, path.drop_first(), index / 2)
    }
}

/// The root that a leaf's data and its path lead to.
pub open spec fn path_root(data: Seq<u8>, path: Seq<Seq<u8>>, index: nat) -> Seq<u8> {
    climb(sha256_of(data), path, index)
}

/// Whether `data` at position `index` authenticates against `root` along `path`.
pub open spec fn merkle_accepts(data: Seq<u8>, path: Seq<Seq<u8>>, index: nat, root: Seq<u8>) -> bool {
    path_root(data, path, index) == root
}

/// The number of leaves of a perfect binary tree of the given depth.
pub open spec fn leaves_at_depth(depth: nat) -> nat
    decreases depth,
{
    if depth == 0 {
        1
    } else {
        2 * leaves_at_depth((depth - 1) as nat)
    }
}

/// The level above `level`: each pair of neighbours hashed together.
pub open spec fn parent_level(level: Seq<Seq<u8>>) -> Seq<Seq<u8>> {
    Seq::new(level.len() / 2, |k: int| node_hash(level[2 * k], level[2 * k + 1]))
}

/// The root of the tree whose bottom level is `level`.
pub open spec fn tree_root(level: Seq<Seq<u8>>) -> Seq<u8>
    decreases level.len(),
{
    if level.len() <= 1 {
        level[0]
    } else {
        tree_root(parent_level(level))
    }
}

/// The position of the node that shares a parent with node `i`.
pub open spec fn sibling_of(i: nat) -> nat {
    if i % 2 == 0 {
        i + 1
    } else {
        (i - 1) as nat
    }
}

/// The authentication path of node `i` of `level`: its sibling, then the path
/// of its parent one level up.
pub open spec fn tree_path(level: Seq<Seq<u8>>, i: nat) -> Seq<Seq<u8>>
    decreases level.len(),
{
    if level.len() <= 1 {
        Seq::empty()
    } else {
        seq![level[sibling_of(i) as int]].add(tree_path(parent_level(level), i / 2))
    }
}

/// The bottom level of the tree over `leaves`: the hash of each leaf.
pub open spec fn leaf_level(leaves: Seq<Seq<u8>>) -> Seq<Seq<u8>> {
    leaves.map_values(|d: Seq<u8>| sha256_of(d))
}

proof fn lemma_climb_tree(level: Seq<Seq<u8>>, depth: nat, i: nat)
    requires
        level.len() == leaves_at_depth(depth),
        i < level.len(),
    ensures
        climb(level[i as int], tree_path(level, i), i) == tree_root(level),
    decreases depth,
{
    if depth > 0 {
        let up = parent_level(level);
        let half = leaves_at_depth((depth - 1) as nat);
        assert(level.len() == 2 * half);
        assert(half >= 1) by {
            lemma_leaves_positive((depth - 1) as nat);
        }
        assert(up.len() == half);
        let path = tree_path(level, i);
        assert(path[0] == level[sibling_of(i) as int]);
        assert(path.drop_first() =~= tree_path(up, i / 2));
        let k = i / 2;
        if i % 2 == 0 {
            assert(2 * k == i);
            assert(up[k as int] == node_hash(level[i as int], level[i as int + 1]));
        } else {
            assert(2 * k + 1 == i);
            assert(up[k as int] == node_hash(level[i as int - 1], level[i as int]));
        }
        lemma_climb_tree(up, (depth - 1) as nat, k);
    }
}

proof fn lemma_leaves_positive(depth: nat)
    ensures
        leaves_at_depth(depth) >= 1,
    decreases depth,
{
    if depth > 0 {
        lemma_leaves_positive((depth - 1) as nat);
    }
}

/// In a perfect tree built over `leaves` by pairwise hashing, every leaf's
/// data together with its authentication path is accepted against the root.
pub proof fn lemma_merkle_round_trip(leaves: Seq<Seq<u8>>, depth: nat, i: nat)
    requires
        leaves.len() == leaves_at_depth(depth),
        i < leaves.len(),
    ensures
        merkle_accepts(
            leaves[i as int],
            tree_path(leaf_level(leaves), i),
            i,
            tree_root(leaf_level(leaves)),
        ),
{
    lemma_climb_tree(leaf_level(leaves), depth, i);
}

} // verus!
