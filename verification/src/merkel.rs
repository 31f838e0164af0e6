//! Merkle roots over lists of hashes.

use crate::hashing::{hash_of, HashMaker};
use vstd::prelude::*;
use vstd::string::*;

verus! {

/// The root of an empty list.
pub open spec fn empty_root() -> Seq<char> {
    "First"@
}

/// One level up: neighbours are joined and hashed; a last hash without a
/// neighbour is joined with itself.
pub open spec fn merkle_level(hashes: Seq<Seq<char>>) -> Seq<Seq<char>> {
    Seq::new(
        (hashes.len() / 2 + hashes.len() % 2) as nat,
        |k: int|
            if 2 * k + 1 < hashes.len() {
                hash_of(hashes[2 * k] + hashes[2 * k + 1])
            } else {
                hash_of(hashes[2 * k] + hashes[2 * k])
            },
    )
}

/// The root: the marker of the empty list, a single hash itself, or the
/// root of the level above.
pub open spec fn merkle_root(hashes: Seq<Seq<char>>) -> Seq<char>
    decreases hashes.len(),
{
    if hashes.len() == 0 {
        empty_root()
    } else if hashes.len() == 1 {
        hashes[0]
    } else {
        merkle_root(merkle_level(hashes))
    }
}

/// The root of two hashes is the hash of their join.
pub proof fn lemma_root_of_pair(a: Seq<char>, b: Seq<char>)
    ensures
        merkle_root(seq![a, b]) == hash_of(a + b),
{
    let pair = seq![a, b];
    assert(merkle_level(pair) =~= seq![hash_of(a + b)]);
    assert(merkle_root(pair) == merkle_root(merkle_level(pair)));
}

/// Makes Merkle roots.
pub struct MerkelRoot;

impl MerkelRoot {
    /// The Merkle root of the hashes, in their order.
    pub fn make(hashes: &Vec<String>) -> (root: String)
        ensures
            root@ == merkle_root(hashes.deep_view()),
    {
        if hashes.len() == 0 {
            return String::from_str("First");
        }
        let mut level: Vec<String> = hashes.clone();
        assert(level.deep_view() =~= hashes.deep_view());
        while level.len() > 1
            invariant
                level.len() >= 1,
                merkle_root(level.deep_view()) == merkle_root(hashes.deep_view()),
            decreases level.len(),
        {
            let pairs: usize = level.len() / 2 + level.len() % 2;
            let mut next: Vec<String> = Vec::new();
            let mut k: usize = 0;
            while k < pairs
                invariant
                    k <= pairs,
                    pairs == level.len() / 2 + level.len() % 2,
                    next.len() == k,
                    next.deep_view() =~= merkle_level(level.deep_view()).take(k as int),
                decreases pairs - k,
            {
                let left: usize = 2 * k;
                let mut joined = level[left].clone();
                if left + 1 < level.len() {
                    joined.append(level[left + 1].as_str());
                } else {
                    joined.append(level[left].as_str());
                }
                let parent = HashMaker::generate(&joined);
                assert(parent@ == merkle_level(level.deep_view())[k as int]);
                next.push(parent);
                k += 1;
            }
            assert(next.deep_view() =~= merkle_level(level.deep_view()));
            level = next;
        }
        let root = level[0].clone();
        assert(level.deep_view()[0] == level[0]@);
        root
    }

    /// The root of exactly two hashes: the hash of their join.
    pub fn pair(a: &String, b: &String) -> (root: String)
        ensures
            root@ == merkle_root(seq![a@, b@]),
            root@ == hash_of(a@ + b@),
    {
        let mut joined = a.clone();
        joined.append(b.as_str());
        proof {
            lemma_root_of_pair(a@, b@);
        }
        HashMaker::generate(&joined)
    }
}

} // verus!
