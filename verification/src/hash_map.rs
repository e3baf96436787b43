//! The scripted map states of the hash-map walkthrough, in a fixed order.
//!
//! A hash map iterates in an unspecified, per-process order, so printing
//! one directly can make two invocations of the very same walkthrough
//! print different text. Each map state the walkthrough shows is therefore
//! pinned here as a pair list in insertion order — an overwrite keeps its
//! key's place, a removal closes the gap — and the walkthrough prints
//! these lists.

use vstd::prelude::*;

verus! {

/// A pair list with each key read as its characters.
pub open spec fn spec_pairs_model(pairs: Seq<(&'static str, i32)>) -> Seq<(Seq<char>, i32)> {
    pairs.map_values(|p: (&'static str, i32)| (p.0@, p.1))
}

/// The scores as first created: Blue 10, then Red 50.
pub open spec fn spec_initial_scores() -> Seq<(Seq<char>, i32)> {
    seq![("Blue"@, 10), ("Red"@, 50)]
}

/// The scores as first created.
pub fn initial_scores() -> (pairs: Vec<(&'static str, i32)>)
    ensures
        spec_pairs_model(pairs@) == spec_initial_scores(),
{
    let mut pairs: Vec<(&'static str, i32)> = Vec::new();
    pairs.push(("Blue", 10));
    pairs.push(("Red", 50));
    proof {
        assert(spec_pairs_model(pairs@) =~= spec_initial_scores());
    }
    pairs
}

/// The scores after the updates: Blue overwritten to 25 in place, Yellow
/// appended with 50, and Blue's second, conditional insert changing
/// nothing.
pub open spec fn spec_updated_scores() -> Seq<(Seq<char>, i32)> {
    seq![("Blue"@, 25), ("Red"@, 50), ("Yellow"@, 50)]
}

/// The scores after the updates.
pub fn updated_scores() -> (pairs: Vec<(&'static str, i32)>)
    ensures
        spec_pairs_model(pairs@) == spec_updated_scores(),
{
    let mut pairs: Vec<(&'static str, i32)> = Vec::new();
    pairs.push(("Blue", 25));
    pairs.push(("Red", 50));
    pairs.push(("Yellow", 50));
    proof {
        assert(spec_pairs_model(pairs@) =~= spec_updated_scores());
    }
    pairs
}

/// The scores after Red is removed: the remaining pairs, order kept.
pub open spec fn spec_final_scores() -> Seq<(Seq<char>, i32)> {
    seq![("Blue"@, 25), ("Yellow"@, 50)]
}

/// The scores after Red is removed.
pub fn final_scores() -> (pairs: Vec<(&'static str, i32)>)
    ensures
        spec_pairs_model(pairs@) == spec_final_scores(),
{
    let mut pairs: Vec<(&'static str, i32)> = Vec::new();
    pairs.push(("Blue", 25));
    pairs.push(("Yellow", 50));
    proof {
        assert(spec_pairs_model(pairs@) =~= spec_final_scores());
    }
    pairs
}

} // verus!
