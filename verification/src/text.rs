//! Text as sequences of characters, and pieces put together.

use vstd::prelude::*;

verus! {

/// Whether two texts hold the same characters.
pub fn same_text(a: &str, b: &str) -> (same: bool)
    ensures
        same == (a@ == b@),
{
    let left: String = a.to_owned();
    let right: String = b.to_owned();
    left == right
}

/// Flattening the first `i + 1` pieces appends piece `i` to what the first
/// `i` flatten to.
pub proof fn lemma_flatten_step<A>(pieces: Seq<Seq<A>>, i: int)
    requires
        0 <= i < pieces.len(),
    ensures
        pieces.take(i + 1).flatten() == pieces.take(i).flatten() + pieces[i],
{
    assert(pieces.take(i + 1) =~= pieces.take(i).push(pieces[i]));
    pieces.take(i).lemma_flatten_push(pieces[i]);
}

/// Where item `j` of piece `i` stands in the flattened sequence: behind
/// all items of the pieces before `i`, at place `j` of what follows.
pub proof fn lemma_flatten_locate<A>(pieces: Seq<Seq<A>>, i: int, j: int)
    requires
        0 <= i < pieces.len(),
        0 <= j < pieces[i].len(),
    ensures
        pieces.take(i).flatten().len() + j < pieces.flatten().len(),
        pieces.flatten()[pieces.take(i).flatten().len() + j] == pieces[i][j],
{
    lemma_flatten_step(pieces, i);
    assert(pieces =~= pieces.take(i + 1) + pieces.skip(i + 1));
    vstd::seq_lib::lemma_flatten_concat(pieces.take(i + 1), pieces.skip(i + 1));
}

/// The items of piece `i` stand before those of any later piece `k`.
pub proof fn lemma_flatten_offsets<A>(pieces: Seq<Seq<A>>, i: int, k: int)
    requires
        0 <= i < k <= pieces.len(),
    ensures
        pieces.take(i).flatten().len() + pieces[i].len() <= pieces.take(k).flatten().len(),
{
    lemma_flatten_step(pieces, i);
    assert(pieces.take(k) =~= pieces.take(i + 1) + pieces.subrange(i + 1, k));
    vstd::seq_lib::lemma_flatten_concat(pieces.take(i + 1), pieces.subrange(i + 1, k));
}

} // verus!
