use vstd::prelude::*;

verus! {

/// Whether `piece` stands somewhere in `text`, unbroken.
pub open spec fn occurs_in(piece: Seq<char>, text: Seq<char>) -> bool {
    exists|k: int|
        0 <= k && k + piece.len() <= text.len() && #[trigger] text.subrange(k, k + piece.len())
            == piece
}

/// A piece occurs in whatever is written around it.
pub proof fn lemma_occurs_between(before: Seq<char>, piece: Seq<char>, after: Seq<char>)
    ensures
        occurs_in(piece, before + piece + after),
{
    let text = before + piece + after;
    let start = before.len() as int;
    assert(text.subrange(start, start + piece.len()) =~= piece);
}

} // verus!
