//! Joining pieces of text.

use vstd::prelude::*;
use vstd::string::*;
use crate::model::texts;

verus! {

/// The pieces in order, with the separator between each two neighbours.
pub open spec fn joined(parts: Seq<Seq<char>>, separator: Seq<char>) -> Seq<char>
    decreases parts.len(),
{
    if parts.len() == 0 {
        Seq::empty()
    } else if parts.len() == 1 {
        parts[0]
    } else {
        joined(parts.drop_last(), separator) + separator + parts.last()
    }
}

/// The pieces in order, with nothing between them.
pub open spec fn concatenated(parts: Seq<Seq<char>>) -> Seq<char>
    decreases parts.len(),
{
    if parts.len() == 0 {
        Seq::empty()
    } else {
        concatenated(parts.drop_last()) + parts.last()
    }
}

/// `head` followed by `tail`.
pub fn append(head: &str, tail: &str) -> (whole: String)
    ensures
        whole@ == head@ + tail@,
{
    let mut whole = String::from_str(head);
    whole.append(tail);
    whole
}

/// Joins the pieces with the separator between each two neighbours.
pub fn join(parts: &Vec<String>, separator: &str) -> (whole: String)
    ensures
        whole@ == joined(texts(parts@), separator@),
{
    let mut whole = String::new();
    let mut i: usize = 0;
    while i < parts.len()
        invariant
            i <= parts.len(),
            whole@ == joined(texts(parts@).take(i as int), separator@),
        decreases parts.len() - i,
    {
        proof {
            let next = texts(parts@).take(i + 1);
            assert(next.drop_last() =~= texts(parts@).take(i as int));
            assert(next.last() == parts@[i as int]@);
            if i == 0 {
                assert(whole@ + parts@[i as int]@ =~= parts@[i as int]@);
            }
        }
        if i > 0 {
            whole.append(separator);
        }
        whole.append(parts[i].as_str());
        i += 1;
    }
    assert(texts(parts@).take(i as int) =~= texts(parts@));
    whole
}

/// A single piece concatenates to itself.
pub proof fn lemma_concatenated_one(piece: Seq<char>)
    ensures
        concatenated(seq![piece]) == piece,
{
    reveal_with_fuel(concatenated, 3);
    assert(seq![piece].drop_last() =~= Seq::<Seq<char>>::empty());
    assert(concatenated(seq![piece]) =~= piece);
}

/// Concatenating after putting one piece in front is putting that piece in
/// front of the concatenation.
pub proof fn lemma_concatenated_front(first: Seq<char>, rest: Seq<Seq<char>>)
    ensures
        concatenated(seq![first] + rest) == first + concatenated(rest),
    decreases rest.len(),
{
    reveal_with_fuel(concatenated, 3);
    let all = seq![first] + rest;
    if rest.len() == 0 {
        assert(all.drop_last() =~= Seq::<Seq<char>>::empty());
        assert(concatenated(all) =~= first + concatenated(rest));
    } else {
        assert(all.drop_last() =~= seq![first] + rest.drop_last());
        assert(all.last() == rest.last());
        lemma_concatenated_front(first, rest.drop_last());
        assert(concatenated(all) =~= first + concatenated(rest));
    }
}

} // verus!
