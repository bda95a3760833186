//! Putting pieces of text together.

use vstd::prelude::*;
use vstd::string::*;

verus! {

/// The pieces one after another, with nothing between them.
pub open spec fn flattened(pieces: Seq<Seq<char>>) -> Seq<char>
    decreases pieces.len(),
{
    if pieces.len() == 0 {
        Seq::empty()
    } else {
        flattened(pieces.drop_last()) + pieces.last()
    }
}

/// The pieces one after another, with a line feed between each two.
pub open spec fn joined_lines(pieces: Seq<Seq<char>>) -> Seq<char>
    decreases pieces.len(),
{
    if pieces.len() == 0 {
        Seq::empty()
    } else if pieces.len() == 1 {
        pieces[0]
    } else {
        joined_lines(pieces.drop_last()) + seq!['\n'] + pieces.last()
    }
}

/// Concatenates the pieces in their order, adding nothing.
pub fn flatten(pieces: &Vec<String>) -> (text: String)
    ensures
        text@ == flattened(pieces.deep_view()),
{
    let ghost all = pieces.deep_view();
    let mut text = String::new();
    let mut i: usize = 0;
    while i < pieces.len()
        invariant
            i <= pieces.len(),
            all == pieces.deep_view(),
            text@ == flattened(all.take(i as int)),
        decreases pieces.len() - i,
    {
        proof {
            assert(all.take(i + 1).drop_last() == all.take(i as int));
            assert(all.take(i + 1).last() == pieces@[i as int]@);
        }
        text.append(pieces[i].as_str());
        i = i + 1;
    }
    proof {
        assert(all.take(i as int) == all);
    }
    text
}

/// Concatenates the pieces in their order, with a line feed between each two.
pub fn join_lines(pieces: &Vec<String>) -> (text: String)
    ensures
        text@ == joined_lines(pieces.deep_view()),
{
    let ghost all = pieces.deep_view();
    let mut text = String::new();
    let mut i: usize = 0;
    while i < pieces.len()
        invariant
            i <= pieces.len(),
            all == pieces.deep_view(),
            text@ == joined_lines(all.take(i as int)),
        decreases pieces.len() - i,
    {
        proof {
            reveal_strlit("\n");
            assert("\n"@ == seq!['\n']);
            assert(all.take(i + 1).drop_last() == all.take(i as int));
            assert(all.take(i + 1).last() == pieces@[i as int]@);
            assert(i == 0 ==> all.take(i + 1)[0] == pieces@[i as int]@);
        }
        if i > 0 {
            text.append("\n");
        }
        text.append(pieces[i].as_str());
        i = i + 1;
    }
    proof {
        assert(all.take(i as int) == all);
    }
    text
}

} // verus!
