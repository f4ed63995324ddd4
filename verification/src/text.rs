//! Texts: runs of characters, and lines joined into one text.

use vstd::prelude::*;

verus! {

/// `String::push` appends one character and leaves the rest as it was, as
/// its documentation says.
pub assume_specification[ String::push ](text: &mut String, ch: char)
    ensures
        final(text)@ == old(text)@.push(ch),
;

/// The character that ends each line.
pub const LINE_END: char = '\n';

/// The characters of each of a run of texts.
pub open spec fn texts(lines: Seq<String>) -> Seq<Seq<char>> {
    Seq::new(lines.len(), |i: int| lines[i]@)
}

/// The lines one after another, each followed by a line end.
pub open spec fn terminated(lines: Seq<Seq<char>>) -> Seq<char>
    decreases lines.len(),
{
    if lines.len() == 0 {
        Seq::empty()
    } else {
        terminated(lines.drop_last()) + lines.last() + seq![LINE_END]
    }
}

/// Joins lines into one text, ending each with a line end.
pub fn join_lines(lines: &Vec<String>) -> (text: String)
    ensures
        text@ == terminated(texts(lines@)),
{
    let ghost all = texts(lines@);
    let mut text = String::new();
    let mut i: usize = 0;
    assert(all.take(0) =~= Seq::<Seq<char>>::empty());
    while i < lines.len()
        invariant
            i <= lines.len(),
            all == texts(lines@),
            text@ == terminated(all.take(i as int)),
        decreases lines.len() - i,
    {
        proof {
            assert(all.take(i + 1).drop_last() =~= all.take(i as int));
            assert(all.take(i + 1).last() == lines@[i as int]@);
        }
        text.append(lines[i].as_str());
        text.push(LINE_END);
        i = i + 1;
    }
    assert(all.take(i as int) =~= all);
    text
}

/// A joined text has at least one character for each line, and ends with
/// a line end where there is any line.
pub proof fn lemma_terminated_len(lines: Seq<Seq<char>>)
    ensures
        terminated(lines).len() >= lines.len(),
        lines.len() > 0 ==> terminated(lines).last() == LINE_END,
    decreases lines.len(),
{
    if lines.len() > 0 {
        lemma_terminated_len(lines.drop_last());
    }
}

} // verus!
