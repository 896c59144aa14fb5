//! Splitting and joining text on a separator character.

use vstd::prelude::*;

verus! {

/// The pieces of `s` that lie between the occurrences of `sep`, in order.
///
/// Read from left to right: a separator closes the piece that is being read
/// and opens a new, empty one; any other character extends the last piece.
/// Pieces are never trimmed, merged or dropped, so a text without a
/// separator is its own single piece and the empty text has one empty piece.
pub open spec fn split_on(s: Seq<char>, sep: char) -> Seq<Seq<char>>
    decreases s.len(),
{
    if s.len() == 0 {
        seq![Seq::empty()]
    } else {
        let before = split_on(s.drop_last(), sep);
        if s.last() == sep {
            before.push(Seq::empty())
        } else {
            before.update(before.len() - 1, before.last().push(s.last()))
        }
    }
}

/// The pieces written one after another with `sep` between neighbours.
pub open spec fn join_with(pieces: Seq<Seq<char>>, sep: char) -> Seq<char>
    decreases pieces.len(),
{
    if pieces.len() == 0 {
        Seq::empty()
    } else if pieces.len() == 1 {
        pieces[0]
    } else {
        join_with(pieces.drop_last(), sep).push(sep) + pieces.last()
    }
}

/// No piece holds the separator.
pub open spec fn separator_free(pieces: Seq<Seq<char>>, sep: char) -> bool {
    forall|i: int| 0 <= i < pieces.len() ==> !(#[trigger] pieces[i]).contains(sep)
}

/// A split always has at least one piece.
pub proof fn lemma_split_nonempty(s: Seq<char>, sep: char)
    ensures
        split_on(s, sep).len() >= 1,
    decreases s.len(),
{
    if s.len() > 0 {
        lemma_split_nonempty(s.drop_last(), sep);
    }
}

/// A split has one piece more than the text has separators: no piece is
/// dropped and none are merged.
pub proof fn lemma_split_count(s: Seq<char>, sep: char)
    ensures
        split_on(s, sep).len() == s.to_multiset().count(sep) + 1,
    decreases s.len(),
{
    broadcast use vstd::multiset::group_multiset_axioms;

    if s.len() == 0 {
        s.to_multiset_ensures();
    } else {
        let t = s.drop_last();
        lemma_split_count(t, sep);
        lemma_split_nonempty(t, sep);
        assert(s =~= t.push(s.last()));
        vstd::seq_lib::to_multiset_build(t, s.last());
    }
}

/// The pieces of a split do not hold the separator.
pub proof fn lemma_split_separator_free(s: Seq<char>, sep: char)
    ensures
        separator_free(split_on(s, sep), sep),
    decreases s.len(),
{
    if s.len() > 0 {
        let pieces = split_on(s, sep);
        let before = split_on(s.drop_last(), sep);
        lemma_split_nonempty(s.drop_last(), sep);
        lemma_split_separator_free(s.drop_last(), sep);
        assert forall|i: int| 0 <= i < pieces.len() implies !(#[trigger] pieces[i]).contains(sep) by {
            if s.last() != sep && i == before.len() - 1 && pieces[i].contains(sep) {
                // the separator would already stand in the piece that was extended
                let k = choose|k: int| 0 <= k < pieces[i].len() && pieces[i][k] == sep;
                assert(before[i][k] == sep);
            }
        }
    }
}

/// Joining the pieces of a split gives the text back: nothing is lost.
pub proof fn lemma_join_of_split(s: Seq<char>, sep: char)
    ensures
        join_with(split_on(s, sep), sep) == s,
    decreases s.len(),
{
    if s.len() > 0 {
        let pieces = split_on(s, sep);
        let before = split_on(s.drop_last(), sep);
        lemma_split_nonempty(s.drop_last(), sep);
        lemma_join_of_split(s.drop_last(), sep);
        if s.last() == sep {
            assert(pieces.drop_last() =~= before);
        } else if before.len() > 1 {
            let front = join_with(before.drop_last(), sep).push(sep);
            assert(pieces.drop_last() =~= before.drop_last());
            assert(front + before.last().push(s.last()) =~= (front + before.last()).push(s.last()));
        }
    }
}

/// Splitting is the only way back from a join: a text that is the join of
/// separator-free pieces, at least one of them, splits into exactly those
/// pieces.
pub proof fn lemma_split_of_join(pieces: Seq<Seq<char>>, sep: char)
    requires
        pieces.len() >= 1,
        separator_free(pieces, sep),
    ensures
        split_on(join_with(pieces, sep), sep) == pieces,
    decreases join_with(pieces, sep).len(),
{
    let s = join_with(pieces, sep);
    let last = pieces.last();
    if last.len() > 0 {
        // the text ends in the last character of the last piece
        let shorter = pieces.update(pieces.len() - 1, last.drop_last());
        assert(shorter.drop_last() =~= pieces.drop_last());
        assert(join_with(shorter, sep) =~= s.drop_last());
        assert(last.contains(last.last()));
        assert forall|i: int| 0 <= i < shorter.len() implies !(#[trigger] shorter[i]).contains(sep) by {
            if shorter[i].contains(sep) {
                let k = choose|k: int| 0 <= k < shorter[i].len() && shorter[i][k] == sep;
                assert(pieces[i][k] == sep);
            }
        }
        lemma_split_of_join(shorter, sep);
        assert(last.drop_last().push(last.last()) =~= last);
    } else if pieces.len() == 1 {
        // the text is empty
        assert(pieces[0] =~= Seq::<char>::empty());
    } else {
        // the text ends in the separator before the last, empty piece
        let front = pieces.drop_last();
        assert(s.drop_last() =~= join_with(front, sep));
        assert forall|i: int| 0 <= i < front.len() implies !(#[trigger] front[i]).contains(sep) by {
            assert(front[i] == pieces[i]);
        }
        lemma_split_of_join(front, sep);
        assert(last =~= Seq::<char>::empty());
    }
}

/// What `{:?}` writes for a string of the characters `s`: the string in
/// double quotes, with the characters that cannot stand there escaped.
pub uninterp spec fn debug_text(s: Seq<char>) -> Seq<char>;

/// Formats `s` with `{:?}`, that is through `str`'s `Debug` impl, which
/// depends on the characters of `s` alone.
#[verifier::external_body]
pub(crate) fn debug_quoted(s: &str) -> (quoted: String)
    ensures
        quoted@ == debug_text(s@),
{
    format!("{:?}", s)
}

/// `String::push` appends one character to the end of the string.
pub assume_specification[ String::push ](s: &mut String, c: char)
    ensures
        final(s)@ == old(s)@.push(c),
;

/// Splits `text` on every `sep`, keeping each piece as it stands.
///
/// The pieces hold no separator, and joined with the separator they give
/// `text` back; by [`lemma_split_of_join`] no other list of pieces does.
pub fn split(text: &str, sep: char) -> (pieces: Vec<String>)
    ensures
        pieces.deep_view() == split_on(text@, sep),
        pieces.len() >= 1,
        separator_free(pieces.deep_view(), sep),
        join_with(pieces.deep_view(), sep) == text@,
{
    let mut done: Vec<String> = Vec::new();
    let mut current = String::new();
    for c in it: text.chars()
        invariant
            it.seq() == text@,
            done.deep_view().push(current@) == split_on(text@.take(it.index()), sep),
    {
        let ghost before = done.deep_view();
        let ghost piece = current@;
        assert(text@.take(it.index() + 1).drop_last() =~= text@.take(it.index()));
        if c == sep {
            done.push(current);
            current = String::new();
        } else {
            current.push(c);
            assert(done.deep_view().push(current@) =~= before.push(piece).update(
                before.len() as int,
                piece.push(c),
            ));
        }
    }
    assert(text@.take(text@.len() as int) =~= text@);
    done.push(current);
    proof {
        lemma_split_nonempty(text@, sep);
        lemma_split_separator_free(text@, sep);
        lemma_join_of_split(text@, sep);
    }
    done
}

} // verus!
