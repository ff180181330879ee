//! Splitting text at a separator.

use vstd::prelude::*;

verus! {

/// `String::push` appends one character at the end of the string.
pub assume_specification[ String::push ](s: &mut String, c: char)
    ensures
        final(s)@ == old(s)@.push(c),
;

/// The pieces of `text` between the occurrences of `separator`, from left to right. There is
/// always one piece more than there are separators, so an empty text is one empty piece.
pub open spec fn split_at(text: Seq<char>, separator: char) -> Seq<Seq<char>>
    decreases text.len(),
{
    if text.len() == 0 {
        seq![Seq::empty()]
    } else {
        let front = split_at(text.drop_last(), separator);
        if text.last() == separator {
            front.push(Seq::empty())
        } else {
            front.drop_last().push(front.last().push(text.last()))
        }
    }
}

/// The pieces written one after another with `separator` between each two.
pub open spec fn join_with(pieces: Seq<Seq<char>>, separator: char) -> Seq<char>
    decreases pieces.len(),
{
    if pieces.len() == 0 {
        Seq::empty()
    } else if pieces.len() == 1 {
        pieces[0]
    } else {
        join_with(pieces.drop_last(), separator).push(separator) + pieces.last()
    }
}

/// Whether `separator` does not occur in `piece`.
pub open spec fn free_of(piece: Seq<char>, separator: char) -> bool {
    !piece.contains(separator)
}

/// What a list of strings says, string by string.
pub open spec fn texts(strings: Seq<String>) -> Seq<Seq<char>> {
    Seq::new(strings.len(), |i: int| strings[i]@)
}

/// Splits `text` at every `separator`. Nothing is trimmed, and empty pieces are kept.
pub fn split(text: &str, separator: char) -> (pieces: Vec<String>)
    ensures
        texts(pieces@) == split_at(text@, separator),
{
    let mut pieces: Vec<String> = Vec::new();
    let mut current: String = String::new();
    assert(texts(pieces@).push(current@) =~= split_at(text@.take(0), separator));
    for c in chars: text.chars()
        invariant
            chars.seq() == text@,
            texts(pieces@).push(current@) == split_at(text@.take(chars.index()), separator),
    {
        let ghost seen = text@.take(chars.index() + 1);
        let ghost before = texts(pieces@).push(current@);
        assert(seen.drop_last() =~= text@.take(chars.index()));
        if c == separator {
            pieces.push(current);
            current = String::new();
            assert(texts(pieces@) =~= before);
        } else {
            current.push(c);
            assert(before.drop_last() =~= texts(pieces@));
        }
    }
    assert(text@.take(text@.len() as int) =~= text@);
    let ghost before = texts(pieces@).push(current@);
    pieces.push(current);
    assert(texts(pieces@) =~= before);
    pieces
}

/// Joining the pieces of a text gives the text back.
pub proof fn law_join_undoes_split(text: Seq<char>, separator: char)
    ensures
        join_with(split_at(text, separator), separator) == text,
        split_at(text, separator).len() >= 1,
    decreases text.len(),
{
    if text.len() > 0 {
        let front = split_at(text.drop_last(), separator);
        let pieces = split_at(text, separator);
        law_join_undoes_split(text.drop_last(), separator);
        if text.last() == separator {
            assert(pieces.drop_last() =~= front);
        } else {
            assert(pieces.drop_last() =~= front.drop_last());
        }
        assert(text =~= text.drop_last().push(text.last()));
        assert(join_with(pieces, separator) =~= text);
    }
}

/// No piece of a text holds the separator that the text was split at.
pub proof fn law_pieces_hold_no_separator(text: Seq<char>, separator: char)
    ensures
        forall|i: int|
            0 <= i < split_at(text, separator).len() ==> free_of(
                #[trigger] split_at(text, separator)[i],
                separator,
            ),
    decreases text.len(),
{
    if text.len() > 0 {
        let front = split_at(text.drop_last(), separator);
        law_pieces_hold_no_separator(text.drop_last(), separator);
        law_join_undoes_split(text.drop_last(), separator);
        assert forall|i: int| 0 <= i < split_at(text, separator).len() implies free_of(
            #[trigger] split_at(text, separator)[i],
            separator,
        ) by {
            if i < front.len() {
                assert(free_of(front[i], separator));
            }
        }
    }
}

/// Splitting undoes joining: pieces that hold no separator come back as they were, as long as
/// there is at least one.
pub proof fn law_split_undoes_join(pieces: Seq<Seq<char>>, separator: char)
    requires
        pieces.len() >= 1,
        forall|i: int| 0 <= i < pieces.len() ==> free_of(#[trigger] pieces[i], separator),
    ensures
        split_at(join_with(pieces, separator), separator) == pieces,
    decreases pieces.len(),
{
    if pieces.len() == 1 {
        lemma_split_free(pieces[0], separator);
        assert(pieces =~= seq![pieces[0]]);
    } else {
        let head = join_with(pieces.drop_last(), separator);
        law_split_undoes_join(pieces.drop_last(), separator);
        lemma_split_after(head, pieces.last(), separator);
        assert(pieces =~= pieces.drop_last().push(pieces.last()));
    }
}

/// A text that holds no separator is its only piece.
pub proof fn lemma_split_free(piece: Seq<char>, separator: char)
    requires
        free_of(piece, separator),
    ensures
        split_at(piece, separator) == seq![piece],
    decreases piece.len(),
{
    if piece.len() > 0 {
        let front = piece.drop_last();
        assert(piece.contains(piece.last()));
        assert forall|c: char| front.contains(c) implies piece.contains(c) by {
            let i = front.index_of(c);
            assert(piece[i] == c);
        }
        lemma_split_free(front, separator);
        assert(front.push(piece.last()) =~= piece);
        assert(split_at(piece, separator) =~= seq![piece]);
    } else {
        assert(piece =~= Seq::empty());
    }
}

/// A separator and a text that holds none add one piece.
pub proof fn lemma_split_after(head: Seq<char>, piece: Seq<char>, separator: char)
    requires
        free_of(piece, separator),
    ensures
        split_at(head.push(separator) + piece, separator) == split_at(head, separator).push(piece),
    decreases piece.len(),
{
    let whole = head.push(separator) + piece;
    if piece.len() == 0 {
        assert(piece =~= Seq::empty());
        assert(whole =~= head.push(separator));
        assert(whole.drop_last() =~= head);
    } else {
        let front = piece.drop_last();
        assert(piece.contains(piece.last()));
        assert forall|c: char| front.contains(c) implies piece.contains(c) by {
            let i = front.index_of(c);
            assert(piece[i] == c);
        }
        lemma_split_after(head, front, separator);
        assert(whole.drop_last() =~= head.push(separator) + front);
        assert(front.push(piece.last()) =~= piece);
        assert(split_at(whole, separator) =~= split_at(head, separator).push(piece));
    }
}

proof fn lemma_split_in_two(left: Seq<char>, right: Seq<char>, separator: char)
    ensures
        split_at(left.push(separator) + right, separator) == split_at(left, separator) + split_at(
            right,
            separator,
        ),
    decreases right.len(),
{
    let whole = left.push(separator) + right;
    law_join_undoes_split(right, separator);
    if right.len() == 0 {
        assert(whole =~= left.push(separator));
        assert(whole.drop_last() =~= left);
        assert(split_at(left, separator).push(Seq::empty()) =~= split_at(left, separator) + seq![
            Seq::empty(),
        ]);
    } else {
        lemma_split_in_two(left, right.drop_last(), separator);
        law_join_undoes_split(right.drop_last(), separator);
        assert(whole.drop_last() =~= left.push(separator) + right.drop_last());
        assert(split_at(whole, separator) =~= split_at(left, separator) + split_at(
            right,
            separator,
        ));
    }
}

/// A text without the separator is one piece, the text itself.
pub proof fn law_unseparated_text_is_one_piece(text: &str, separator: char, pieces: Vec<String>)
    requires
        call_ensures(split, (text, separator), pieces),
        !text@.contains(separator),
    ensures
        pieces@.len() == 1,
        pieces@[0]@ == text@,
{
    lemma_split_free(text@, separator);
    assert(texts(pieces@).len() == 1);
    assert(texts(pieces@)[0] == text@);
}

/// A separator cuts a text in two: the pieces of the whole are those of what stands before it,
/// then those of what stands behind it.
pub proof fn law_separator_cuts_in_two(
    left: &str,
    right: &str,
    whole: &str,
    separator: char,
    left_pieces: Vec<String>,
    right_pieces: Vec<String>,
    pieces: Vec<String>,
)
    requires
        call_ensures(split, (left, separator), left_pieces),
        call_ensures(split, (right, separator), right_pieces),
        call_ensures(split, (whole, separator), pieces),
        whole@ == left@.push(separator) + right@,
    ensures
        pieces@.len() == left_pieces@.len() + right_pieces@.len(),
        forall|i: int|
            0 <= i < left_pieces@.len() ==> (#[trigger] pieces@[i])@ == left_pieces@[i]@,
        forall|i: int|
            left_pieces@.len() <= i < pieces@.len() ==> (#[trigger] pieces@[i])@
                == right_pieces@[i - left_pieces@.len()]@,
{
    lemma_split_in_two(left@, right@, separator);
    let together = texts(left_pieces@) + texts(right_pieces@);
    assert(texts(pieces@) == together);
    assert(texts(pieces@).len() == together.len());
    assert forall|i: int| 0 <= i < pieces@.len() implies (#[trigger] pieces@[i])@ == together[
    i] by {
        assert(texts(pieces@)[i] == pieces@[i]@);
    }
}

} // verus!
