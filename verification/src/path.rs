//! Cutting a path into its segments.

use vstd::prelude::*;
use vstd::string::StrSliceExecFns;

verus! {

/// The separator of path segments.
pub const SEPARATOR: char = '/';

/// The pieces of `text` between the occurrences of `sep`: one piece more than
/// there are occurrences, in order, empty pieces included.
pub open spec fn split(text: Seq<char>, sep: char) -> Seq<Seq<char>>
    decreases text.len(),
{
    if text.len() == 0 {
        seq![Seq::empty()]
    } else {
        let front = split(text.drop_last(), sep);
        if text.last() == sep {
            front.push(Seq::empty())
        } else {
            front.update(front.len() - 1, front.last().push(text.last()))
        }
    }
}

/// The segments of a path: what stands between the slashes after the leading
/// one. A path that does not begin with a slash has none.
pub open spec fn segments(path: Seq<char>) -> Option<Seq<Seq<char>>> {
    if path.len() > 0 && path[0] == SEPARATOR {
        Some(split(path.subrange(1, path.len() as int), SEPARATOR))
    } else {
        None
    }
}

/// Whether `text` holds no `sep`.
pub open spec fn free_of(text: Seq<char>, sep: char) -> bool {
    forall|i: int| 0 <= i < text.len() ==> text[i] != sep
}

/// The path made of the given segments: a slash before each.
pub open spec fn path_of(parts: Seq<Seq<char>>) -> Seq<char>
    decreases parts.len(),
{
    if parts.len() == 0 {
        Seq::empty()
    } else {
        path_of(parts.drop_last()) + seq![SEPARATOR] + parts.last()
    }
}

/// Cutting always gives at least one piece.
pub proof fn lemma_split_len(text: Seq<char>, sep: char)
    ensures
        split(text, sep).len() >= 1,
    decreases text.len(),
{
    if text.len() > 0 {
        lemma_split_len(text.drop_last(), sep);
    }
}

/// A text without the separator is its own single piece.
pub proof fn lemma_split_plain(text: Seq<char>, sep: char)
    requires
        free_of(text, sep),
    ensures
        split(text, sep) == seq![text],
    decreases text.len(),
{
    if text.len() == 0 {
        assert(text =~= Seq::<char>::empty());
    } else {
        lemma_split_plain(text.drop_last(), sep);
        assert(text.drop_last().push(text.last()) =~= text);
        assert(seq![text.drop_last()].update(0, text) =~= seq![text]);
    }
}

/// Cutting two texts joined by the separator gives the pieces of the first,
/// then those of the second.
pub proof fn lemma_split_concat(a: Seq<char>, b: Seq<char>, sep: char)
    ensures
        split(a + seq![sep] + b, sep) == split(a, sep) + split(b, sep),
    decreases b.len(),
{
    let whole = a + seq![sep] + b;
    if b.len() == 0 {
        assert(whole.drop_last() =~= a);
        assert(split(b, sep) =~= seq![Seq::<char>::empty()]);
        assert(split(a, sep).push(Seq::empty()) =~= split(a, sep) + split(b, sep));
    } else {
        let front = b.drop_last();
        lemma_split_concat(a, front, sep);
        lemma_split_len(front, sep);
        lemma_split_len(a, sep);
        assert(whole.drop_last() =~= a + seq![sep] + front);
        assert(whole.last() == b.last());
        let left = split(a, sep);
        let right = split(front, sep);
        if b.last() == sep {
            assert((left + right).push(Seq::empty()) =~= left + right.push(Seq::empty()));
        } else {
            let grown = right.last().push(b.last());
            assert((left + right).last() == right.last());
            assert((left + right).update((left + right).len() - 1, grown) =~= left + right.update(
                right.len() - 1,
                grown,
            ));
        }
    }
}

/// A text that holds the separator has more than one piece.
pub proof fn lemma_split_many(text: Seq<char>, sep: char)
    requires
        !free_of(text, sep),
    ensures
        split(text, sep).len() >= 2,
    decreases text.len(),
{
    if text.len() > 0 {
        lemma_split_len(text.drop_last(), sep);
        if text.last() != sep {
            assert(!free_of(text.drop_last(), sep)) by {
                if free_of(text.drop_last(), sep) {
                    assert forall|i: int| 0 <= i < text.len() implies text[i] != sep by {
                        if i < text.len() - 1 {
                            assert(text.drop_last()[i] == text[i]);
                        }
                    }
                }
            }
            lemma_split_many(text.drop_last(), sep);
        }
    }
}

/// No piece holds the separator.
pub proof fn lemma_split_pieces_free(text: Seq<char>, sep: char)
    ensures
        forall|i: int| 0 <= i < split(text, sep).len() ==> free_of(#[trigger] split(text, sep)[i], sep),
    decreases text.len(),
{
    if text.len() > 0 {
        lemma_split_pieces_free(text.drop_last(), sep);
        lemma_split_len(text.drop_last(), sep);
    }
}

/// Joining the pieces of a text with a slash before each gives the text back,
/// behind a slash.
pub proof fn lemma_path_of_split(text: Seq<char>)
    ensures
        path_of(split(text, SEPARATOR)) == seq![SEPARATOR] + text,
    decreases text.len(),
{
    let pieces = split(text, SEPARATOR);
    if text.len() == 0 {
        assert(pieces.drop_last() =~= Seq::<Seq<char>>::empty());
        assert(path_of(pieces.drop_last()) =~= Seq::<char>::empty());
        assert(path_of(pieces) =~= seq![SEPARATOR] + text);
    } else {
        let front = split(text.drop_last(), SEPARATOR);
        lemma_path_of_split(text.drop_last());
        lemma_split_len(text.drop_last(), SEPARATOR);
        if text.last() == SEPARATOR {
            assert(pieces.drop_last() =~= front);
            assert(path_of(pieces) =~= seq![SEPARATOR] + text);
        } else {
            assert(pieces.drop_last() =~= front.drop_last());
            assert(pieces.last() == front.last().push(text.last()));
            assert(path_of(pieces) =~= path_of(front).push(text.last()));
            assert(path_of(pieces) =~= seq![SEPARATOR] + text);
        }
    }
}

/// The path made of a path's segments is the path.
pub proof fn lemma_path_of_segments(path: Seq<char>)
    requires
        segments(path) is Some,
    ensures
        path_of(segments(path)->0) == path,
{
    lemma_path_of_split(path.subrange(1, path.len() as int));
    assert(seq![SEPARATOR] + path.subrange(1, path.len() as int) =~= path);
}

/// Cutting the path made of segments gives the segments back, where there is
/// at least one and none holds a slash.
pub proof fn lemma_segments_of_path(parts: Seq<Seq<char>>)
    requires
        parts.len() >= 1,
        forall|i: int| 0 <= i < parts.len() ==> free_of(#[trigger] parts[i], SEPARATOR),
    ensures
        segments(path_of(parts)) == Some(parts),
    decreases parts.len(),
{
    let front = parts.drop_last();
    let path = path_of(parts);
    assert(free_of(parts.last(), SEPARATOR)) by {
        assert(parts.last() == parts[parts.len() - 1]);
    }
    if parts.len() == 1 {
        assert(path_of(front) =~= Seq::<char>::empty());
        assert(path.subrange(1, path.len() as int) =~= parts.last());
        lemma_split_plain(parts.last(), SEPARATOR);
        assert(seq![parts.last()] =~= parts);
    } else {
        assert forall|i: int| 0 <= i < front.len() implies free_of(#[trigger] front[i], SEPARATOR) by {
            assert(front[i] == parts[i]);
        }
        lemma_segments_of_path(front);
        let head = path_of(front);
        let rest = head.subrange(1, head.len() as int);
        assert(path.subrange(1, path.len() as int) =~= rest + seq![SEPARATOR] + parts.last());
        lemma_split_concat(rest, parts.last(), SEPARATOR);
        lemma_split_plain(parts.last(), SEPARATOR);
        assert(front + seq![parts.last()] =~= parts);
    }
}

/// The view of a list of texts.
pub open spec fn texts(list: Seq<String>) -> Seq<Seq<char>> {
    Seq::new(list.len(), |i: int| list[i]@)
}

/// The view of a list of texts that may be absent.
pub open spec fn texts_view(list: Option<Vec<String>>) -> Option<Seq<Seq<char>>> {
    match list {
        Some(l) => Some(texts(l@)),
        None => None,
    }
}

/// Cuts `text` at every occurrence of `sep`.
pub fn split_text(text: &str, sep: char) -> (pieces: Vec<String>)
    ensures
        texts(pieces@) == split(text@, sep),
{
    let n = text.unicode_len();
    let mut pieces: Vec<String> = Vec::new();
    let mut start: usize = 0;
    let mut i: usize = 0;
    assert(text@.take(0) =~= Seq::<char>::empty());
    assert(texts(pieces@).push(text@.subrange(0, 0)) =~= split(text@.take(0), sep));
    for c in it: text.chars()
        invariant
            it.seq() == text@,
            n == text@.len(),
            i == it.index(),
            start <= i <= n,
            texts(pieces@).push(text@.subrange(start as int, i as int)) == split(
                text@.take(i as int),
                sep,
            ),
    {
        let ghost before = texts(pieces@);
        let ghost from = start as int;
        let ghost seen = text@.take(i + 1);
        assert(seen.drop_last() =~= text@.take(i as int));
        assert(seen.last() == c);
        if c == sep {
            let piece = text.substring_char(start, i).to_owned();
            pieces.push(piece);
            start = i + 1;
            assert(texts(pieces@) =~= before.push(text@.subrange(from, i as int)));
            assert(text@.subrange(i + 1, i + 1) =~= Seq::<char>::empty());
        } else {
            assert(text@.subrange(from, i + 1) =~= text@.subrange(from, i as int).push(c));
            assert(before.push(text@.subrange(from, i + 1)) =~= before.push(
                text@.subrange(from, i as int),
            ).update(before.len() as int, text@.subrange(from, i as int).push(c)));
        }
        i = i + 1;
    }
    let piece = text.substring_char(start, n).to_owned();
    pieces.push(piece);
    assert(text@.take(n as int) =~= text@);
    pieces
}

/// Cuts a path into its segments; `None` for a path without a leading slash.
pub fn split_path(path: &str) -> (parts: Option<Vec<String>>)
    ensures
        texts_view(parts) == segments(path@),
{
    let n = path.unicode_len();
    if n == 0 {
        return None;
    }
    if path.get_char(0) != SEPARATOR {
        return None;
    }
    let rest = path.substring_char(1, n);
    Some(split_text(rest, SEPARATOR))
}

} // verus!
