//! Path patterns: literal segments and named parameters.

use crate::path::{segments, split_path, texts};
use vstd::prelude::*;
use vstd::string::StrSliceExecFns;

verus! {

/// The sign that opens a parameter in a pattern, as in `/kv/:key`.
pub const PARAM_SIGN: char = ':';

/// One segment of a pattern.
#[derive(Clone, Debug, PartialEq, Eq)]
pub enum Segment {
    /// Matches the segment that is this text, letter for letter.
    Literal(String),
    /// Matches any segment that is not empty, and binds it to this name.
    Param(String),
}

/// What a pattern segment is, mathematically.
pub enum SegmentView {
    Literal(Seq<char>),
    Param(Seq<char>),
}

impl View for Segment {
    type V = SegmentView;

    open spec fn view(&self) -> SegmentView {
        match self {
            Segment::Literal(text) => SegmentView::Literal(text@),
            Segment::Param(name) => SegmentView::Param(name@),
        }
    }
}

/// The view of a pattern.
pub open spec fn pattern_view(pattern: Seq<Segment>) -> Seq<SegmentView> {
    Seq::new(pattern.len(), |i: int| pattern[i]@)
}

/// The pattern segment that a piece of a pattern's text stands for: a
/// parameter where it opens with the parameter sign, a literal otherwise.
pub open spec fn segment_of(piece: Seq<char>) -> SegmentView {
    if piece.len() > 0 && piece[0] == PARAM_SIGN {
        SegmentView::Param(piece.subrange(1, piece.len() as int))
    } else {
        SegmentView::Literal(piece)
    }
}

/// Whether `text` can be read as a pattern: it begins with a slash.
pub open spec fn is_pattern(text: Seq<char>) -> bool {
    segments(text) is Some
}

/// The pattern that `text` stands for.
pub open spec fn pattern_of(text: Seq<char>) -> Seq<SegmentView>
    recommends
        is_pattern(text),
{
    let pieces = segments(text)->0;
    Seq::new(pieces.len(), |i: int| segment_of(pieces[i]))
}

/// Whether a pattern segment matches a path segment.
pub open spec fn segment_matches(segment: SegmentView, part: Seq<char>) -> bool {
    match segment {
        SegmentView::Literal(text) => text == part,
        SegmentView::Param(_) => part.len() > 0,
    }
}

/// Whether a pattern matches the segments of a path: segment by segment, with
/// none left over on either side.
pub open spec fn pattern_matches(pattern: Seq<SegmentView>, parts: Seq<Seq<char>>) -> bool {
    &&& pattern.len() == parts.len()
    &&& forall|i: int| 0 <= i < pattern.len() ==> segment_matches(#[trigger] pattern[i], parts[i])
}

/// A path segment bound to the name of the parameter that matched it.
#[derive(Clone, Debug, PartialEq, Eq)]
pub struct PathParam {
    pub name: String,
    pub value: String,
}

/// What a bound parameter is, mathematically.
pub struct PathParamView {
    pub name: Seq<char>,
    pub value: Seq<char>,
}

impl View for PathParam {
    type V = PathParamView;

    open spec fn view(&self) -> PathParamView {
        PathParamView { name: self.name@, value: self.value@ }
    }
}

/// The view of a list of bound parameters.
pub open spec fn params_view(params: Seq<PathParam>) -> Seq<PathParamView> {
    Seq::new(params.len(), |i: int| params[i]@)
}

/// The parameters that a pattern binds on the segments of a path, in the
/// order of the pattern.
pub open spec fn bindings(pattern: Seq<SegmentView>, parts: Seq<Seq<char>>) -> Seq<PathParamView>
    recommends
        pattern.len() == parts.len(),
    decreases pattern.len(),
{
    if pattern.len() == 0 {
        Seq::empty()
    } else {
        let front = bindings(pattern.drop_last(), parts.drop_last());
        match pattern.last() {
            SegmentView::Literal(_) => front,
            SegmentView::Param(name) => front.push(PathParamView { name, value: parts.last() }),
        }
    }
}

/// The outcome of holding a pattern against the segments of a path: the bound
/// parameters where it matches, `None` where it does not.
pub open spec fn bind(pattern: Seq<SegmentView>, parts: Seq<Seq<char>>) -> Option<
    Seq<PathParamView>,
> {
    if pattern_matches(pattern, parts) {
        Some(bindings(pattern, parts))
    } else {
        None
    }
}

/// The view of a list of bound parameters that may be absent.
pub open spec fn bound_view(params: Option<Vec<PathParam>>) -> Option<Seq<PathParamView>> {
    match params {
        Some(p) => Some(params_view(p@)),
        None => None,
    }
}

/// Reads one piece of a pattern's text as a pattern segment.
pub fn parse_segment(piece: &str) -> (segment: Segment)
    ensures
        segment@ == segment_of(piece@),
{
    let n = piece.unicode_len();
    if n > 0 && piece.get_char(0) == PARAM_SIGN {
        Segment::Param(piece.substring_char(1, n).to_owned())
    } else {
        Segment::Literal(piece.to_owned())
    }
}

/// Reads `text` as a pattern.
pub fn parse_pattern(text: &str) -> (pattern: Vec<Segment>)
    requires
        is_pattern(text@),
    ensures
        pattern_view(pattern@) == pattern_of(text@),
{
    let pieces = split_path(text).unwrap();
    let mut pattern: Vec<Segment> = Vec::new();
    let mut i: usize = 0;
    while i < pieces.len()
        invariant
            i <= pieces.len(),
            texts(pieces@) == segments(text@)->0,
            pattern.len() == i,
            forall|j: int| 0 <= j < i ==> (#[trigger] pattern[j])@ == segment_of(pieces[j]@),
        decreases pieces.len() - i,
    {
        let segment = parse_segment(pieces[i].as_str());
        pattern.push(segment);
        i = i + 1;
    }
    assert(pattern_view(pattern@) =~= pattern_of(text@)) by {
        assert forall|j: int| 0 <= j < pattern.len() implies pattern_view(pattern@)[j]
            == pattern_of(text@)[j] by {
            assert(texts(pieces@)[j] == pieces[j]@);
        }
    }
    pattern
}

/// Holds a pattern against the segments of a path.
pub fn match_pattern(pattern: &Vec<Segment>, parts: &Vec<String>) -> (params: Option<
    Vec<PathParam>,
>)
    ensures
        bound_view(params) == bind(pattern_view(pattern@), texts(parts@)),
{
    if pattern.len() != parts.len() {
        return None;
    }
    let ghost pv = pattern_view(pattern@);
    let ghost tv = texts(parts@);
    let mut params: Vec<PathParam> = Vec::new();
    let mut i: usize = 0;
    assert(pv.take(0) =~= Seq::<SegmentView>::empty());
    while i < pattern.len()
        invariant
            i <= pattern.len(),
            pattern.len() == parts.len(),
            pv == pattern_view(pattern@),
            tv == texts(parts@),
            forall|j: int| 0 <= j < i ==> segment_matches(#[trigger] pv[j], tv[j]),
            params_view(params@) == bindings(pv.take(i as int), tv.take(i as int)),
        decreases pattern.len() - i,
    {
        let ghost before = params_view(params@);
        assert(pv.take(i + 1).drop_last() =~= pv.take(i as int));
        assert(tv.take(i + 1).drop_last() =~= tv.take(i as int));
        assert(pv.take(i + 1).last() == pattern[i as int]@);
        assert(tv.take(i + 1).last() == parts[i as int]@);
        match &pattern[i] {
            Segment::Literal(text) => {
                if *text != parts[i] {
                    assert(!segment_matches(pv[i as int], tv[i as int]));
                    return None;
                }
            },
            Segment::Param(name) => {
                if parts[i].as_str().unicode_len() == 0 {
                    assert(!segment_matches(pv[i as int], tv[i as int]));
                    return None;
                }
                let bound = PathParam { name: name.clone(), value: parts[i].clone() };
                params.push(bound);
                assert(params_view(params@) =~= before.push(
                    PathParamView { name: name@, value: parts[i as int]@ },
                ));
            },
        }
        i = i + 1;
    }
    assert(pv.take(i as int) =~= pv);
    assert(tv.take(i as int) =~= tv);
    Some(params)
}

} // verus!
