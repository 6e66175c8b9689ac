//! Source positions attached to every token and node.

use vstd::prelude::*;
use vstd::string::StringSliceAdditionalSpecFns;
use vstd::utf8::{
    decode_utf8, decode_utf8_split, encode_utf8_decode_utf8, encode_utf8_valid_utf8,
    is_char_boundary, is_char_boundary_iff_not_is_continuation_byte,
    is_char_boundary_start_end_of_seq, valid_utf8_split,
};

verus! {

/// A one-based line and column in the source text.
#[derive(Copy, Clone, Debug, PartialEq, Eq, Structural)]
pub struct LineColumn {
    pub line: usize,
    pub column: usize,
}

impl LineColumn {
    /// `self` is at or before `other` in source order.
    pub open spec fn at_or_before(self, other: LineColumn) -> bool {
        self.line < other.line || (self.line == other.line && self.column <= other.column)
    }

    pub fn new(line: usize, column: usize) -> (r: LineColumn)
        ensures
            r.line == line,
            r.column == column,
    {
        LineColumn { line, column }
    }

    /// The position that a pair of a line and a column stands for.
    pub fn from_pair(pair: (usize, usize)) -> (r: LineColumn)
        ensures
            r.line == pair.0,
            r.column == pair.1,
    {
        LineColumn { line: pair.0, column: pair.1 }
    }

    /// Decides source order between two positions.
    pub fn precedes_or_equals(&self, other: &LineColumn) -> (r: bool)
        ensures
            r == self.at_or_before(*other),
    {
        self.line < other.line || (self.line == other.line && self.column <= other.column)
    }
}

/// The range of source text that a token or node covers.
#[derive(Copy, Clone, Debug, PartialEq, Eq, Structural)]
pub struct Span {
    pub start: LineColumn,
    pub end: LineColumn,
}

impl Span {
    /// A span never ends before it starts.
    pub open spec fn wf(self) -> bool {
        self.start.at_or_before(self.end)
    }

    /// `self` lies within `outer`.
    pub open spec fn within(self, outer: Span) -> bool {
        outer.start.at_or_before(self.start) && self.end.at_or_before(outer.end)
    }

    /// `self` ends at or before the start of `other`.
    pub open spec fn before(self, other: Span) -> bool {
        self.end.at_or_before(other.start)
    }

    /// The span that reaches from the start of `self` to the end of `other`.
    pub open spec fn through(self, other: Span) -> Span {
        Span { start: self.start, end: other.end }
    }

    pub fn new(start: LineColumn, end: LineColumn) -> (r: Span)
        ensures
            r.start == start,
            r.end == end,
    {
        Span { start, end }
    }

    /// Joins two spans into the one that covers both and what lies between.
    pub fn join(&self, other: &Span) -> (r: Span)
        ensures
            r == self.through(*other),
    {
        Span { start: self.start, end: other.end }
    }
}

/// The line and the column of the place behind the characters `before`,
/// both counted from 1: a line feed begins a new line, any other character
/// moves one column on.
pub open spec fn line_column(before: Seq<char>) -> (int, int)
    decreases before.len(),
{
    if before.len() == 0 {
        (1, 1)
    } else if before.last() == '\n' {
        (line_column(before.drop_last()).0 + 1, 1)
    } else {
        (line_column(before.drop_last()).0, line_column(before.drop_last()).1 + 1)
    }
}

/// The characters of a text that stand before a byte offset.
pub open spec fn characters_before(source: &str, offset: int) -> Seq<char> {
    decode_utf8(source.spec_bytes().take(offset))
}

/// Whether a text has a position at a byte offset: the offset lies within
/// the text or at its end, and not inside a character.
pub open spec fn has_position(source: &str, offset: int) -> bool {
    is_char_boundary(source.spec_bytes(), offset)
}

/// The characters of a text that stand between two byte offsets.
pub open spec fn characters_between(source: &str, start: int, end: int) -> Seq<char> {
    decode_utf8(source.spec_bytes().subrange(start, end))
}

/// The place in `(line, column)` pairs: `first` is at or before `second`.
pub open spec fn place_at_or_before(first: (int, int), second: (int, int)) -> bool {
    first.0 < second.0 || (first.0 == second.0 && first.1 <= second.1)
}

/// More characters never lead to an earlier place.
pub proof fn lemma_line_column_grows(before: Seq<char>, more: Seq<char>)
    ensures
        place_at_or_before(line_column(before), line_column(before + more)),
        line_column(before).0 >= 1,
        line_column(before).1 >= 1,
    decreases more.len(),
{
    lemma_line_column_is_positive(before);
    if more.len() == 0 {
        assert(before + more =~= before);
    } else {
        lemma_line_column_grows(before, more.drop_last());
        assert((before + more).drop_last() =~= before + more.drop_last());
        assert((before + more).last() == more.last());
    }
}

proof fn lemma_line_column_is_positive(before: Seq<char>)
    ensures
        line_column(before).0 >= 1,
        line_column(before).1 >= 1,
    decreases before.len(),
{
    if before.len() > 0 {
        lemma_line_column_is_positive(before.drop_last());
    }
}

/// Where a text has a position at two offsets, the first not behind the
/// second, the text between them can be cut out at both ends, and what
/// stands before the second offset is what stands before the first and
/// then what stands between them.
pub proof fn lemma_text_splits(source: &str, start: int, end: int)
    requires
        0 <= start <= end,
        has_position(source, start),
        has_position(source, end),
    ensures
        end <= source.spec_bytes().len(),
        is_char_boundary(source.spec_bytes().subrange(0, end), start),
        characters_before(source, end) == characters_before(source, start) + characters_between(
            source,
            start,
            end,
        ),
{
    let bytes = source.spec_bytes();
    encode_utf8_valid_utf8(source@);
    valid_utf8_split(bytes, end);
    let head = bytes.subrange(0, end);
    if start < end {
        is_char_boundary_iff_not_is_continuation_byte(bytes, start);
        is_char_boundary_iff_not_is_continuation_byte(head, start);
    } else {
        is_char_boundary_start_end_of_seq(head);
    }
    decode_utf8_split(head, start);
    assert(head =~= bytes.take(end));
    assert(head.subrange(0, start) =~= bytes.take(start));
    assert(head.subrange(start, head.len() as int) =~= bytes.subrange(start, end));
}

/// The line and column at a byte offset of a text, as `pest` counts them.
///
/// Calls `pest::Position::new` and, on the position it gives,
/// `pest::Position::line_col`. The contract claims of the first that it
/// gives a position exactly where the offset lies within the text or at
/// its end and not inside a character, and of the second what its loop
/// computes over the characters before the offset: it starts at line 1,
/// column 1; a line feed, alone or behind a carriage return, begins a new
/// line at column 1; every other character moves one column on.
#[verifier::external_body]
fn pest_line_col(source: &str, offset: usize) -> (r: Option<(usize, usize)>)
    ensures
        r is Some <==> has_position(source, offset as int),
        r matches Some(place) ==> (place.0 as int, place.1 as int) == line_column(
            characters_before(source, offset as int),
        ),
{
    match pest::Position::new(source, offset) {
        Some(position) => Some(position.line_col()),
        None => None,
    }
}

impl Span {
    /// The span between two positions.
    pub fn between(start: (usize, usize), end: (usize, usize)) -> (r: Span)
        ensures
            r.start.line == start.0,
            r.start.column == start.1,
            r.end.line == end.0,
            r.end.column == end.1,
    {
        Span { start: LineColumn::from_pair(start), end: LineColumn::from_pair(end) }
    }

    /// The span of the text between two byte offsets of a source text.
    /// There is one where the first offset is not behind the second and
    /// the text has a position at both.
    pub fn from_offsets(source: &str, start: usize, end: usize) -> (r: Option<Span>)
        ensures
            r is Some <==> start <= end && has_position(source, start as int) && has_position(
                source,
                end as int,
            ),
            r matches Some(span) ==> {
                &&& span.wf()
                &&& (span.start.line as int, span.start.column as int) == line_column(
                    characters_before(source, start as int),
                )
                &&& (span.end.line as int, span.end.column as int) == line_column(
                    characters_before(source, end as int),
                )
            },
    {
        if start > end {
            return None;
        }
        match (pest_line_col(source, start), pest_line_col(source, end)) {
            (Some(first), Some(last)) => {
                proof {
                    lemma_text_splits(source, start as int, end as int);
                    lemma_line_column_grows(
                        characters_before(source, start as int),
                        characters_between(source, start as int, end as int),
                    );
                }
                Some(Span::between(first, last))
            },
            _ => None,
        }
    }
}

/// The text between two byte offsets of a source text. There is one where
/// the first offset is not behind the second and the text has a position
/// at both.
pub fn text_between<'a>(source: &'a str, start: usize, end: usize) -> (r: Option<&'a str>)
    ensures
        r is Some <==> start <= end && has_position(source, start as int) && has_position(
            source,
            end as int,
        ),
        r matches Some(text) ==> text@ == characters_between(source, start as int, end as int),
{
    if start > end || !source.is_char_boundary(end) || !source.is_char_boundary(start) {
        return None;
    }
    let ghost bytes = source.spec_bytes();
    proof {
        lemma_text_splits(source, start as int, end as int);
    }
    let (head, _) = source.split_at(end);
    let (_, text) = head.split_at(start);
    proof {
        assert(text.spec_bytes() =~= bytes.subrange(start as int, end as int));
        encode_utf8_decode_utf8(text@);
    }
    Some(text)
}

/// Source order is transitive, so joining ordered spans keeps them well formed.
pub proof fn lemma_through_wf(a: Span, b: Span)
    requires
        a.wf(),
        b.wf(),
        a.end.at_or_before(b.start),
    ensures
        a.through(b).wf(),
{
}

} // verus!
