//! Byte spans inside a text and the slices they cut out of it.

use vstd::prelude::*;
use vstd::string::StringSliceAdditionalSpecFns;
use vstd::utf8::*;

verus! {

/// One matched stretch of a text: the byte offsets where it starts and ends.
#[derive(Clone, Copy, Debug, PartialEq, Eq, Structural)]
pub struct Span {
    pub start: usize,
    pub end: usize,
}

/// The characters of `text` that lie between the byte offsets `from` and `to`
/// of its UTF-8 encoding.
pub open spec fn text_between(text: Seq<char>, from: int, to: int) -> Seq<char> {
    decode_utf8(encode_utf8(text).subrange(from, to))
}

/// Whether `from..to` is a range of whole characters of `text`.
pub open spec fn cuts_chars(text: Seq<char>, from: int, to: int) -> bool {
    let bytes = encode_utf8(text);
    &&& 0 <= from <= to <= bytes.len()
    &&& is_char_boundary(bytes, from)
    &&& is_char_boundary(bytes, to)
}

/// The characters of `text` that `span` covers.
pub open spec fn matched_text(text: Seq<char>, span: Span) -> Seq<char> {
    text_between(text, span.start as int, span.end as int)
}

/// The byte offset behind which span `index` has to lie: the end of the span
/// before it, or the start of the text for the first span.
pub open spec fn gap_start(spans: Seq<Span>, index: int) -> int {
    if index <= 0 {
        0
    } else {
        spans[index - 1].end as int
    }
}

/// Whether span `index` can be cut out of `text`: it lies behind the span
/// before it, and it and the gap in front of it are made of whole characters.
pub open spec fn span_fits(text: Seq<char>, spans: Seq<Span>, index: int) -> bool {
    &&& cuts_chars(text, gap_start(spans, index), spans[index].start as int)
    &&& cuts_chars(text, spans[index].start as int, spans[index].end as int)
}

/// Whether `spans` are successive, non-overlapping stretches of whole
/// characters of `text`.
pub open spec fn spans_fit(text: Seq<char>, spans: Seq<Span>) -> bool {
    forall|i: int| 0 <= i < spans.len() ==> span_fits(text, spans, i)
}

/// Whether span `index` is the first of `spans` that cannot be cut out of
/// `text`.
pub open spec fn misfits_first(text: Seq<char>, spans: Seq<Span>, index: int) -> bool {
    &&& 0 <= index < spans.len()
    &&& !span_fits(text, spans, index)
    &&& forall|i: int| 0 <= i < index ==> span_fits(text, spans, i)
}

/// The rewritten text up to and including the fragment for span `count - 1`:
/// for each of the first `count` spans, the untouched text in front of it and
/// the fragment that takes its place.
pub open spec fn spliced_through(
    text: Seq<char>,
    spans: Seq<Span>,
    fragments: Seq<Seq<char>>,
    count: nat,
) -> Seq<char>
    decreases count,
{
    if count == 0 {
        Seq::empty()
    } else {
        let last = count - 1;
        spliced_through(text, spans, fragments, last as nat) + text_between(
            text,
            gap_start(spans, last),
            spans[last].start as int,
        ) + fragments[last]
    }
}

/// `text` with each span replaced by the fragment of the same position:
/// everything outside the spans stays as it is.
pub open spec fn splice(text: Seq<char>, spans: Seq<Span>, fragments: Seq<Seq<char>>) -> Seq<
    char,
> {
    spliced_through(text, spans, fragments, spans.len()) + text_between(
        text,
        gap_start(spans, spans.len() as int),
        encode_utf8(text).len() as int,
    )
}

/// How many bytes the UTF-8 encoding of `text` takes.
pub fn byte_len(text: &str) -> (length: usize)
    ensures
        length == encode_utf8(text@).len(),
{
    text.as_bytes().len()
}

/// The part of `text` between two character boundaries.
pub fn slice<'a>(text: &'a str, from: usize, to: usize) -> (piece: &'a str)
    requires
        cuts_chars(text@, from as int, to as int),
    ensures
        piece@ == text_between(text@, from as int, to as int),
{
    broadcast use group_utf8_lib;
    let ghost bytes = encode_utf8(text@);
    let (head, _) = text.split_at(to);
    proof {
        lemma_boundary_in_part(bytes, 0, from as int, to as int);
    }
    let (_, piece) = head.split_at(from);
    proof {
        assert(piece.spec_bytes() == bytes.subrange(from as int, to as int));
        assert(decode_utf8(encode_utf8(piece@)) == piece@);
    }
    piece
}

/// Looks for the first span that cannot be cut out of `text`.
pub fn first_misfit(text: &str, spans: &Vec<Span>) -> (found: Option<usize>)
    ensures
        match found {
            None => spans_fit(text@, spans@),
            Some(index) => misfits_first(text@, spans@, index as int),
        },
{
    broadcast use group_utf8_lib;
    let length: usize = byte_len(text);
    let mut floor: usize = 0;
    let mut index: usize = 0;
    while index < spans.len()
        invariant
            index <= spans.len(),
            length == encode_utf8(text@).len(),
            floor == gap_start(spans@, index as int),
            floor <= encode_utf8(text@).len(),
            is_char_boundary(encode_utf8(text@), floor as int),
            forall|i: int| 0 <= i < index ==> span_fits(text@, spans@, i),
        decreases spans.len() - index,
    {
        let span = spans[index];
        if !(floor <= span.start && span.start <= span.end && span.end <= length
            && text.is_char_boundary(span.start) && text.is_char_boundary(span.end)) {
            return Some(index);
        }
        floor = span.end;
        index = index + 1;
    }
    None
}

/// Only the first `count` fragments matter to the text rewritten through span
/// `count - 1`.
pub proof fn lemma_spliced_through_prefix(
    text: Seq<char>,
    spans: Seq<Span>,
    fragments: Seq<Seq<char>>,
    others: Seq<Seq<char>>,
    count: nat,
)
    requires
        count <= fragments.len(),
        count <= others.len(),
        forall|i: int| 0 <= i < count ==> fragments[i] == others[i],
    ensures
        spliced_through(text, spans, fragments, count) == spliced_through(
            text,
            spans,
            others,
            count,
        ),
    decreases count,
{
    if count > 0 {
        lemma_spliced_through_prefix(text, spans, fragments, others, (count - 1) as nat);
    }
}

/// A text in which nothing is matched is rewritten to itself.
pub proof fn lemma_splice_nothing(text: Seq<char>, fragments: Seq<Seq<char>>)
    ensures
        splice(text, Seq::empty(), fragments) == text,
{
    broadcast use group_utf8_lib;
    let bytes = encode_utf8(text);
    assert(bytes.subrange(0, bytes.len() as int) == bytes);
}

/// Two ranges of whole characters that touch make up the range across both.
pub proof fn lemma_text_between_joins(text: Seq<char>, from: int, mid: int, to: int)
    requires
        cuts_chars(text, from, mid),
        cuts_chars(text, mid, to),
    ensures
        cuts_chars(text, from, to),
        text_between(text, from, mid) + text_between(text, mid, to) == text_between(
            text,
            from,
            to,
        ),
{
    broadcast use group_utf8_lib;
    let bytes = encode_utf8(text);
    let part = bytes.subrange(from, to);
    lemma_boundary_in_part(bytes, from, mid, to);
    decode_utf8_split(part, mid - from);
    assert(part.subrange(0, mid - from) == bytes.subrange(from, mid));
    assert(part.subrange(mid - from, part.len() as int) == bytes.subrange(mid, to));
}

/// A character boundary of valid UTF-8 bytes is one of every range, between
/// two boundaries, that it lies in; and such a range is valid UTF-8 too.
proof fn lemma_boundary_in_part(bytes: Seq<u8>, from: int, at: int, to: int)
    requires
        valid_utf8(bytes),
        0 <= from <= at <= to <= bytes.len(),
        is_char_boundary(bytes, from),
        is_char_boundary(bytes, at),
        is_char_boundary(bytes, to),
    ensures
        valid_utf8(bytes.subrange(from, to)),
        is_char_boundary(bytes.subrange(from, to), at - from),
{
    broadcast use group_utf8_lib;
    let tail = bytes.subrange(from, bytes.len() as int);
    let part = bytes.subrange(from, to);
    assert(valid_utf8(tail));
    if to < bytes.len() {
        assert(tail[to - from] == bytes[to]);
        is_char_boundary_iff_not_is_continuation_byte(bytes, to);
        is_char_boundary_iff_not_is_continuation_byte(tail, to - from);
    } else {
        is_char_boundary_start_end_of_seq(tail);
    }
    assert(tail.subrange(0, to - from) == part);
    assert(valid_utf8(part));
    if at < to {
        assert(part[at - from] == bytes[at]);
        is_char_boundary_iff_not_is_continuation_byte(bytes, at);
        is_char_boundary_iff_not_is_continuation_byte(part, at - from);
    } else {
        is_char_boundary_start_end_of_seq(part);
    }
}

/// Replacing every span by the very text it covers changes nothing.
pub proof fn lemma_splice_same(text: Seq<char>, spans: Seq<Span>, fragments: Seq<Seq<char>>)
    requires
        spans_fit(text, spans),
        fragments.len() == spans.len(),
        forall|i: int| 0 <= i < spans.len() ==> #[trigger] fragments[i] == matched_text(text, spans[i]),
    ensures
        splice(text, spans, fragments) == text,
{
    broadcast use group_utf8_lib;
    let bytes = encode_utf8(text);
    let count = spans.len();
    lemma_spliced_through_same(text, spans, fragments, count);
    if count > 0 {
        assert(span_fits(text, spans, count - 1));
    }
    lemma_text_between_joins(text, 0, gap_start(spans, count as int), bytes.len() as int);
    assert(bytes.subrange(0, bytes.len() as int) == bytes);
}

/// With every span replaced by the text it covers, the text rewritten
/// through span `count - 1` is the text up to the end of that span.
proof fn lemma_spliced_through_same(
    text: Seq<char>,
    spans: Seq<Span>,
    fragments: Seq<Seq<char>>,
    count: nat,
)
    requires
        spans_fit(text, spans),
        count <= spans.len(),
        fragments.len() == spans.len(),
        forall|i: int| 0 <= i < spans.len() ==> #[trigger] fragments[i] == matched_text(text, spans[i]),
    ensures
        spliced_through(text, spans, fragments, count) == text_between(
            text,
            0,
            gap_start(spans, count as int),
        ),
        cuts_chars(text, 0, gap_start(spans, count as int)),
    decreases count,
{
    broadcast use group_utf8_lib;
    if count == 0 {
        assert(encode_utf8(text).subrange(0, 0) == Seq::<u8>::empty());
    } else {
        let last = count - 1;
        lemma_spliced_through_same(text, spans, fragments, last as nat);
        assert(span_fits(text, spans, last));
        lemma_text_between_joins(text, 0, gap_start(spans, last), spans[last].start as int);
        lemma_text_between_joins(text, 0, spans[last].start as int, spans[last].end as int);
    }
}

/// In a text of ASCII characters alone, byte offsets are character
/// positions: any range inside the text is a range of whole characters, and
/// what lies between two offsets is the subrange between them.
pub proof fn lemma_text_between_ascii(text: Seq<char>, from: int, to: int)
    requires
        is_ascii_chars(text),
        0 <= from <= to <= text.len(),
    ensures
        encode_utf8(text).len() == text.len(),
        cuts_chars(text, from, to),
        text_between(text, from, to) == text.subrange(from, to),
{
    broadcast use group_utf8_lib;
    let bytes = encode_utf8(text);
    let part = text.subrange(from, to);
    is_ascii_chars_encode_utf8(text);
    is_ascii_chars_encode_utf8(part);
    assert(encode_utf8(part) =~= bytes.subrange(from, to)) by {
        assert forall|i: int| 0 <= i < part.len() implies encode_utf8(part)[i] == bytes.subrange(
            from,
            to,
        )[i] by {
            assert(part[i] == text[from + i]);
        }
    }
    lemma_ascii_boundary(text, from);
    lemma_ascii_boundary(text, to);
}

/// In a text of ASCII characters alone, every byte offset up to its length is
/// a character boundary.
proof fn lemma_ascii_boundary(text: Seq<char>, at: int)
    requires
        is_ascii_chars(text),
        0 <= at <= text.len(),
    ensures
        is_char_boundary(encode_utf8(text), at),
{
    broadcast use group_utf8_lib;
    let bytes = encode_utf8(text);
    is_ascii_chars_encode_utf8(text);
    if at < text.len() {
        assert(bytes[at] == text[at] as u8);
        assert(!is_continuation_byte(bytes[at]));
        is_char_boundary_iff_not_is_continuation_byte(bytes, at);
    } else {
        is_char_boundary_start_end_of_seq(bytes);
    }
}

} // verus!
