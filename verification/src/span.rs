use vstd::prelude::*;
use vstd::std_specs::cmp::{PartialEqSpec, PartialOrdSpec};
use vstd::utf8::{encode_utf8, encode_utf8_decode_utf8};

use crate::bytecmp::{
    cmp_bytes, lemma_lex_cmp_bytes_antisymmetric, lemma_lex_cmp_bytes_equal,
    lemma_lex_cmp_bytes_transitive, lex_cmp_bytes,
};
use crate::coord::{Column, Row};
use crate::indexing::{ConvertError, Indexed, OneIndexed, ZeroIndexed};
use crate::position::Position;
use crate::range::Range;

verus! {

/// A range anchored to a file. The file is an opaque path string, compared
/// structurally; the indexing mode applies to the range only.
#[derive(Debug, Hash, Eq, Ord)]
pub struct Span<I: Indexed> {
    pub file: String,
    pub range: Range<I>,
}

impl<I: Indexed> Span<I> {
    /// Anchors the range described by the four coordinates to `file`.
    pub fn new(
        row_start: Row<I>,
        row_end: Row<I>,
        col_start: Column<I>,
        col_end: Column<I>,
        file: String,
    ) -> (r: Span<I>)
        ensures
            r == (Span { file, range: Range { row_start, row_end, col_start, col_end } }),
    {
        Span { range: Range { row_start, row_end, col_start, col_end }, file }
    }

    /// Anchors an already composed range to `file`.
    pub fn from_range(range: Range<I>, file: String) -> (r: Span<I>)
        ensures
            r == (Span { file, range }),
    {
        Span { range, file }
    }

    /// Anchors the range built by `Range::from_positions` to `file`; the
    /// rows come from the two positions in order and both columns from
    /// `start`, as documented there.
    pub fn from_positions(start: Position<I>, end: Position<I>, file: String) -> (r: Span<I>)
        ensures
            r == (Span {
                file,
                range: Range {
                    row_start: start.row,
                    row_end: end.row,
                    col_start: start.col,
                    col_end: start.col,
                },
            }),
    {
        Span { range: Range::from_positions(start, end), file }
    }

    /// Structural transcription of a span: the file, then the four raw
    /// coordinates, in field declaration order.
    pub open spec fn encode_spec(self) -> (String, u32, u32, u32, u32) {
        (
            self.file,
            self.range.row_start.0,
            self.range.row_end.0,
            self.range.col_start.0,
            self.range.col_end.0,
        )
    }

    /// Encodes the span as its file and raw coordinates in declaration
    /// order.
    pub fn encode(&self) -> (r: (String, u32, u32, u32, u32))
        ensures
            r == self.encode_spec(),
    {
        (
            self.file.clone(),
            self.range.row_start.0,
            self.range.row_end.0,
            self.range.col_start.0,
            self.range.col_end.0,
        )
    }

    /// The span a transcription decodes to.
    pub open spec fn decode_spec(enc: (String, u32, u32, u32, u32)) -> Span<I> {
        Span { file: enc.0, range: Range::decode_spec((enc.1, enc.2, enc.3, enc.4)) }
    }

    /// Rebuilds a span from its transcription. Decoding never fails.
    pub fn decode(enc: (String, u32, u32, u32, u32)) -> (r: Span<I>)
        ensures
            r == Self::decode_spec(enc),
    {
        Span { file: enc.0, range: Range::decode((enc.1, enc.2, enc.3, enc.4)) }
    }
}

impl<I: Indexed> Clone for Span<I> {
    /// Duplicates the span; the file string is deep-copied.
    fn clone(&self) -> (r: Span<I>)
        ensures
            r == *self,
    {
        Span { range: self.range, file: self.file.clone() }
    }
}

impl<I: Indexed> PartialEq for Span<I> {
    fn eq(&self, other: &Self) -> (r: bool) {
        self.file == other.file && self.range.row_start.0 == other.range.row_start.0
            && self.range.row_end.0 == other.range.row_end.0 && self.range.col_start.0
            == other.range.col_start.0 && self.range.col_end.0 == other.range.col_end.0
    }
}

impl<I: Indexed> vstd::std_specs::cmp::PartialEqSpecImpl for Span<I> {
    open spec fn obeys_eq_spec() -> bool {
        true
    }

    open spec fn eq_spec(&self, other: &Self) -> bool {
        self.file@ == other.file@ && self.range.row_start.0 == other.range.row_start.0
            && self.range.row_end.0 == other.range.row_end.0 && self.range.col_start.0
            == other.range.col_start.0 && self.range.col_end.0 == other.range.col_end.0
    }
}

impl<I: Indexed> PartialOrd for Span<I> {
    fn partial_cmp(&self, other: &Self) -> (r: Option<core::cmp::Ordering>) {
        let fc = cmp_bytes(self.file.as_str().as_bytes(), other.file.as_str().as_bytes());
        match fc {
            core::cmp::Ordering::Equal => self.range.partial_cmp(&other.range),
            _ => Some(fc),
        }
    }
}

impl<I: Indexed> vstd::std_specs::cmp::PartialOrdSpecImpl for Span<I> {
    open spec fn obeys_partial_cmp_spec() -> bool {
        true
    }

    /// Spans of one mode are ordered by their fields in declaration order:
    /// by file first — lexicographically over its UTF-8 bytes, as the
    /// standard library orders strings — and by range only within one file.
    open spec fn partial_cmp_spec(&self, other: &Self) -> Option<core::cmp::Ordering> {
        match lex_cmp_bytes(encode_utf8(self.file@), encode_utf8(other.file@)) {
            core::cmp::Ordering::Equal => PartialOrdSpec::partial_cmp_spec(
                &self.range,
                &other.range,
            ),
            fc => Some(fc),
        }
    }
}

impl Span<OneIndexed> {
    /// The span this one-indexed span converts to, when its range permits
    /// the conversion. The file passes through unchanged: it is independent
    /// of the indexing mode.
    pub open spec fn zero_indexed_spec(self) -> Span<ZeroIndexed> {
        Span { file: self.file, range: self.range.zero_indexed_spec() }
    }

    /// Converts the range to the zero-indexed convention and duplicates the
    /// file. If any coordinate holds the raw value 0 the conversion is
    /// refused with `ArithmeticUnderflow`, as for the coordinates
    /// themselves.
    pub fn zero_indexed(&self) -> (r: Result<Span<ZeroIndexed>, ConvertError>)
        ensures
            self.range.converts_to_zero_indexed() ==> r == Ok::<
                Span<ZeroIndexed>,
                ConvertError,
            >(self.zero_indexed_spec()),
            !self.range.converts_to_zero_indexed() ==> r == Err::<
                Span<ZeroIndexed>,
                ConvertError,
            >(ConvertError::ArithmeticUnderflow),
    {
        let range = match self.range.zero_indexed() {
            Ok(range) => range,
            Err(e) => {
                return Err(e);
            },
        };
        Ok(Span { range, file: self.file.clone() })
    }
}

impl Span<ZeroIndexed> {
    /// The one-indexed span naming the same extent of the same file.
    pub open spec fn one_indexed_spec(self) -> Span<OneIndexed> {
        Span { file: self.file, range: self.range.one_indexed_spec() }
    }

    /// Converts the range to the one-indexed convention and duplicates the
    /// file. The raw values must leave room for the increment.
    pub fn one_indexed(&self) -> (r: Span<OneIndexed>)
        requires
            self.range.row_start.0 < u32::MAX,
            self.range.row_end.0 < u32::MAX,
            self.range.col_start.0 < u32::MAX,
            self.range.col_end.0 < u32::MAX,
        ensures
            r == self.one_indexed_spec(),
    {
        Span { range: self.range.one_indexed(), file: self.file.clone() }
    }
}

/// The span order is a total order: every pair is comparable, comparing as
/// equal means equal file text and equal coordinates, swapping the sides
/// reverses the comparison, and it is transitive.
pub proof fn lemma_span_order_total<I: Indexed>(a: Span<I>, b: Span<I>, c: Span<I>)
    ensures
        PartialOrdSpec::partial_cmp_spec(&a, &b) is Some,
        (PartialOrdSpec::partial_cmp_spec(&a, &b) == Some(core::cmp::Ordering::Equal))
            <==> PartialEqSpec::eq_spec(&a, &b),
        PartialOrdSpec::partial_cmp_spec(&b, &a) == (match PartialOrdSpec::partial_cmp_spec(
            &a,
            &b,
        ) {
            Some(core::cmp::Ordering::Less) => Some(core::cmp::Ordering::Greater),
            Some(core::cmp::Ordering::Greater) => Some(core::cmp::Ordering::Less),
            o => o,
        }),
        PartialOrdSpec::partial_cmp_spec(&a, &b) == Some(core::cmp::Ordering::Less)
            && PartialOrdSpec::partial_cmp_spec(&b, &c) == Some(core::cmp::Ordering::Less)
            ==> PartialOrdSpec::partial_cmp_spec(&a, &c) == Some(core::cmp::Ordering::Less),
{
    let fa = encode_utf8(a.file@);
    let fb = encode_utf8(b.file@);
    let fc = encode_utf8(c.file@);
    lemma_lex_cmp_bytes_equal(fa, fb);
    lemma_lex_cmp_bytes_equal(fb, fc);
    lemma_lex_cmp_bytes_antisymmetric(fa, fb);
    if fa =~= fb {
        encode_utf8_decode_utf8(a.file@);
        encode_utf8_decode_utf8(b.file@);
    }
    if lex_cmp_bytes(fa, fb) == core::cmp::Ordering::Less && lex_cmp_bytes(fb, fc)
        == core::cmp::Ordering::Less {
        lemma_lex_cmp_bytes_transitive(fa, fb, fc);
    }
}

/// Converting a one-indexed span to zero-indexed and back yields the
/// original span, file included, for every span the conversion accepts.
pub proof fn lemma_span_round_trip(s: Span<OneIndexed>)
    requires
        s.range.converts_to_zero_indexed(),
    ensures
        s.zero_indexed_spec().one_indexed_spec() == s,
{
}

/// Decoding a span's transcription yields the span back, and transcribing a
/// decoded quintuple yields the quintuple back.
pub proof fn lemma_span_transcription<I: Indexed>(s: Span<I>, enc: (String, u32, u32, u32, u32))
    ensures
        Span::<I>::decode_spec(s.encode_spec()) == s,
        Span::<I>::decode_spec(enc).encode_spec() == enc,
{
}

} // verus!
