use vstd::prelude::*;
use vstd::std_specs::cmp::PartialOrdSpec;

use crate::coord::{Column, Row};
use crate::indexing::{ConvertError, Indexed, OneIndexed, ZeroIndexed};
use crate::position::Position;

verus! {

/// A span of rows and columns within one document, all four coordinates
/// under the same indexing mode `I`. No ordering is enforced between start
/// and end: an inverted range is deliberately representable, so that callers
/// may record, for example, the direction of a selection.
#[derive(Debug, Hash, Eq, Ord)]
pub struct Range<I: Indexed> {
    pub row_start: Row<I>,
    pub row_end: Row<I>,
    pub col_start: Column<I>,
    pub col_end: Column<I>,
}

impl<I: Indexed> Range<I> {
    /// Assembles a range from its four coordinates. No validation is
    /// performed; in particular, the end may lie before the start.
    pub fn new(row_start: Row<I>, row_end: Row<I>, col_start: Column<I>, col_end: Column<I>) -> (r:
        Range<I>)
        ensures
            r == (Range { row_start, row_end, col_start, col_end }),
    {
        Range { row_start, row_end, col_start, col_end }
    }

    /// Builds a range from two positions. The rows are taken from the two
    /// positions in order, but both columns are taken from `start`: the pair
    /// is treated as a row extent anchored at the start position's column.
    /// Callers that want `end`'s column as the closing column should use
    /// `new` instead.
    pub fn from_positions(start: Position<I>, end: Position<I>) -> (r: Range<I>)
        ensures
            r == (Range {
                row_start: start.row,
                row_end: end.row,
                col_start: start.col,
                col_end: start.col,
            }),
    {
        Range { row_start: start.row, row_end: end.row, col_start: start.col, col_end: start.col }
    }

    /// Structural transcription of a range: its four raw coordinates, in
    /// field declaration order.
    pub open spec fn encode_spec(self) -> (u32, u32, u32, u32) {
        (self.row_start.0, self.row_end.0, self.col_start.0, self.col_end.0)
    }

    /// Encodes the range as its raw coordinates in declaration order.
    pub fn encode(&self) -> (r: (u32, u32, u32, u32))
        ensures
            r == self.encode_spec(),
    {
        (self.row_start.0, self.row_end.0, self.col_start.0, self.col_end.0)
    }

    /// The range a transcription decodes to.
    pub open spec fn decode_spec(enc: (u32, u32, u32, u32)) -> Range<I> {
        Range {
            row_start: Row(enc.0, core::marker::PhantomData),
            row_end: Row(enc.1, core::marker::PhantomData),
            col_start: Column(enc.2, core::marker::PhantomData),
            col_end: Column(enc.3, core::marker::PhantomData),
        }
    }

    /// Rebuilds a range from its transcription. Decoding never fails: every
    /// quadruple of raw values names a range.
    pub fn decode(enc: (u32, u32, u32, u32)) -> (r: Range<I>)
        ensures
            r == Self::decode_spec(enc),
    {
        Range {
            row_start: Row::new(enc.0),
            row_end: Row::new(enc.1),
            col_start: Column::new(enc.2),
            col_end: Column::new(enc.3),
        }
    }
}

impl<I: Indexed> Clone for Range<I> {
    fn clone(&self) -> (r: Range<I>)
        ensures
            r == *self,
    {
        *self
    }
}

impl<I: Indexed> Copy for Range<I> {}

impl<I: Indexed> PartialEq for Range<I> {
    fn eq(&self, other: &Self) -> (r: bool) {
        self.row_start.0 == other.row_start.0 && self.row_end.0 == other.row_end.0
            && self.col_start.0 == other.col_start.0 && self.col_end.0 == other.col_end.0
    }
}

impl<I: Indexed> vstd::std_specs::cmp::PartialEqSpecImpl for Range<I> {
    open spec fn obeys_eq_spec() -> bool {
        true
    }

    open spec fn eq_spec(&self, other: &Self) -> bool {
        self.row_start.0 == other.row_start.0 && self.row_end.0 == other.row_end.0
            && self.col_start.0 == other.col_start.0 && self.col_end.0 == other.col_end.0
    }
}

impl<I: Indexed> PartialOrd for Range<I> {
    fn partial_cmp(&self, other: &Self) -> (r: Option<core::cmp::Ordering>) {
        if self.row_start.0 < other.row_start.0 {
            Some(core::cmp::Ordering::Less)
        } else if self.row_start.0 > other.row_start.0 {
            Some(core::cmp::Ordering::Greater)
        } else if self.row_end.0 < other.row_end.0 {
            Some(core::cmp::Ordering::Less)
        } else if self.row_end.0 > other.row_end.0 {
            Some(core::cmp::Ordering::Greater)
        } else if self.col_start.0 < other.col_start.0 {
            Some(core::cmp::Ordering::Less)
        } else if self.col_start.0 > other.col_start.0 {
            Some(core::cmp::Ordering::Greater)
        } else if self.col_end.0 < other.col_end.0 {
            Some(core::cmp::Ordering::Less)
        } else if self.col_end.0 > other.col_end.0 {
            Some(core::cmp::Ordering::Greater)
        } else {
            Some(core::cmp::Ordering::Equal)
        }
    }
}

impl<I: Indexed> vstd::std_specs::cmp::PartialOrdSpecImpl for Range<I> {
    open spec fn obeys_partial_cmp_spec() -> bool {
        true
    }

    /// Ranges of one mode are ordered lexicographically over their fields in
    /// declaration order: row start, row end, column start, column end.
    open spec fn partial_cmp_spec(&self, other: &Self) -> Option<core::cmp::Ordering> {
        if self.row_start.0 < other.row_start.0 {
            Some(core::cmp::Ordering::Less)
        } else if self.row_start.0 > other.row_start.0 {
            Some(core::cmp::Ordering::Greater)
        } else if self.row_end.0 < other.row_end.0 {
            Some(core::cmp::Ordering::Less)
        } else if self.row_end.0 > other.row_end.0 {
            Some(core::cmp::Ordering::Greater)
        } else if self.col_start.0 < other.col_start.0 {
            Some(core::cmp::Ordering::Less)
        } else if self.col_start.0 > other.col_start.0 {
            Some(core::cmp::Ordering::Greater)
        } else if self.col_end.0 < other.col_end.0 {
            Some(core::cmp::Ordering::Less)
        } else if self.col_end.0 > other.col_end.0 {
            Some(core::cmp::Ordering::Greater)
        } else {
            Some(core::cmp::Ordering::Equal)
        }
    }
}

impl Range<OneIndexed> {
    /// The range this one-indexed range converts to, when all four raw
    /// coordinates permit the conversion.
    pub open spec fn zero_indexed_spec(self) -> Range<ZeroIndexed> {
        Range {
            row_start: self.row_start.zero_indexed_spec(),
            row_end: self.row_end.zero_indexed_spec(),
            col_start: self.col_start.zero_indexed_spec(),
            col_end: self.col_end.zero_indexed_spec(),
        }
    }

    /// Whether every coordinate of this range admits the zero-indexed
    /// conversion, that is, none holds the raw value 0.
    pub open spec fn converts_to_zero_indexed(self) -> bool {
        self.row_start.0 >= 1 && self.row_end.0 >= 1 && self.col_start.0 >= 1 && self.col_end.0
            >= 1
    }

    /// Converts all four coordinates to the zero-indexed convention,
    /// independently and without reordering start and end. If any coordinate
    /// holds the raw value 0 the conversion is refused with
    /// `ArithmeticUnderflow`, as for the coordinates themselves.
    pub fn zero_indexed(self) -> (r: Result<Range<ZeroIndexed>, ConvertError>)
        ensures
            self.converts_to_zero_indexed() ==> r == Ok::<
                Range<ZeroIndexed>,
                ConvertError,
            >(self.zero_indexed_spec()),
            !self.converts_to_zero_indexed() ==> r == Err::<
                Range<ZeroIndexed>,
                ConvertError,
            >(ConvertError::ArithmeticUnderflow),
    {
        let row_start = match self.row_start.zero_indexed() {
            Ok(c) => c,
            Err(e) => {
                return Err(e);
            },
        };
        let row_end = match self.row_end.zero_indexed() {
            Ok(c) => c,
            Err(e) => {
                return Err(e);
            },
        };
        let col_start = match self.col_start.zero_indexed() {
            Ok(c) => c,
            Err(e) => {
                return Err(e);
            },
        };
        let col_end = match self.col_end.zero_indexed() {
            Ok(c) => c,
            Err(e) => {
                return Err(e);
            },
        };
        Ok(Range { row_start, row_end, col_start, col_end })
    }
}

impl Range<ZeroIndexed> {
    /// The one-indexed range naming the same extent.
    pub open spec fn one_indexed_spec(self) -> Range<OneIndexed> {
        Range {
            row_start: self.row_start.one_indexed_spec(),
            row_end: self.row_end.one_indexed_spec(),
            col_start: self.col_start.one_indexed_spec(),
            col_end: self.col_end.one_indexed_spec(),
        }
    }

    /// Converts all four coordinates to the one-indexed convention,
    /// independently and without reordering start and end. The raw values
    /// must leave room for the increment.
    pub fn one_indexed(self) -> (r: Range<OneIndexed>)
        requires
            self.row_start.0 < u32::MAX,
            self.row_end.0 < u32::MAX,
            self.col_start.0 < u32::MAX,
            self.col_end.0 < u32::MAX,
        ensures
            r == self.one_indexed_spec(),
    {
        Range {
            row_start: self.row_start.one_indexed(),
            row_end: self.row_end.one_indexed(),
            col_start: self.col_start.one_indexed(),
            col_end: self.col_end.one_indexed(),
        }
    }
}

/// The range order is a total order: every pair is comparable, comparison
/// agrees with equality, swapping the sides reverses it, and it is
/// transitive.
pub proof fn lemma_range_order_total<I: Indexed>(a: Range<I>, b: Range<I>, c: Range<I>)
    ensures
        PartialOrdSpec::partial_cmp_spec(&a, &b) is Some,
        (PartialOrdSpec::partial_cmp_spec(&a, &b) == Some(core::cmp::Ordering::Equal)) <==> a
            == b,
        PartialOrdSpec::partial_cmp_spec(&b, &a) == (match PartialOrdSpec::partial_cmp_spec(
            &a,
            &b,
        ) {
            Some(core::cmp::Ordering::Less) => Some(core::cmp::Ordering::Greater),
            Some(core::cmp::Ordering::Greater) => Some(core::cmp::Ordering::Less),
            o => o,
        }),
        PartialOrdSpec::partial_cmp_spec(&a, &b) == Some(core::cmp::Ordering::Less)
            && PartialOrdSpec::partial_cmp_spec(&b, &c) == Some(core::cmp::Ordering::Less)
            ==> PartialOrdSpec::partial_cmp_spec(&a, &c) == Some(core::cmp::Ordering::Less),
{
}

/// Converting a one-indexed range to zero-indexed and back yields the
/// original range, for every range the conversion accepts.
pub proof fn lemma_range_round_trip(r: Range<OneIndexed>)
    requires
        r.converts_to_zero_indexed(),
    ensures
        r.zero_indexed_spec().one_indexed_spec() == r,
{
}

/// Decoding a range's transcription yields the range back, and transcribing
/// a decoded quadruple yields the quadruple back.
pub proof fn lemma_range_transcription<I: Indexed>(r: Range<I>, enc: (u32, u32, u32, u32))
    ensures
        Range::<I>::decode_spec(r.encode_spec()) == r,
        Range::<I>::decode_spec(enc).encode_spec() == enc,
{
}

} // verus!
