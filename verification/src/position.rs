use vstd::prelude::*;
use vstd::std_specs::cmp::PartialOrdSpec;

use crate::coord::{Column, Row};
use crate::indexing::{ConvertError, Indexed, OneIndexed, ZeroIndexed};

verus! {

/// A point in a document: a row and a column, both under the same indexing
/// mode `I`. The shared mode is enforced by the type, not by a runtime check.
#[derive(Debug, Hash, Eq, Ord)]
pub struct Position<I: Indexed> {
    pub row: Row<I>,
    pub col: Column<I>,
}

impl<I: Indexed> Position<I> {
    /// Pairs a row with a column of the same mode.
    pub fn new(row: Row<I>, col: Column<I>) -> (r: Position<I>)
        ensures
            r == (Position { row, col }),
    {
        Position { row, col }
    }

    /// Structural transcription of a position: its two raw coordinates, in
    /// field declaration order. The indexing mode carries no data, so it
    /// contributes nothing to the encoding.
    pub open spec fn encode_spec(self) -> (u32, u32) {
        (self.row.0, self.col.0)
    }

    /// Encodes the position as its raw coordinates in declaration order.
    pub fn encode(&self) -> (r: (u32, u32))
        ensures
            r == self.encode_spec(),
    {
        (self.row.0, self.col.0)
    }

    /// The position a transcription decodes to.
    pub open spec fn decode_spec(enc: (u32, u32)) -> Position<I> {
        Position { row: Row(enc.0, core::marker::PhantomData), col: Column(enc.1, core::marker::PhantomData) }
    }

    /// Rebuilds a position from its transcription. Decoding never fails:
    /// every pair of raw values names a position.
    pub fn decode(enc: (u32, u32)) -> (r: Position<I>)
        ensures
            r == Self::decode_spec(enc),
    {
        Position { row: Row::new(enc.0), col: Column::new(enc.1) }
    }
}

impl<I: Indexed> Clone for Position<I> {
    fn clone(&self) -> (r: Position<I>)
        ensures
            r == *self,
    {
        *self
    }
}

impl<I: Indexed> Copy for Position<I> {}

impl<I: Indexed> PartialEq for Position<I> {
    fn eq(&self, other: &Self) -> (r: bool) {
        self.row.0 == other.row.0 && self.col.0 == other.col.0
    }
}

impl<I: Indexed> vstd::std_specs::cmp::PartialEqSpecImpl for Position<I> {
    open spec fn obeys_eq_spec() -> bool {
        true
    }

    open spec fn eq_spec(&self, other: &Self) -> bool {
        self.row.0 == other.row.0 && self.col.0 == other.col.0
    }
}

impl<I: Indexed> PartialOrd for Position<I> {
    fn partial_cmp(&self, other: &Self) -> (r: Option<core::cmp::Ordering>) {
        if self.row.0 < other.row.0 {
            Some(core::cmp::Ordering::Less)
        } else if self.row.0 > other.row.0 {
            Some(core::cmp::Ordering::Greater)
        } else if self.col.0 < other.col.0 {
            Some(core::cmp::Ordering::Less)
        } else if self.col.0 > other.col.0 {
            Some(core::cmp::Ordering::Greater)
        } else {
            Some(core::cmp::Ordering::Equal)
        }
    }
}

impl<I: Indexed> vstd::std_specs::cmp::PartialOrdSpecImpl for Position<I> {
    open spec fn obeys_partial_cmp_spec() -> bool {
        true
    }

    /// Positions of one mode are ordered lexicographically over their fields
    /// in declaration order: by row first, and by column only between equal
    /// rows.
    open spec fn partial_cmp_spec(&self, other: &Self) -> Option<core::cmp::Ordering> {
        if self.row.0 < other.row.0 {
            Some(core::cmp::Ordering::Less)
        } else if self.row.0 > other.row.0 {
            Some(core::cmp::Ordering::Greater)
        } else if self.col.0 < other.col.0 {
            Some(core::cmp::Ordering::Less)
        } else if self.col.0 > other.col.0 {
            Some(core::cmp::Ordering::Greater)
        } else {
            Some(core::cmp::Ordering::Equal)
        }
    }
}

impl Position<OneIndexed> {
    /// The position this one-indexed position converts to, when both raw
    /// coordinates permit the conversion.
    pub open spec fn zero_indexed_spec(self) -> Position<ZeroIndexed> {
        Position { row: self.row.zero_indexed_spec(), col: self.col.zero_indexed_spec() }
    }

    /// Converts both coordinates to the zero-indexed convention. If the row
    /// or the column holds the raw value 0 the conversion is refused with
    /// `ArithmeticUnderflow`, as for the coordinates themselves.
    pub fn zero_indexed(self) -> (r: Result<Position<ZeroIndexed>, ConvertError>)
        ensures
            self.row.0 >= 1 && self.col.0 >= 1 ==> r == Ok::<
                Position<ZeroIndexed>,
                ConvertError,
            >(self.zero_indexed_spec()),
            self.row.0 == 0 || self.col.0 == 0 ==> r == Err::<
                Position<ZeroIndexed>,
                ConvertError,
            >(ConvertError::ArithmeticUnderflow),
    {
        let row = match self.row.zero_indexed() {
            Ok(row) => row,
            Err(e) => {
                return Err(e);
            },
        };
        let col = match self.col.zero_indexed() {
            Ok(col) => col,
            Err(e) => {
                return Err(e);
            },
        };
        Ok(Position { row, col })
    }
}

impl Position<ZeroIndexed> {
    /// The one-indexed position naming the same point.
    pub open spec fn one_indexed_spec(self) -> Position<OneIndexed> {
        Position { row: self.row.one_indexed_spec(), col: self.col.one_indexed_spec() }
    }

    /// Converts both coordinates to the one-indexed convention. The raw
    /// values must leave room for the increment.
    pub fn one_indexed(self) -> (r: Position<OneIndexed>)
        requires
            self.row.0 < u32::MAX,
            self.col.0 < u32::MAX,
        ensures
            r == self.one_indexed_spec(),
    {
        Position { row: self.row.one_indexed(), col: self.col.one_indexed() }
    }
}

/// The position order is a total order: every pair is comparable, comparison
/// agrees with equality, swapping the sides reverses it, and it is
/// transitive.
pub proof fn lemma_position_order_total<I: Indexed>(a: Position<I>, b: Position<I>, c: Position<I>)
    ensures
        PartialOrdSpec::partial_cmp_spec(&a, &b) is Some,
        (PartialOrdSpec::partial_cmp_spec(&a, &b) == Some(core::cmp::Ordering::Equal)) <==> a
            == b,
        PartialOrdSpec::partial_cmp_spec(&b, &a) == (match PartialOrdSpec::partial_cmp_spec(
            &a,
            &b,
        ) {
            Some(core::cmp::Ordering::Less) => Some(core::cmp::Ordering::Greater),
            Some(core::cmp::Ordering::Greater) => Some(core::cmp::Ordering::Less),
            o => o,
        }),
        PartialOrdSpec::partial_cmp_spec(&a, &b) == Some(core::cmp::Ordering::Less)
            && PartialOrdSpec::partial_cmp_spec(&b, &c) == Some(core::cmp::Ordering::Less)
            ==> PartialOrdSpec::partial_cmp_spec(&a, &c) == Some(core::cmp::Ordering::Less),
{
}

/// Converting a one-indexed position to zero-indexed and back yields the
/// original position, for every position the conversion accepts.
pub proof fn lemma_position_round_trip(p: Position<OneIndexed>)
    requires
        p.row.0 >= 1,
        p.col.0 >= 1,
    ensures
        p.zero_indexed_spec().one_indexed_spec() == p,
{
}

/// Decoding a position's transcription yields the position back, and
/// transcribing a decoded pair yields the pair back: the encoding preserves
/// the structure exactly.
pub proof fn lemma_position_transcription<I: Indexed>(p: Position<I>, enc: (u32, u32))
    ensures
        Position::<I>::decode_spec(p.encode_spec()) == p,
        Position::<I>::decode_spec(enc).encode_spec() == enc,
{
}

} // verus!
