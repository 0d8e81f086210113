use core::marker::PhantomData;
use vstd::prelude::*;
use vstd::std_specs::cmp::PartialOrdSpec;

use crate::indexing::{ConvertError, Indexed, OneIndexed, ZeroIndexed};

verus! {

/// A column coordinate: a raw `u32` whose interpretation (zero- or one-based)
/// is fixed by the indexing mode `I`. The mode is a phantom parameter and
/// costs nothing at runtime; it only keeps columns of different conventions
/// apart in the type system. A column's structural transcription is its raw
/// value alone: the public field exposes it and `new` rebuilds it.
#[derive(Debug, Hash, Eq, Ord)]
pub struct Column<I: Indexed>(pub u32, pub PhantomData<I>);

impl<I: Indexed> Column<I> {
    /// Wraps a raw coordinate value under the mode `I`. Every `u32` is
    /// accepted; no validation is performed.
    pub fn new(c: u32) -> (r: Column<I>)
        ensures
            r.0 == c,
    {
        Column(c, PhantomData)
    }
}

impl<I: Indexed> Clone for Column<I> {
    fn clone(&self) -> (r: Column<I>)
        ensures
            r == *self,
    {
        *self
    }
}

impl<I: Indexed> Copy for Column<I> {}

impl<I: Indexed> PartialEq for Column<I> {
    fn eq(&self, other: &Self) -> (r: bool) {
        self.0 == other.0
    }
}

impl<I: Indexed> vstd::std_specs::cmp::PartialEqSpecImpl for Column<I> {
    open spec fn obeys_eq_spec() -> bool {
        true
    }

    open spec fn eq_spec(&self, other: &Self) -> bool {
        self.0 == other.0
    }
}

impl<I: Indexed> PartialOrd for Column<I> {
    fn partial_cmp(&self, other: &Self) -> (r: Option<core::cmp::Ordering>) {
        if self.0 < other.0 {
            Some(core::cmp::Ordering::Less)
        } else if self.0 == other.0 {
            Some(core::cmp::Ordering::Equal)
        } else {
            Some(core::cmp::Ordering::Greater)
        }
    }
}

impl<I: Indexed> vstd::std_specs::cmp::PartialOrdSpecImpl for Column<I> {
    open spec fn obeys_partial_cmp_spec() -> bool {
        true
    }

    /// Columns of one mode are totally ordered by their raw value.
    open spec fn partial_cmp_spec(&self, other: &Self) -> Option<core::cmp::Ordering> {
        if self.0 < other.0 {
            Some(core::cmp::Ordering::Less)
        } else if self.0 == other.0 {
            Some(core::cmp::Ordering::Equal)
        } else {
            Some(core::cmp::Ordering::Greater)
        }
    }
}

/// Two columns of the same mode with equal raw values are equal:
/// the phantom field carries no information.
pub proof fn lemma_column_eq<I: Indexed>(a: Column<I>, b: Column<I>)
    requires
        a.0 == b.0,
    ensures
        a == b,
{
}

/// The column order is a total order: every pair is comparable, comparison
/// agrees with equality, swapping the sides reverses it, and it is
/// transitive.
pub proof fn lemma_column_order_total<I: Indexed>(a: Column<I>, b: Column<I>, c: Column<I>)
    ensures
        PartialOrdSpec::partial_cmp_spec(&a, &b) is Some,
        (PartialOrdSpec::partial_cmp_spec(&a, &b) == Some(core::cmp::Ordering::Equal)) <==> a
            == b,
        PartialOrdSpec::partial_cmp_spec(&b, &a) == (match PartialOrdSpec::partial_cmp_spec(
            &a,
            &b,
        ) {
            Some(core::cmp::Ordering::Less) => Some(core::cmp::Ordering::Greater),
            Some(core::cmp::Ordering::Greater) => Some(core::cmp::Ordering::Less),
            o => o,
        }),
        PartialOrdSpec::partial_cmp_spec(&a, &b) == Some(core::cmp::Ordering::Less)
            && PartialOrdSpec::partial_cmp_spec(&b, &c) == Some(core::cmp::Ordering::Less)
            ==> PartialOrdSpec::partial_cmp_spec(&a, &c) == Some(core::cmp::Ordering::Less),
{
}

impl Column<OneIndexed> {
    /// The column this one-indexed column converts to, when its raw value
    /// permits the conversion: the same place, numbered from zero.
    pub open spec fn zero_indexed_spec(self) -> Column<ZeroIndexed> {
        Column((self.0 - 1) as u32, PhantomData)
    }

    /// Converts to the zero-indexed convention by decrementing the raw value.
    /// A raw value of 0 has no zero-indexed counterpart and is refused with
    /// `ArithmeticUnderflow`; the same policy applies to every coordinate
    /// type of this crate.
    pub fn zero_indexed(self) -> (r: Result<Column<ZeroIndexed>, ConvertError>)
        ensures
            self.0 >= 1 ==> r == Ok::<Column<ZeroIndexed>, ConvertError>(self.zero_indexed_spec()),
            self.0 >= 1 ==> (r matches Ok(c) && c.0 == self.0 - 1),
            self.0 == 0 ==> r == Err::<Column<ZeroIndexed>, ConvertError>(
                ConvertError::ArithmeticUnderflow,
            ),
    {
        if self.0 == 0 {
            Err(ConvertError::ArithmeticUnderflow)
        } else {
            Ok(Column(self.0 - 1, PhantomData))
        }
    }
}

impl Column<ZeroIndexed> {
    /// The one-indexed column naming the same place: the raw value, plus one.
    pub open spec fn one_indexed_spec(self) -> Column<OneIndexed> {
        Column((self.0 + 1) as u32, PhantomData)
    }

    /// Converts to the one-indexed convention by incrementing the raw value.
    /// The raw value must leave room for the increment.
    pub fn one_indexed(self) -> (r: Column<OneIndexed>)
        requires
            self.0 < u32::MAX,
        ensures
            r == self.one_indexed_spec(),
            r.0 == self.0 + 1,
    {
        Column(self.0 + 1, PhantomData)
    }
}

/// Converting a one-indexed column to zero-indexed and back yields the
/// original column, for every raw value the conversion accepts.
pub proof fn lemma_column_round_trip(c: Column<OneIndexed>)
    requires
        c.0 >= 1,
    ensures
        c.zero_indexed_spec().one_indexed_spec() == c,
{
}

/// A row coordinate: a raw `u32` whose interpretation (zero- or one-based)
/// is fixed by the indexing mode `I`, exactly as for `Column`; like a
/// column, it transcribes as its raw value alone.
#[derive(Debug, Hash, Eq, Ord)]
pub struct Row<I: Indexed>(pub u32, pub PhantomData<I>);

impl<I: Indexed> Row<I> {
    /// Wraps a raw coordinate value under the mode `I`. Every `u32` is
    /// accepted; no validation is performed.
    pub fn new(c: u32) -> (r: Row<I>)
        ensures
            r.0 == c,
    {
        Row(c, PhantomData)
    }
}

impl<I: Indexed> Clone for Row<I> {
    fn clone(&self) -> (r: Row<I>)
        ensures
            r == *self,
    {
        *self
    }
}

impl<I: Indexed> Copy for Row<I> {}

impl<I: Indexed> PartialEq for Row<I> {
    fn eq(&self, other: &Self) -> (r: bool) {
        self.0 == other.0
    }
}

impl<I: Indexed> vstd::std_specs::cmp::PartialEqSpecImpl for Row<I> {
    open spec fn obeys_eq_spec() -> bool {
        true
    }

    open spec fn eq_spec(&self, other: &Self) -> bool {
        self.0 == other.0
    }
}

impl<I: Indexed> PartialOrd for Row<I> {
    fn partial_cmp(&self, other: &Self) -> (r: Option<core::cmp::Ordering>) {
        if self.0 < other.0 {
            Some(core::cmp::Ordering::Less)
        } else if self.0 == other.0 {
            Some(core::cmp::Ordering::Equal)
        } else {
            Some(core::cmp::Ordering::Greater)
        }
    }
}

impl<I: Indexed> vstd::std_specs::cmp::PartialOrdSpecImpl for Row<I> {
    open spec fn obeys_partial_cmp_spec() -> bool {
        true
    }

    /// Rows of one mode are totally ordered by their raw value.
    open spec fn partial_cmp_spec(&self, other: &Self) -> Option<core::cmp::Ordering> {
        if self.0 < other.0 {
            Some(core::cmp::Ordering::Less)
        } else if self.0 == other.0 {
            Some(core::cmp::Ordering::Equal)
        } else {
            Some(core::cmp::Ordering::Greater)
        }
    }
}

/// Two rows of the same mode with equal raw values are equal:
/// the phantom field carries no information.
pub proof fn lemma_row_eq<I: Indexed>(a: Row<I>, b: Row<I>)
    requires
        a.0 == b.0,
    ensures
        a == b,
{
}

/// The row order is a total order: every pair is comparable, comparison
/// agrees with equality, swapping the sides reverses it, and it is
/// transitive.
pub proof fn lemma_row_order_total<I: Indexed>(a: Row<I>, b: Row<I>, c: Row<I>)
    ensures
        PartialOrdSpec::partial_cmp_spec(&a, &b) is Some,
        (PartialOrdSpec::partial_cmp_spec(&a, &b) == Some(core::cmp::Ordering::Equal)) <==> a
            == b,
        PartialOrdSpec::partial_cmp_spec(&b, &a) == (match PartialOrdSpec::partial_cmp_spec(
            &a,
            &b,
        ) {
            Some(core::cmp::Ordering::Less) => Some(core::cmp::Ordering::Greater),
            Some(core::cmp::Ordering::Greater) => Some(core::cmp::Ordering::Less),
            o => o,
        }),
        PartialOrdSpec::partial_cmp_spec(&a, &b) == Some(core::cmp::Ordering::Less)
            && PartialOrdSpec::partial_cmp_spec(&b, &c) == Some(core::cmp::Ordering::Less)
            ==> PartialOrdSpec::partial_cmp_spec(&a, &c) == Some(core::cmp::Ordering::Less),
{
}

impl Row<OneIndexed> {
    /// The row this one-indexed row converts to, when its raw value permits
    /// the conversion: the same place, numbered from zero.
    pub open spec fn zero_indexed_spec(self) -> Row<ZeroIndexed> {
        Row((self.0 - 1) as u32, PhantomData)
    }

    /// Converts to the zero-indexed convention by decrementing the raw value.
    /// A raw value of 0 has no zero-indexed counterpart and is refused with
    /// `ArithmeticUnderflow`; the same policy applies to every coordinate
    /// type of this crate.
    pub fn zero_indexed(self) -> (r: Result<Row<ZeroIndexed>, ConvertError>)
        ensures
            self.0 >= 1 ==> r == Ok::<Row<ZeroIndexed>, ConvertError>(self.zero_indexed_spec()),
            self.0 >= 1 ==> (r matches Ok(c) && c.0 == self.0 - 1),
            self.0 == 0 ==> r == Err::<Row<ZeroIndexed>, ConvertError>(
                ConvertError::ArithmeticUnderflow,
            ),
    {
        if self.0 == 0 {
            Err(ConvertError::ArithmeticUnderflow)
        } else {
            Ok(Row(self.0 - 1, PhantomData))
        }
    }
}

impl Row<ZeroIndexed> {
    /// The one-indexed row naming the same place: the raw value, plus one.
    pub open spec fn one_indexed_spec(self) -> Row<OneIndexed> {
        Row((self.0 + 1) as u32, PhantomData)
    }

    /// Converts to the one-indexed convention by incrementing the raw value.
    /// The raw value must leave room for the increment.
    pub fn one_indexed(self) -> (r: Row<OneIndexed>)
        requires
            self.0 < u32::MAX,
        ensures
            r == self.one_indexed_spec(),
            r.0 == self.0 + 1,
    {
        Row(self.0 + 1, PhantomData)
    }
}

/// Converting a one-indexed row to zero-indexed and back yields the original
/// row, for every raw value the conversion accepts.
pub proof fn lemma_row_round_trip(r: Row<OneIndexed>)
    requires
        r.0 >= 1,
    ensures
        r.zero_indexed_spec().one_indexed_spec() == r,
{
}

} // verus!
