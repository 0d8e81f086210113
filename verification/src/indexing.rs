use vstd::prelude::*;

verus! {

/// Marker trait for an indexing convention: the type parameter that every
/// coordinate type carries to record whether its values are interpreted
/// zero-based or one-based. Exactly two types implement it.
pub trait Indexed {}

/// Indexing convention in which coordinate 0 names the first row or column.
#[derive(Clone, Copy, Debug, Hash, PartialEq, Eq, PartialOrd, Ord, Structural)]
pub struct ZeroIndexed;

impl Indexed for ZeroIndexed {}

/// Indexing convention in which coordinate 1 names the first row or column.
#[derive(Clone, Copy, Debug, Hash, PartialEq, Eq, PartialOrd, Ord, Structural)]
pub struct OneIndexed;

impl Indexed for OneIndexed {}

/// Error returned by a conversion to the zero-indexed convention when a
/// coordinate already holds the raw value 0: decrementing it would wrap
/// below zero, so the conversion refuses instead.
#[derive(Clone, Copy, Debug, Hash, PartialEq, Eq, Structural)]
pub enum ConvertError {
    ArithmeticUnderflow,
}

} // verus!
