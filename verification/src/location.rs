use vstd::prelude::*;
use vstd::std_specs::cmp::{PartialEqSpec, PartialOrdSpec};
use vstd::utf8::{encode_utf8, encode_utf8_decode_utf8};

use crate::bytecmp::{
    cmp_bytes, lemma_lex_cmp_bytes_antisymmetric, lemma_lex_cmp_bytes_equal,
    lemma_lex_cmp_bytes_transitive, lex_cmp_bytes,
};
use crate::coord::{Column, Row};
use crate::indexing::{ConvertError, Indexed, OneIndexed, ZeroIndexed};
use crate::position::Position;

verus! {

/// A position anchored to a file. The file is an opaque path string,
/// compared structurally; the indexing mode applies to the position only.
#[derive(Debug, Hash, Eq, Ord)]
pub struct Location<I: Indexed> {
    pub file: String,
    pub position: Position<I>,
}

impl<I: Indexed> Location<I> {
    /// Anchors the point (`row`, `col`) to `file`.
    pub fn new(row: Row<I>, col: Column<I>, file: String) -> (r: Location<I>)
        ensures
            r == (Location { file, position: Position { row, col } }),
    {
        Location { position: Position { row, col }, file }
    }

    /// Anchors an already composed position to `file`.
    pub fn from_position(position: Position<I>, file: String) -> (r: Location<I>)
        ensures
            r == (Location { file, position }),
    {
        Location { position, file }
    }

    /// Structural transcription of a location: the file, then the two raw
    /// coordinates, in field declaration order.
    pub open spec fn encode_spec(self) -> (String, u32, u32) {
        (self.file, self.position.row.0, self.position.col.0)
    }

    /// Encodes the location as its file and raw coordinates in declaration
    /// order.
    pub fn encode(&self) -> (r: (String, u32, u32))
        ensures
            r == self.encode_spec(),
    {
        (self.file.clone(), self.position.row.0, self.position.col.0)
    }

    /// The location a transcription decodes to.
    pub open spec fn decode_spec(enc: (String, u32, u32)) -> Location<I> {
        Location { file: enc.0, position: Position::decode_spec((enc.1, enc.2)) }
    }

    /// Rebuilds a location from its transcription. Decoding never fails.
    pub fn decode(enc: (String, u32, u32)) -> (r: Location<I>)
        ensures
            r == Self::decode_spec(enc),
    {
        Location { file: enc.0, position: Position::decode((enc.1, enc.2)) }
    }
}

impl<I: Indexed> Clone for Location<I> {
    /// Duplicates the location; the file string is deep-copied.
    fn clone(&self) -> (r: Location<I>)
        ensures
            r == *self,
    {
        Location { position: self.position, file: self.file.clone() }
    }
}

impl<I: Indexed> PartialEq for Location<I> {
    fn eq(&self, other: &Self) -> (r: bool) {
        self.file == other.file && self.position.row.0 == other.position.row.0
            && self.position.col.0 == other.position.col.0
    }
}

impl<I: Indexed> vstd::std_specs::cmp::PartialEqSpecImpl for Location<I> {
    open spec fn obeys_eq_spec() -> bool {
        true
    }

    open spec fn eq_spec(&self, other: &Self) -> bool {
        self.file@ == other.file@ && self.position.row.0 == other.position.row.0
            && self.position.col.0 == other.position.col.0
    }
}

impl<I: Indexed> PartialOrd for Location<I> {
    fn partial_cmp(&self, other: &Self) -> (r: Option<core::cmp::Ordering>) {
        let fc = cmp_bytes(self.file.as_str().as_bytes(), other.file.as_str().as_bytes());
        match fc {
            core::cmp::Ordering::Equal => self.position.partial_cmp(&other.position),
            _ => Some(fc),
        }
    }
}

impl<I: Indexed> vstd::std_specs::cmp::PartialOrdSpecImpl for Location<I> {
    open spec fn obeys_partial_cmp_spec() -> bool {
        true
    }

    /// Locations of one mode are ordered by their fields in declaration
    /// order: by file first — lexicographically over its UTF-8 bytes, as the
    /// standard library orders strings — and by position only within one
    /// file.
    open spec fn partial_cmp_spec(&self, other: &Self) -> Option<core::cmp::Ordering> {
        match lex_cmp_bytes(encode_utf8(self.file@), encode_utf8(other.file@)) {
            core::cmp::Ordering::Equal => PartialOrdSpec::partial_cmp_spec(
                &self.position,
                &other.position,
            ),
            fc => Some(fc),
        }
    }
}

impl Location<OneIndexed> {
    /// The location this one-indexed location converts to, when its position
    /// permits the conversion. The file passes through unchanged: it is
    /// independent of the indexing mode.
    pub open spec fn zero_indexed_spec(self) -> Location<ZeroIndexed> {
        Location { file: self.file, position: self.position.zero_indexed_spec() }
    }

    /// Converts the position to the zero-indexed convention and duplicates
    /// the file. If the row or the column holds the raw value 0 the
    /// conversion is refused with `ArithmeticUnderflow`, as for the
    /// coordinates themselves.
    pub fn zero_indexed(&self) -> (r: Result<Location<ZeroIndexed>, ConvertError>)
        ensures
            self.position.row.0 >= 1 && self.position.col.0 >= 1 ==> r == Ok::<
                Location<ZeroIndexed>,
                ConvertError,
            >(self.zero_indexed_spec()),
            self.position.row.0 == 0 || self.position.col.0 == 0 ==> r == Err::<
                Location<ZeroIndexed>,
                ConvertError,
            >(ConvertError::ArithmeticUnderflow),
    {
        let position = match self.position.zero_indexed() {
            Ok(position) => position,
            Err(e) => {
                return Err(e);
            },
        };
        Ok(Location { position, file: self.file.clone() })
    }
}

impl Location<ZeroIndexed> {
    /// The one-indexed location naming the same point in the same file.
    pub open spec fn one_indexed_spec(self) -> Location<OneIndexed> {
        Location { file: self.file, position: self.position.one_indexed_spec() }
    }

    /// Converts the position to the one-indexed convention and duplicates
    /// the file. The raw values must leave room for the increment.
    pub fn one_indexed(&self) -> (r: Location<OneIndexed>)
        requires
            self.position.row.0 < u32::MAX,
            self.position.col.0 < u32::MAX,
        ensures
            r == self.one_indexed_spec(),
    {
        Location { position: self.position.one_indexed(), file: self.file.clone() }
    }
}

/// The location order is a total order: every pair is comparable, comparing
/// as equal means equal file text and equal coordinates, swapping the sides
/// reverses the comparison, and it is transitive.
pub proof fn lemma_location_order_total<I: Indexed>(a: Location<I>, b: Location<I>, c: Location<I>)
    ensures
        PartialOrdSpec::partial_cmp_spec(&a, &b) is Some,
        (PartialOrdSpec::partial_cmp_spec(&a, &b) == Some(core::cmp::Ordering::Equal))
            <==> PartialEqSpec::eq_spec(&a, &b),
        PartialOrdSpec::partial_cmp_spec(&b, &a) == (match PartialOrdSpec::partial_cmp_spec(
            &a,
            &b,
        ) {
            Some(core::cmp::Ordering::Less) => Some(core::cmp::Ordering::Greater),
            Some(core::cmp::Ordering::Greater) => Some(core::cmp::Ordering::Less),
            o => o,
        }),
        PartialOrdSpec::partial_cmp_spec(&a, &b) == Some(core::cmp::Ordering::Less)
            && PartialOrdSpec::partial_cmp_spec(&b, &c) == Some(core::cmp::Ordering::Less)
            ==> PartialOrdSpec::partial_cmp_spec(&a, &c) == Some(core::cmp::Ordering::Less),
{
    let fa = encode_utf8(a.file@);
    let fb = encode_utf8(b.file@);
    let fc = encode_utf8(c.file@);
    lemma_lex_cmp_bytes_equal(fa, fb);
    lemma_lex_cmp_bytes_equal(fb, fc);
    lemma_lex_cmp_bytes_antisymmetric(fa, fb);
    if fa =~= fb {
        encode_utf8_decode_utf8(a.file@);
        encode_utf8_decode_utf8(b.file@);
    }
    if lex_cmp_bytes(fa, fb) == core::cmp::Ordering::Less && lex_cmp_bytes(fb, fc)
        == core::cmp::Ordering::Less {
        lemma_lex_cmp_bytes_transitive(fa, fb, fc);
    }
}

/// Converting a one-indexed location to zero-indexed and back yields the
/// original location, file included, for every location the conversion
/// accepts.
pub proof fn lemma_location_round_trip(l: Location<OneIndexed>)
    requires
        l.position.row.0 >= 1,
        l.position.col.0 >= 1,
    ensures
        l.zero_indexed_spec().one_indexed_spec() == l,
{
}

/// Decoding a location's transcription yields the location back, and
/// transcribing a decoded triple yields the triple back.
pub proof fn lemma_location_transcription<I: Indexed>(l: Location<I>, enc: (String, u32, u32))
    ensures
        Location::<I>::decode_spec(l.encode_spec()) == l,
        Location::<I>::decode_spec(enc).encode_spec() == enc,
{
}

} // verus!
