//! Positions, ranges, and file-anchored locations and spans in text
//! documents, with the indexing convention (zero-based or one-based) carried
//! as a type parameter so the two conventions can never be mixed silently.

mod bytecmp;
mod coord;
mod position;
mod range;
mod location;
mod span;
mod indexing;

pub use bytecmp::{
    lemma_lex_cmp_bytes_antisymmetric, lemma_lex_cmp_bytes_equal, lemma_lex_cmp_bytes_transitive,
    lex_cmp_bytes,
};
pub use coord::{
    lemma_column_eq, lemma_column_order_total, lemma_column_round_trip, lemma_row_eq,
    lemma_row_order_total, lemma_row_round_trip, Column, Row,
};
pub use position::{
    lemma_position_order_total, lemma_position_round_trip, lemma_position_transcription,
    Position,
};
pub use range::{
    lemma_range_order_total, lemma_range_round_trip, lemma_range_transcription, Range,
};
pub use location::{
    lemma_location_order_total, lemma_location_round_trip, lemma_location_transcription,
    Location,
};
pub use span::{lemma_span_order_total, lemma_span_round_trip, lemma_span_transcription, Span};
pub use indexing::{ConvertError, Indexed, OneIndexed, ZeroIndexed};
