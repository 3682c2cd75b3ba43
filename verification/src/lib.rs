//! Bit-pattern reinterpretation of chunked numeric columns.
//!
//! A column of fixed-width numeric values is viewed, without copying any value
//! bytes, as a column of unsigned integers of the same width. Every chunk keeps
//! its storage, its offset, its length and its validity bitmap; only the
//! declared element type changes.

pub mod datatypes;
pub mod chunk;
pub mod chunked_array;
pub mod bit_repr;
