//! Null-aware filtering for in-memory columnar data.
//!
//! The crate offers two kernels over typed, nullable sequences:
//! a boolean-mask [`filter`](filter::filter) that keeps the selected
//! elements of a column in order, carrying each element's null status
//! along unchanged, and an elementwise predicate combinator
//! [`bool_op`](combine::bool_op) that turns two columns into a boolean
//! selection mask.

use vstd::prelude::*;

pub mod array;
pub mod builder;
pub mod combine;
pub mod filter;

verus! {

/// The logical element type of an [`array::Array`].
#[derive(Clone, Copy, Debug, PartialEq, Eq, Structural)]
pub enum LogicalType {
    UInt8,
    UInt16,
    UInt32,
    UInt64,
    Int8,
    Int16,
    Int32,
    Int64,
    Float32,
    Float64,
    Boolean,
    Binary,
    Utf8,
    List,
}

/// True for the logical types the filter kernel can dispatch on:
/// the fixed-width numerics, booleans and the two variable-length
/// representations. Nested lists are outside the supported set.
pub open spec fn supported(t: LogicalType) -> bool {
    t != LogicalType::List
}

/// Why a kernel refused to produce a result.
#[derive(Clone, Copy, Debug, PartialEq, Eq, Structural)]
pub enum Error {
    /// The filter kernel was handed an array whose logical type is
    /// outside the supported set; the offending type is carried along.
    UnsupportedType(LogicalType),
    /// Two sequences that must pair up position-by-position have
    /// different lengths.
    LengthMismatch,
}

} // verus!
