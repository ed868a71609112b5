//! Byte offsets into strings and half-open ranges of such offsets.
//!
//! A [`StrIndex`] is a 32-bit byte offset. A [`StrRange`] is a pair of
//! offsets `start..end` that never decreases: every way of building one
//! either proves `start <= end` or demands it of the caller.
//!
//! - [`index`]: the offset type, its conversions and checked arithmetic.
//! - [`range`]: the range type, its queries and combinations, and what
//!   holds of them.
//! - [`ops`]: `+` and `-` on offsets, and slicing a string by a range.
//! - [`fmt`]: offsets and ranges as text.
//! - [`codec`]: the logical encoding of both types, and the decoding that
//!   checks the order of the bounds it reads.

pub mod codec;
pub mod fmt;
pub mod index;
pub mod ops;
pub mod range;

pub use index::StrIndex;
pub use range::{Span, StrRange};
