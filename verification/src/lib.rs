//! Range value types that are freely duplicable.
//!
//! `CopyRange`, `CopyRangeFrom` and `CopyRangeInclusive` mirror the standard
//! `Range`, `RangeFrom` and `RangeInclusive` types, except that they are
//! `Copy` whenever their index type is `Copy`. Each type converts losslessly
//! to and from its standard counterpart, answers membership and emptiness
//! queries under the index type's partial order, and (for `usize` indices)
//! can be rendered as text, enumerated into a vector, or used to select a
//! sub-sequence of a slice, vector or string slice.

pub mod bounded;
pub mod from_start;
pub mod inclusive;
pub mod indexing;
pub mod text;

pub use bounded::CopyRange;
pub use from_start::CopyRangeFrom;
pub use inclusive::CopyRangeInclusive;

use vstd::prelude::*;

verus! {

/// The standard full range is already `Copy`, so it serves as is.
pub type CopyRangeFull = core::ops::RangeFull;

/// The standard end-only range is already `Copy` whenever `Idx` is, so it
/// serves as is.
pub type CopyRangeTo<Idx> = core::ops::RangeTo<Idx>;

/// The standard inclusive end-only range is already `Copy` whenever `Idx`
/// is, so it serves as is.
pub type CopyRangeToInclusive<Idx> = core::ops::RangeToInclusive<Idx>;

} // verus!
