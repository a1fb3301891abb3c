//! Using the `Copy` range types, with `usize` indices, to select a
//! sub-sequence of a slice, of a vector, or of a string slice.
//!
//! Each adapter converts the range to its standard counterpart's bounds and
//! delegates to the target's native sub-sequence selection; it adds no
//! validation of its own, so the bounds a target would reject are excluded
//! up front. String slices are addressed by character position, the unit in
//! which their contents are specified.

use vstd::prelude::*;
use vstd::slice::slice_subrange;
use vstd::string::StrSliceExecFns;
use crate::bounded::CopyRange;
use crate::from_start::CopyRangeFrom;
use crate::inclusive::CopyRangeInclusive;

verus! {

/// The items of `s` selected by the half-open range: positions
/// `index.start, ..., index.end - 1`.
pub fn index_slice<'a, T>(s: &'a [T], index: CopyRange<usize>) -> (out: &'a [T])
    requires
        index.start <= index.end <= s@.len(),
    ensures
        out@ == s@.subrange(index.start as int, index.end as int),
{
    slice_subrange(s, index.start, index.end)
}

/// The items of `s` from position `index.start` to the end.
pub fn index_slice_from<'a, T>(s: &'a [T], index: CopyRangeFrom<usize>) -> (out: &'a [T])
    requires
        index.start <= s@.len(),
    ensures
        out@ == s@.subrange(index.start as int, s@.len() as int),
{
    slice_subrange(s, index.start, s.len())
}

/// The items of `s` selected by the inclusive range: positions
/// `index.start, ..., index.end`, both included.
pub fn index_slice_inclusive<'a, T>(s: &'a [T], index: CopyRangeInclusive<usize>) -> (out: &'a [
    T])
    requires
        index.start <= index.end + 1 <= s@.len(),
    ensures
        out@ == s@.subrange(index.start as int, index.end + 1),
{
    // the length, a machine word, bounds `index.end + 1`
    let n: usize = s.len();
    slice_subrange(s, index.start, index.end + 1)
}

/// The items of `v` selected by the half-open range.
pub fn index_vec<'a, T>(v: &'a Vec<T>, index: CopyRange<usize>) -> (out: &'a [T])
    requires
        index.start <= index.end <= v@.len(),
    ensures
        out@ == v@.subrange(index.start as int, index.end as int),
{
    index_slice(v.as_slice(), index)
}

/// The items of `v` from position `index.start` to the end.
pub fn index_vec_from<'a, T>(v: &'a Vec<T>, index: CopyRangeFrom<usize>) -> (out: &'a [T])
    requires
        index.start <= v@.len(),
    ensures
        out@ == v@.subrange(index.start as int, v@.len() as int),
{
    index_slice_from(v.as_slice(), index)
}

/// The items of `v` selected by the inclusive range, both bounds included.
pub fn index_vec_inclusive<'a, T>(v: &'a Vec<T>, index: CopyRangeInclusive<usize>) -> (out: &'a [
    T])
    requires
        index.start <= index.end + 1 <= v@.len(),
    ensures
        out@ == v@.subrange(index.start as int, index.end + 1),
{
    index_slice_inclusive(v.as_slice(), index)
}

/// The characters of `s` selected by the half-open range: character
/// positions `index.start, ..., index.end - 1`.
pub fn index_str<'a>(s: &'a str, index: CopyRange<usize>) -> (out: &'a str)
    requires
        index.start <= index.end <= s@.len(),
    ensures
        out@ == s@.subrange(index.start as int, index.end as int),
{
    s.substring_char(index.start, index.end)
}

/// The characters of `s` from character position `index.start` to the end.
pub fn index_str_from<'a>(s: &'a str, index: CopyRangeFrom<usize>) -> (out: &'a str)
    requires
        index.start <= s@.len(),
    ensures
        out@ == s@.subrange(index.start as int, s@.len() as int),
{
    s.substring_char(index.start, s.unicode_len())
}

/// The characters of `s` selected by the inclusive range: character
/// positions `index.start, ..., index.end`, both included.
pub fn index_str_inclusive<'a>(s: &'a str, index: CopyRangeInclusive<usize>) -> (out: &'a str)
    requires
        index.start <= index.end + 1 <= s@.len(),
    ensures
        out@ == s@.subrange(index.start as int, index.end + 1),
{
    // the length, a machine word, bounds `index.end + 1`
    let n: usize = s.unicode_len();
    s.substring_char(index.start, index.end + 1)
}

/// The characters of `s` selected by the half-open range.
pub fn index_string<'a>(s: &'a String, index: CopyRange<usize>) -> (out: &'a str)
    requires
        index.start <= index.end <= s@.len(),
    ensures
        out@ == s@.subrange(index.start as int, index.end as int),
{
    index_str(s.as_str(), index)
}

/// The characters of `s` from character position `index.start` to the end.
pub fn index_string_from<'a>(s: &'a String, index: CopyRangeFrom<usize>) -> (out: &'a str)
    requires
        index.start <= s@.len(),
    ensures
        out@ == s@.subrange(index.start as int, s@.len() as int),
{
    index_str_from(s.as_str(), index)
}

/// The characters of `s` selected by the inclusive range, both bounds
/// included.
pub fn index_string_inclusive<'a>(s: &'a String, index: CopyRangeInclusive<usize>) -> (out: &'a str)
    requires
        index.start <= index.end + 1 <= s@.len(),
    ensures
        out@ == s@.subrange(index.start as int, index.end + 1),
{
    index_str_inclusive(s.as_str(), index)
}

} // verus!
