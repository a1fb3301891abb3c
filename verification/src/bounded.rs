//! A half-open range (inclusive start, exclusive end) that is `Copy`.

use vstd::prelude::*;
use vstd::std_specs::cmp::{PartialOrdIs, PartialOrdSpec};
use core::ops::Range;

verus! {

/// A half-open range bounded inclusively below and exclusively above,
/// like `core::ops::Range`, but `Copy` whenever `Idx` is `Copy`.
///
/// No invariant relates the two fields: `start > end` is representable
/// and simply denotes an empty range. Equality is structural (field-wise),
/// so two distinct representations of an empty range are not equal.
#[derive(Clone, Copy, Debug, Default, PartialEq, Eq, Hash, Structural)]
pub struct CopyRange<Idx> {
    pub start: Idx,
    pub end: Idx,
}

impl<Idx> CopyRange<Idx> {
    /// The standard range with the same bounds, as a spec-level value.
    pub open spec fn spec_into_std(self) -> Range<Idx> {
        Range { start: self.start, end: self.end }
    }

    /// The `CopyRange` with the same bounds as a standard range,
    /// as a spec-level value.
    pub open spec fn spec_from_std(range: Range<Idx>) -> Self {
        CopyRange { start: range.start, end: range.end }
    }

    /// Returns `true` iff `start <= item && item < end` under the partial
    /// order, whenever the order obeys its specification; unordered operands
    /// make the corresponding comparison false, never an error.
    pub fn contains<U>(&self, item: &U) -> (r: bool) where
        Idx: PartialOrd<U>,
        U: ?Sized + PartialOrd<Idx>,
        ensures
            (<Idx as PartialOrdSpec<U>>::obeys_partial_cmp_spec()
                && <U as PartialOrdSpec<Idx>>::obeys_partial_cmp_spec()) ==> r == (
            self.start.is_le(item) && item.is_lt(&self.end)),
    {
        self.start.le(item) && item.lt(&self.end)
    }

    /// Convert a standard `Range` into a `CopyRange`, preserving both fields.
    pub fn from_std(range: Range<Idx>) -> (r: Self)
        ensures
            r == Self::spec_from_std(range),
    {
        let Range { start, end } = range;
        CopyRange { start, end }
    }

    /// Convert a `CopyRange` into a standard `Range`, preserving both fields.
    pub fn into_std(self) -> (r: Range<Idx>)
        ensures
            r == self.spec_into_std(),
    {
        let CopyRange { start, end } = self;
        Range { start, end }
    }

    /// Returns `true` iff the range contains no items, i.e. `start >= end`
    /// under the partial order (unordered bounds are not considered empty
    /// by this formula).
    pub fn is_empty(&self) -> (r: bool) where Idx: PartialOrd
        ensures
            Idx::obeys_partial_cmp_spec() ==> r == self.start.is_ge(&self.end),
    {
        self.start.ge(&self.end)
    }
}

impl CopyRange<usize> {
    /// The items of the range in ascending order: `start, start + 1, ...,
    /// end - 1`, or no items at all when `start >= end`.
    pub open spec fn spec_elements(self) -> Seq<usize> {
        if self.start <= self.end {
            Seq::new((self.end - self.start) as nat, |i: int| (self.start + i) as usize)
        } else {
            Seq::empty()
        }
    }

    /// Enumerate the items of the range, in ascending order, into a vector:
    /// exactly `start, start + 1, ..., end - 1`, and nothing when the range
    /// is empty.
    pub fn to_vec(&self) -> (v: Vec<usize>)
        ensures
            v@ == self.spec_elements(),
    {
        let mut v: Vec<usize> = Vec::new();
        let mut i: usize = self.start;
        while i < self.end
            invariant
                self.start <= i,
                self.start <= self.end ==> i <= self.end,
                self.start > self.end ==> i == self.start,
                v@ == Seq::new((i - self.start) as nat, |j: int| (self.start + j) as usize),
            decreases self.end - i,
        {
            v.push(i);
            proof {
                assert(v@ =~= Seq::new(
                    (i + 1 - self.start) as nat,
                    |j: int| (self.start + j) as usize,
                ));
            }
            i = i + 1;
        }
        proof {
            assert(v@ =~= self.spec_elements());
        }
        v
    }
}

impl<Idx> From<Range<Idx>> for CopyRange<Idx> {
    /// Convert a standard `Range` into a `CopyRange`, preserving both fields.
    fn from(range: Range<Idx>) -> (r: Self) {
        CopyRange::from_std(range)
    }
}

impl<Idx> vstd::std_specs::convert::FromSpecImpl<Range<Idx>> for CopyRange<Idx> {
    open spec fn obeys_from_spec() -> bool {
        true
    }

    open spec fn from_spec(range: Range<Idx>) -> Self {
        Self::spec_from_std(range)
    }
}

impl<Idx> From<CopyRange<Idx>> for Range<Idx> {
    /// Convert a `CopyRange` into a standard `Range`, preserving both fields.
    fn from(range: CopyRange<Idx>) -> (r: Self) {
        range.into_std()
    }
}

impl<Idx> vstd::std_specs::convert::FromSpecImpl<CopyRange<Idx>> for Range<Idx> {
    open spec fn obeys_from_spec() -> bool {
        true
    }

    open spec fn from_spec(range: CopyRange<Idx>) -> Self {
        range.spec_into_std()
    }
}

/// Converting a standard range to a `CopyRange` and back yields the
/// original range: the conversions are lossless for every pair of bounds,
/// empty or not.
pub proof fn lemma_round_trip<Idx>(range: Range<Idx>)
    ensures
        CopyRange::spec_from_std(range).spec_into_std() == range,
{
}

/// Equality of `CopyRange` values is structural: it compares the fields
/// and nothing else, so two ranges that are both logically empty but have
/// different bounds are not equal.
pub proof fn lemma_eq_is_structural<Idx>(a: CopyRange<Idx>, b: CopyRange<Idx>)
    ensures
        (a == b) <==> (a.start == b.start && a.end == b.end),
{
}

} // verus!
