//! A fully-inclusive range (inclusive start, inclusive end) that is `Copy`.

use vstd::prelude::*;
use vstd::std_specs::cmp::{PartialOrdIs, PartialOrdSpec};
use vstd::std_specs::range::RangeInclusiveView;
use core::ops::RangeInclusive;

verus! {

/// Relies on `RangeInclusive::into_inner`: its documentation says it
/// destructures the range into `(lower bound, upper bound)`, and that the
/// returned value is unspecified after the range has been iterated to
/// exhaustion. Nothing is claimed of an exhausted source.
pub assume_specification<Idx>[ RangeInclusive::<Idx>::into_inner ](
    range: RangeInclusive<Idx>,
) -> (r: (Idx, Idx))
    ensures
        !range@.exhausted ==> r == (range@.start, range@.end),
;

/// A range bounded inclusively below and above, like
/// `core::ops::RangeInclusive`, but `Copy` whenever `Idx` is `Copy`.
///
/// No invariant relates the two fields: `start > end` is representable and
/// simply denotes an empty range. Equality is structural (field-wise), so
/// two distinct representations of an empty range are not equal.
#[derive(Clone, Copy, Debug, PartialEq, Eq, Hash, Structural)]
pub struct CopyRangeInclusive<Idx> {
    pub start: Idx,
    pub end: Idx,
}

impl<Idx> CopyRangeInclusive<Idx> {
    /// The view of the standard inclusive range with the same bounds
    /// (a freshly built standard range is never exhausted).
    pub open spec fn spec_into_std_view(self) -> RangeInclusiveView<Idx> {
        RangeInclusiveView { start: self.start, end: self.end, exhausted: false }
    }

    /// The `CopyRangeInclusive` with the bounds that a standard inclusive
    /// range's view carries. Meaningful only while the view is not
    /// exhausted: an exhausted range's bounds are unspecified.
    pub open spec fn spec_from_std_view(v: RangeInclusiveView<Idx>) -> Self {
        CopyRangeInclusive { start: v.start, end: v.end }
    }

    /// Returns `true` iff `start <= item && item <= end` under the partial
    /// order, whenever the order obeys its specification; unordered operands
    /// make the corresponding comparison false, never an error.
    pub fn contains<U>(&self, item: &U) -> (r: bool) where
        Idx: PartialOrd<U>,
        U: ?Sized + PartialOrd<Idx>,
        ensures
            (<Idx as PartialOrdSpec<U>>::obeys_partial_cmp_spec()
                && <U as PartialOrdSpec<Idx>>::obeys_partial_cmp_spec()) ==> r == (
            self.start.is_le(item) && item.is_le(&self.end)),
    {
        self.start.le(item) && item.le(&self.end)
    }

    /// Returns `true` iff the range contains no items, defined as
    /// `!(start <= end)` under the partial order. This is deliberately not
    /// the same formula as the half-open range's `start >= end`: under a
    /// partial order an unordered pair of bounds counts as empty here.
    pub fn is_empty(&self) -> (r: bool) where Idx: PartialOrd
        ensures
            Idx::obeys_partial_cmp_spec() ==> r == !self.start.is_le(&self.end),
    {
        !self.start.le(&self.end)
    }

    /// Convert a standard `RangeInclusive` into a `CopyRangeInclusive`.
    ///
    /// The conversion preserves both bounds while the source has not been
    /// iterated; after the source has been iterated to exhaustion the
    /// resulting fields are unspecified, a quirk inherited from the standard
    /// range's representation.
    pub fn from_std(range: RangeInclusive<Idx>) -> (r: Self)
        ensures
            !range@.exhausted ==> r == Self::spec_from_std_view(range@),
    {
        let (start, end) = range.into_inner();
        CopyRangeInclusive { start, end }
    }

    /// Convert a `CopyRangeInclusive` into a standard `RangeInclusive`,
    /// preserving both bounds; the result has not been iterated.
    pub fn into_std(self) -> (r: RangeInclusive<Idx>)
        ensures
            r@ == self.spec_into_std_view(),
    {
        let CopyRangeInclusive { start, end } = self;
        RangeInclusive::new(start, end)
    }
}

impl CopyRangeInclusive<usize> {
    /// The items of the range in ascending order: `start, start + 1, ...,
    /// end`, or no items at all when `start > end`.
    pub open spec fn spec_elements(self) -> Seq<usize> {
        if self.start <= self.end {
            Seq::new((self.end - self.start + 1) as nat, |i: int| (self.start + i) as usize)
        } else {
            Seq::empty()
        }
    }

    /// Enumerate the items of the range, in ascending order, into a vector:
    /// exactly `start, start + 1, ..., end`, both bounds included, and
    /// nothing when the range is empty. Total for every pair of bounds,
    /// including an end at the greatest representable index.
    pub fn to_vec(&self) -> (v: Vec<usize>)
        ensures
            v@ == self.spec_elements(),
    {
        let mut v: Vec<usize> = Vec::new();
        if self.start <= self.end {
            let mut i: usize = self.start;
            loop
                invariant_except_break
                    self.start <= i <= self.end,
                    v@ == Seq::new((i - self.start) as nat, |j: int| (self.start + j) as usize),
                ensures
                    v@ == Seq::new(
                        (self.end - self.start + 1) as nat,
                        |j: int| (self.start + j) as usize,
                    ),
                decreases self.end - i,
            {
                v.push(i);
                proof {
                    assert(v@ =~= Seq::new(
                        (i + 1 - self.start) as nat,
                        |j: int| (self.start + j) as usize,
                    ));
                }
                if i == self.end {
                    break;
                }
                i = i + 1;
            }
        }
        proof {
            assert(v@ =~= self.spec_elements());
        }
        v
    }
}

impl<Idx> From<RangeInclusive<Idx>> for CopyRangeInclusive<Idx> {
    /// Convert a standard `RangeInclusive` into a `CopyRangeInclusive`,
    /// preserving both bounds while the source has not been iterated to
    /// exhaustion; after that the fields are unspecified.
    fn from(range: RangeInclusive<Idx>) -> (r: Self)
        ensures
            !range@.exhausted ==> r == Self::spec_from_std_view(range@),
    {
        CopyRangeInclusive::from_std(range)
    }
}

impl<Idx> vstd::std_specs::convert::FromSpecImpl<RangeInclusive<Idx>> for CopyRangeInclusive<Idx> {
    // An exhausted source converts to unspecified bounds, so the conversion
    // is not pinned to a function of the source value; the guarantee on
    // non-exhausted sources stands on the `from` method itself.
    open spec fn obeys_from_spec() -> bool {
        false
    }

    open spec fn from_spec(range: RangeInclusive<Idx>) -> Self {
        Self::spec_from_std_view(range@)
    }
}

impl<Idx> From<CopyRangeInclusive<Idx>> for RangeInclusive<Idx> {
    /// Convert a `CopyRangeInclusive` into a standard `RangeInclusive`,
    /// preserving both bounds; the result has not been iterated.
    fn from(range: CopyRangeInclusive<Idx>) -> (r: Self)
        ensures
            r@ == range.spec_into_std_view(),
    {
        range.into_std()
    }
}

impl<Idx> vstd::std_specs::convert::FromSpecImpl<CopyRangeInclusive<Idx>> for RangeInclusive<Idx> {
    // A standard inclusive range is opaque, so no spec-level value can be
    // written down for the result; its view is pinned by the `from` method
    // itself.
    open spec fn obeys_from_spec() -> bool {
        false
    }

    open spec fn from_spec(range: CopyRangeInclusive<Idx>) -> Self {
        choose|r: RangeInclusive<Idx>| r@ == range.spec_into_std_view()
    }
}

/// Converting a standard inclusive range to a `CopyRangeInclusive` and back
/// yields a range with the original view, provided the source has not been
/// iterated to exhaustion (an exhausted source's bounds are unspecified, so
/// nothing is claimed of it).
pub proof fn lemma_round_trip<Idx>(v: RangeInclusiveView<Idx>)
    requires
        !v.exhausted,
    ensures
        CopyRangeInclusive::spec_from_std_view(v).spec_into_std_view() == v,
{
}

/// The emptiness formula of the inclusive range, `!(start <= end)`, is not
/// the negation of the half-open range's `start >= end` once the order is
/// merely partial: a pair of bounds the order cannot compare is counted
/// empty by the inclusive formula, yet not by the half-open one.
pub proof fn lemma_emptiness_formulas_differ<Idx: PartialOrd>(start: Idx, end: Idx)
    requires
        start.partial_cmp_spec(&end) is None,
    ensures
        !start.is_le(&end),
        !start.is_ge(&end),
{
}

/// Equality of `CopyRangeInclusive` values is structural: it compares the
/// fields and nothing else, so two ranges that are both logically empty but
/// have different bounds are not equal.
pub proof fn lemma_eq_is_structural<Idx>(a: CopyRangeInclusive<Idx>, b: CopyRangeInclusive<Idx>)
    ensures
        (a == b) <==> (a.start == b.start && a.end == b.end),
{
}

} // verus!
