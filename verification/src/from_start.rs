//! A start-only range (inclusive start, unbounded above) that is `Copy`.

use vstd::prelude::*;
use vstd::std_specs::cmp::{PartialOrdIs, PartialOrdSpec};
use core::ops::RangeFrom;

verus! {

/// Relies on `core::ops::RangeFrom` being a plain struct with the single
/// public field `start`; this declaration lets contracts speak of that field.
#[verifier::external_type_specification]
#[verifier::reject_recursive_types(Idx)]
pub struct ExRangeFrom<Idx>(RangeFrom<Idx>);

/// A range bounded inclusively below and unbounded above, like
/// `core::ops::RangeFrom`, but `Copy` whenever `Idx` is `Copy`.
///
/// A start-only range is never considered empty, so no emptiness query
/// is offered. Equality is structural (field-wise).
#[derive(Clone, Copy, Debug, PartialEq, Eq, Hash, Structural)]
pub struct CopyRangeFrom<Idx> {
    pub start: Idx,
}

impl<Idx> CopyRangeFrom<Idx> {
    /// The standard start-only range with the same bound, as a spec-level value.
    pub open spec fn spec_into_std(self) -> RangeFrom<Idx> {
        RangeFrom { start: self.start }
    }

    /// The `CopyRangeFrom` with the same bound as a standard start-only
    /// range, as a spec-level value.
    pub open spec fn spec_from_std(range: RangeFrom<Idx>) -> Self {
        CopyRangeFrom { start: range.start }
    }

    /// Returns `true` iff `start <= item` under the partial order, whenever
    /// the order obeys its specification; an unordered pair makes the
    /// comparison false, never an error.
    pub fn contains<U>(&self, item: &U) -> (r: bool) where
        Idx: PartialOrd<U>,
        U: ?Sized + PartialOrd<Idx>,
        ensures
            <Idx as PartialOrdSpec<U>>::obeys_partial_cmp_spec() ==> r == self.start.is_le(item),
    {
        self.start.le(item)
    }

    /// Convert a standard `RangeFrom` into a `CopyRangeFrom`, preserving
    /// the start bound.
    pub fn from_std(range: RangeFrom<Idx>) -> (r: Self)
        ensures
            r == Self::spec_from_std(range),
    {
        let RangeFrom { start } = range;
        CopyRangeFrom { start }
    }

    /// Convert a `CopyRangeFrom` into a standard `RangeFrom`, preserving
    /// the start bound.
    pub fn into_std(self) -> (r: RangeFrom<Idx>)
        ensures
            r == self.spec_into_std(),
    {
        let CopyRangeFrom { start } = self;
        RangeFrom { start }
    }
}

impl CopyRangeFrom<usize> {
    /// The first `n` items of the range's unbounded ascending sequence:
    /// `start, start + 1, ..., start + n - 1`.
    pub open spec fn spec_prefix(self, n: nat) -> Seq<usize> {
        Seq::new(n, |i: int| (self.start + i) as usize)
    }

    /// Enumerate the first `n` items of the range into a vector: exactly
    /// `start, start + 1, ..., start + n - 1`. The range itself never ends,
    /// so the caller imposes the bound; the items asked for must stay
    /// representable.
    pub fn take(&self, n: usize) -> (v: Vec<usize>)
        requires
            self.start + n <= usize::MAX + 1,
        ensures
            v@ == self.spec_prefix(n as nat),
    {
        let mut v: Vec<usize> = Vec::new();
        let mut k: usize = 0;
        while k < n
            invariant
                k <= n,
                self.start + n <= usize::MAX + 1,
                v@ == Seq::new(k as nat, |i: int| (self.start + i) as usize),
            decreases n - k,
        {
            v.push(self.start + k);
            proof {
                assert(v@ =~= Seq::new((k + 1) as nat, |i: int| (self.start + i) as usize));
            }
            k = k + 1;
        }
        v
    }
}

impl<Idx> From<RangeFrom<Idx>> for CopyRangeFrom<Idx> {
    /// Convert a standard `RangeFrom` into a `CopyRangeFrom`, preserving
    /// the start bound.
    fn from(range: RangeFrom<Idx>) -> (r: Self) {
        CopyRangeFrom::from_std(range)
    }
}

impl<Idx> vstd::std_specs::convert::FromSpecImpl<RangeFrom<Idx>> for CopyRangeFrom<Idx> {
    open spec fn obeys_from_spec() -> bool {
        true
    }

    open spec fn from_spec(range: RangeFrom<Idx>) -> Self {
        Self::spec_from_std(range)
    }
}

impl<Idx> From<CopyRangeFrom<Idx>> for RangeFrom<Idx> {
    /// Convert a `CopyRangeFrom` into a standard `RangeFrom`, preserving
    /// the start bound.
    fn from(range: CopyRangeFrom<Idx>) -> (r: Self) {
        range.into_std()
    }
}

impl<Idx> vstd::std_specs::convert::FromSpecImpl<CopyRangeFrom<Idx>> for RangeFrom<Idx> {
    open spec fn obeys_from_spec() -> bool {
        true
    }

    open spec fn from_spec(range: CopyRangeFrom<Idx>) -> Self {
        range.spec_into_std()
    }
}

/// Converting a standard start-only range to a `CopyRangeFrom` and back
/// yields the original range: the conversions are lossless for every bound.
pub proof fn lemma_round_trip<Idx>(range: RangeFrom<Idx>)
    ensures
        CopyRangeFrom::spec_from_std(range).spec_into_std() == range,
{
}

/// Equality of `CopyRangeFrom` values is structural: it compares the
/// start field and nothing else.
pub proof fn lemma_eq_is_structural<Idx>(a: CopyRangeFrom<Idx>, b: CopyRangeFrom<Idx>)
    ensures
        (a == b) <==> (a.start == b.start),
{
}

} // verus!
