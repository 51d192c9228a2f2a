//! The typed handle: a transparent wrapper that gives a raw integer a
//! distinct type identity, with equality, total ordering, a default, and
//! checked construction from 64-bit values.

use vstd::prelude::*;

use core::cmp::Ordering;

use crate::raw::RawIndex;

verus! {

/// A typed handle over a raw integer of type `I`.
///
/// Two IDs are equal exactly when their raw values are equal, and they order
/// as the raw integers do. The wrapper places no domain constraint on the
/// raw value: any representable integer, zero and negatives included, is a
/// legal ID. Uniqueness and non-negativity come only from an arena's
/// allocation discipline, never from the ID type itself.
#[derive(Debug, Clone, Copy)]
pub struct Id<I>(pub I);

impl<I: RawIndex> Id<I> {
    /// The mathematical value of the raw integer inside.
    pub open spec fn idx(self) -> int {
        self.0.as_int()
    }

    /// Builds an ID from a 64-bit unsigned value.
    ///
    /// Succeeds exactly when the value is representable in `I`; this is pure
    /// delegation to the raw type's conversion, with no extra range logic.
    pub fn from_u64(n: u64) -> (r: Option<Id<I>>)
        ensures
            (I::min_int() <= n as int <= I::max_int()) == (r is Some),
            r matches Some(id) ==> id.idx() == n as int,
    {
        match I::from_u64_checked(n) {
            Some(v) => Some(Id(v)),
            None => None,
        }
    }

    /// Builds an ID from a 64-bit signed value.
    ///
    /// Succeeds exactly when the value is representable in `I`.
    pub fn from_i64(n: i64) -> (r: Option<Id<I>>)
        ensures
            (I::min_int() <= n as int <= I::max_int()) == (r is Some),
            r matches Some(id) ==> id.idx() == n as int,
    {
        match I::from_i64_checked(n) {
            Some(v) => Some(Id(v)),
            None => None,
        }
    }

    /// Hands the stored raw value back unchanged, so that building an ID
    /// from a raw value and converting back is the identity.
    pub fn to_raw(self) -> (r: I)
        ensures
            r == self.0,
    {
        self.0
    }

    /// Total order on IDs, identical to comparing the raw integers.
    pub fn cmp(&self, other: &Self) -> (r: Ordering)
        ensures
            r == Ordering::Less <==> self.idx() < other.idx(),
            r == Ordering::Equal <==> self.idx() == other.idx(),
            r == Ordering::Greater <==> self.idx() > other.idx(),
    {
        if self.0.lt_val(other.0) {
            Ordering::Less
        } else if self.0.eq_val(other.0) {
            Ordering::Equal
        } else {
            Ordering::Greater
        }
    }
}

/// Wrapping a raw value stores it verbatim: no validation, any value is
/// accepted.
impl<I: RawIndex> From<I> for Id<I> {
    fn from(value: I) -> Self {
        Id(value)
    }
}

impl<I: RawIndex> vstd::std_specs::convert::FromSpecImpl<I> for Id<I> {
    open spec fn obeys_from_spec() -> bool {
        true
    }

    open spec fn from_spec(value: I) -> Self {
        Id(value)
    }
}

/// The default ID holds the raw zero value.
impl<I: RawIndex> Default for Id<I> {
    fn default() -> (r: Self)
        ensures
            r.idx() == 0,
    {
        Id(I::zero())
    }
}

/// Two IDs are equal exactly when their raw values are equal.
impl<I: RawIndex> PartialEq for Id<I> {
    fn eq(&self, other: &Self) -> bool {
        self.0.eq_val(other.0)
    }
}

impl<I: RawIndex> Eq for Id<I> {}

impl<I: RawIndex> vstd::std_specs::cmp::PartialEqSpecImpl for Id<I> {
    open spec fn obeys_eq_spec() -> bool {
        true
    }

    open spec fn eq_spec(&self, other: &Self) -> bool {
        self.idx() == other.idx()
    }
}

/// IDs order as their raw integers do; the order is total.
impl<I: RawIndex> PartialOrd for Id<I> {
    fn partial_cmp(&self, other: &Self) -> Option<Ordering> {
        if self.0.lt_val(other.0) {
            Some(Ordering::Less)
        } else if self.0.eq_val(other.0) {
            Some(Ordering::Equal)
        } else {
            Some(Ordering::Greater)
        }
    }
}

impl<I: RawIndex> vstd::std_specs::cmp::PartialOrdSpecImpl for Id<I> {
    open spec fn obeys_partial_cmp_spec() -> bool {
        true
    }

    open spec fn partial_cmp_spec(&self, other: &Self) -> Option<Ordering> {
        if self.idx() < other.idx() {
            Some(Ordering::Less)
        } else if self.idx() == other.idx() {
            Some(Ordering::Equal)
        } else {
            Some(Ordering::Greater)
        }
    }
}

/// An ID is itself a raw index, so an arena can be addressed by `Id<I>`
/// directly: every operation delegates to the raw value inside.
impl<I: RawIndex> RawIndex for Id<I> {
    open spec fn as_int(self) -> int {
        self.0.as_int()
    }

    open spec fn min_int() -> int {
        I::min_int()
    }

    open spec fn max_int() -> int {
        I::max_int()
    }

    proof fn lemma_in_range(self) {
        self.0.lemma_in_range();
    }

    proof fn lemma_as_int_injective(self, other: Self) {
        self.0.lemma_as_int_injective(other.0);
    }

    fn zero() -> Self {
        Id(I::zero())
    }

    fn from_u64_checked(n: u64) -> Option<Self> {
        match I::from_u64_checked(n) {
            Some(v) => Some(Id(v)),
            None => None,
        }
    }

    fn from_i64_checked(n: i64) -> Option<Self> {
        match I::from_i64_checked(n) {
            Some(v) => Some(Id(v)),
            None => None,
        }
    }

    fn from_index(n: usize) -> Self {
        Id(I::from_index(n))
    }

    fn to_index(self) -> usize {
        self.0.to_index()
    }

    fn is_index(self) -> bool {
        self.0.is_index()
    }

    fn eq_val(self, other: Self) -> bool {
        self.0.eq_val(other.0)
    }

    fn lt_val(self, other: Self) -> bool {
        self.0.lt_val(other.0)
    }
}

/// Implemented by element types that carry their own ID, so that a value
/// stored in an arena can name itself.
pub trait HasId {
    /// The raw integer type the element's ID wraps.
    type I: RawIndex;

    /// The element's own ID.
    fn id(&self) -> Id<Self::I>;
}

} // verus!
