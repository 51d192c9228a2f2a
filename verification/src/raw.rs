//! The capability set a type must offer to serve as an arena handle:
//! cheap copying, a zero value, conversion to and from a raw index, and
//! comparison. Implementations are provided for the primitive integer
//! widths an arena index is normally stored in.

use vstd::prelude::*;

verus! {

/// A raw index value: an integer-like type that an arena can mint from a
/// position and convert back without loss.
///
/// The mathematical model of a value is [`RawIndex::as_int`]; every
/// operation's contract is stated over it. `min_int()..=max_int()` is the
/// representable range, and `as_int` is injective, so the model is faithful.
pub trait RawIndex: Sized + Copy {
    /// The mathematical value this raw index stands for.
    spec fn as_int(self) -> int;

    /// The smallest representable value.
    spec fn min_int() -> int;

    /// The largest representable value.
    spec fn max_int() -> int;

    /// Every value lies within the representable range.
    proof fn lemma_in_range(self)
        ensures
            Self::min_int() <= self.as_int() <= Self::max_int(),
    ;

    /// Equal models mean equal values: the model loses nothing.
    proof fn lemma_as_int_injective(self, other: Self)
        ensures
            self.as_int() == other.as_int() ==> self == other,
    ;

    /// The value whose model is zero, used for default-constructed handles.
    fn zero() -> (r: Self)
        ensures
            r.as_int() == 0,
    ;

    /// Converts from a 64-bit unsigned value, succeeding exactly when the
    /// value is representable.
    fn from_u64_checked(n: u64) -> (r: Option<Self>)
        ensures
            (Self::min_int() <= n as int <= Self::max_int()) == (r is Some),
            r matches Some(v) ==> v.as_int() == n as int,
    ;

    /// Converts from a 64-bit signed value, succeeding exactly when the
    /// value is representable.
    fn from_i64_checked(n: i64) -> (r: Option<Self>)
        ensures
            (Self::min_int() <= n as int <= Self::max_int()) == (r is Some),
            r matches Some(v) ==> v.as_int() == n as int,
    ;

    /// Mints the value whose model is the given position.
    fn from_index(n: usize) -> (r: Self)
        requires
            n as int <= Self::max_int(),
        ensures
            r.as_int() == n as int,
    ;

    /// Reads the position a value stands for.
    fn to_index(self) -> (r: usize)
        requires
            0 <= self.as_int() <= usize::MAX as int,
        ensures
            r as int == self.as_int(),
    ;

    /// True exactly when the value can serve as a position.
    fn is_index(self) -> (r: bool)
        ensures
            r == (0 <= self.as_int() <= usize::MAX as int),
    ;

    /// Equality of the models, decided executably.
    fn eq_val(self, other: Self) -> (r: bool)
        ensures
            r == (self.as_int() == other.as_int()),
    ;

    /// Strict order of the models, decided executably.
    fn lt_val(self, other: Self) -> (r: bool)
        ensures
            r == (self.as_int() < other.as_int()),
    ;
}

impl RawIndex for usize {
    open spec fn as_int(self) -> int {
        self as int
    }

    open spec fn min_int() -> int {
        0
    }

    open spec fn max_int() -> int {
        usize::MAX as int
    }

    proof fn lemma_in_range(self) {
    }

    proof fn lemma_as_int_injective(self, other: Self) {
    }

    fn zero() -> Self {
        0
    }

    fn from_u64_checked(n: u64) -> Option<Self> {
        if n <= usize::MAX as u64 {
            Some(n as usize)
        } else {
            None
        }
    }

    fn from_i64_checked(n: i64) -> Option<Self> {
        if 0 <= n && (n as u64) <= usize::MAX as u64 {
            Some(n as usize)
        } else {
            None
        }
    }

    fn from_index(n: usize) -> Self {
        n
    }

    fn to_index(self) -> usize {
        self
    }

    fn is_index(self) -> bool {
        true
    }

    fn eq_val(self, other: Self) -> bool {
        self == other
    }

    fn lt_val(self, other: Self) -> bool {
        self < other
    }
}

impl RawIndex for u8 {
    open spec fn as_int(self) -> int {
        self as int
    }

    open spec fn min_int() -> int {
        0
    }

    open spec fn max_int() -> int {
        u8::MAX as int
    }

    proof fn lemma_in_range(self) {
    }

    proof fn lemma_as_int_injective(self, other: Self) {
    }

    fn zero() -> Self {
        0
    }

    fn from_u64_checked(n: u64) -> Option<Self> {
        if n <= u8::MAX as u64 {
            Some(n as u8)
        } else {
            None
        }
    }

    fn from_i64_checked(n: i64) -> Option<Self> {
        if 0 <= n && n <= u8::MAX as i64 {
            Some(n as u8)
        } else {
            None
        }
    }

    fn from_index(n: usize) -> Self {
        n as u8
    }

    fn to_index(self) -> usize {
        self as usize
    }

    fn is_index(self) -> bool {
        true
    }

    fn eq_val(self, other: Self) -> bool {
        self == other
    }

    fn lt_val(self, other: Self) -> bool {
        self < other
    }
}

impl RawIndex for u16 {
    open spec fn as_int(self) -> int {
        self as int
    }

    open spec fn min_int() -> int {
        0
    }

    open spec fn max_int() -> int {
        u16::MAX as int
    }

    proof fn lemma_in_range(self) {
    }

    proof fn lemma_as_int_injective(self, other: Self) {
    }

    fn zero() -> Self {
        0
    }

    fn from_u64_checked(n: u64) -> Option<Self> {
        if n <= u16::MAX as u64 {
            Some(n as u16)
        } else {
            None
        }
    }

    fn from_i64_checked(n: i64) -> Option<Self> {
        if 0 <= n && n <= u16::MAX as i64 {
            Some(n as u16)
        } else {
            None
        }
    }

    fn from_index(n: usize) -> Self {
        n as u16
    }

    fn to_index(self) -> usize {
        self as usize
    }

    fn is_index(self) -> bool {
        true
    }

    fn eq_val(self, other: Self) -> bool {
        self == other
    }

    fn lt_val(self, other: Self) -> bool {
        self < other
    }
}

impl RawIndex for u32 {
    open spec fn as_int(self) -> int {
        self as int
    }

    open spec fn min_int() -> int {
        0
    }

    open spec fn max_int() -> int {
        u32::MAX as int
    }

    proof fn lemma_in_range(self) {
    }

    proof fn lemma_as_int_injective(self, other: Self) {
    }

    fn zero() -> Self {
        0
    }

    fn from_u64_checked(n: u64) -> Option<Self> {
        if n <= u32::MAX as u64 {
            Some(n as u32)
        } else {
            None
        }
    }

    fn from_i64_checked(n: i64) -> Option<Self> {
        if 0 <= n && n <= u32::MAX as i64 {
            Some(n as u32)
        } else {
            None
        }
    }

    fn from_index(n: usize) -> Self {
        n as u32
    }

    fn to_index(self) -> usize {
        self as usize
    }

    fn is_index(self) -> bool {
        true
    }

    fn eq_val(self, other: Self) -> bool {
        self == other
    }

    fn lt_val(self, other: Self) -> bool {
        self < other
    }
}

impl RawIndex for u64 {
    open spec fn as_int(self) -> int {
        self as int
    }

    open spec fn min_int() -> int {
        0
    }

    open spec fn max_int() -> int {
        u64::MAX as int
    }

    proof fn lemma_in_range(self) {
    }

    proof fn lemma_as_int_injective(self, other: Self) {
    }

    fn zero() -> Self {
        0
    }

    fn from_u64_checked(n: u64) -> Option<Self> {
        Some(n)
    }

    fn from_i64_checked(n: i64) -> Option<Self> {
        if 0 <= n {
            Some(n as u64)
        } else {
            None
        }
    }

    fn from_index(n: usize) -> Self {
        n as u64
    }

    fn to_index(self) -> usize {
        self as usize
    }

    fn is_index(self) -> bool {
        self <= usize::MAX as u64
    }

    fn eq_val(self, other: Self) -> bool {
        self == other
    }

    fn lt_val(self, other: Self) -> bool {
        self < other
    }
}

impl RawIndex for i32 {
    open spec fn as_int(self) -> int {
        self as int
    }

    open spec fn min_int() -> int {
        i32::MIN as int
    }

    open spec fn max_int() -> int {
        i32::MAX as int
    }

    proof fn lemma_in_range(self) {
    }

    proof fn lemma_as_int_injective(self, other: Self) {
    }

    fn zero() -> Self {
        0
    }

    fn from_u64_checked(n: u64) -> Option<Self> {
        if n <= i32::MAX as u64 {
            Some(n as i32)
        } else {
            None
        }
    }

    fn from_i64_checked(n: i64) -> Option<Self> {
        if i32::MIN as i64 <= n && n <= i32::MAX as i64 {
            Some(n as i32)
        } else {
            None
        }
    }

    fn from_index(n: usize) -> Self {
        n as i32
    }

    fn to_index(self) -> usize {
        self as usize
    }

    fn is_index(self) -> bool {
        0 <= self
    }

    fn eq_val(self, other: Self) -> bool {
        self == other
    }

    fn lt_val(self, other: Self) -> bool {
        self < other
    }
}

impl RawIndex for i64 {
    open spec fn as_int(self) -> int {
        self as int
    }

    open spec fn min_int() -> int {
        i64::MIN as int
    }

    open spec fn max_int() -> int {
        i64::MAX as int
    }

    proof fn lemma_in_range(self) {
    }

    proof fn lemma_as_int_injective(self, other: Self) {
    }

    fn zero() -> Self {
        0
    }

    fn from_u64_checked(n: u64) -> Option<Self> {
        if n <= i64::MAX as u64 {
            Some(n as i64)
        } else {
            None
        }
    }

    fn from_i64_checked(n: i64) -> Option<Self> {
        Some(n)
    }

    fn from_index(n: usize) -> Self {
        n as i64
    }

    fn to_index(self) -> usize {
        self as usize
    }

    fn is_index(self) -> bool {
        0 <= self && (self as u64) <= usize::MAX as u64
    }

    fn eq_val(self, other: Self) -> bool {
        self == other
    }

    fn lt_val(self, other: Self) -> bool {
        self < other
    }
}

} // verus!
