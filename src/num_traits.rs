//! Small numeric capabilities used by the generic geometry types: a zero, a one,
//! subtraction that wraps instead of trapping, and a marker for types whose least
//! value is zero.

use vstd::prelude::*;

verus! {

/// A machine integer type, read as a mathematical integer in specifications.
pub trait Integer: Sized + Copy {
    /// The value as a mathematical integer.
    spec fn to_int(self) -> int;

    /// The least value of the type.
    spec fn lowest() -> int;

    /// The greatest value of the type.
    spec fn highest() -> int;

    proof fn lemma_in_range(self)
        ensures
            Self::lowest() <= self.to_int() <= Self::highest(),
    ;
}

pub trait Zero: Integer {
    fn zero() -> (r: Self)
        ensures
            r.to_int() == 0,
    ;
}

pub trait One: Integer {
    fn one() -> (r: Self)
        ensures
            r.to_int() == 1,
    ;
}

pub trait WrappingSub: Integer {
    /// `self - other`, wrapping around at the bounds of the type; exact whenever
    /// the difference is representable.
    fn wrapping_sub(self, other: Self) -> (r: Self)
        ensures
            Self::lowest() <= self.to_int() - other.to_int() <= Self::highest() ==> r.to_int()
                == self.to_int() - other.to_int(),
    ;
}

/// Marker for types where `0` is the least element.
pub trait Unsigned: Integer {
    proof fn lemma_least_is_zero()
        ensures
            Self::lowest() == 0,
    ;
}

impl Integer for u8 {
    open spec fn to_int(self) -> int {
        self as int
    }

    open spec fn lowest() -> int {
        0
    }

    open spec fn highest() -> int {
        u8::MAX as int
    }

    proof fn lemma_in_range(self) {
    }
}

impl Zero for u8 {
    fn zero() -> (r: Self) {
        0
    }
}

impl One for u8 {
    fn one() -> (r: Self) {
        1
    }
}

impl WrappingSub for u8 {
    fn wrapping_sub(self, other: Self) -> (r: Self) {
        u8::wrapping_sub(self, other)
    }
}

impl Unsigned for u8 {
    proof fn lemma_least_is_zero() {
    }
}

impl Integer for u16 {
    open spec fn to_int(self) -> int {
        self as int
    }

    open spec fn lowest() -> int {
        0
    }

    open spec fn highest() -> int {
        u16::MAX as int
    }

    proof fn lemma_in_range(self) {
    }
}

impl Zero for u16 {
    fn zero() -> (r: Self) {
        0
    }
}

impl One for u16 {
    fn one() -> (r: Self) {
        1
    }
}

impl WrappingSub for u16 {
    fn wrapping_sub(self, other: Self) -> (r: Self) {
        u16::wrapping_sub(self, other)
    }
}

impl Unsigned for u16 {
    proof fn lemma_least_is_zero() {
    }
}

impl Integer for u32 {
    open spec fn to_int(self) -> int {
        self as int
    }

    open spec fn lowest() -> int {
        0
    }

    open spec fn highest() -> int {
        u32::MAX as int
    }

    proof fn lemma_in_range(self) {
    }
}

impl Zero for u32 {
    fn zero() -> (r: Self) {
        0
    }
}

impl One for u32 {
    fn one() -> (r: Self) {
        1
    }
}

impl WrappingSub for u32 {
    fn wrapping_sub(self, other: Self) -> (r: Self) {
        u32::wrapping_sub(self, other)
    }
}

impl Unsigned for u32 {
    proof fn lemma_least_is_zero() {
    }
}

impl Integer for u64 {
    open spec fn to_int(self) -> int {
        self as int
    }

    open spec fn lowest() -> int {
        0
    }

    open spec fn highest() -> int {
        u64::MAX as int
    }

    proof fn lemma_in_range(self) {
    }
}

impl Zero for u64 {
    fn zero() -> (r: Self) {
        0
    }
}

impl One for u64 {
    fn one() -> (r: Self) {
        1
    }
}

impl WrappingSub for u64 {
    fn wrapping_sub(self, other: Self) -> (r: Self) {
        u64::wrapping_sub(self, other)
    }
}

impl Unsigned for u64 {
    proof fn lemma_least_is_zero() {
    }
}

impl Integer for u128 {
    open spec fn to_int(self) -> int {
        self as int
    }

    open spec fn lowest() -> int {
        0
    }

    open spec fn highest() -> int {
        u128::MAX as int
    }

    proof fn lemma_in_range(self) {
    }
}

impl Zero for u128 {
    fn zero() -> (r: Self) {
        0
    }
}

impl One for u128 {
    fn one() -> (r: Self) {
        1
    }
}

impl WrappingSub for u128 {
    fn wrapping_sub(self, other: Self) -> (r: Self) {
        u128::wrapping_sub(self, other)
    }
}

impl Unsigned for u128 {
    proof fn lemma_least_is_zero() {
    }
}

impl Integer for usize {
    open spec fn to_int(self) -> int {
        self as int
    }

    open spec fn lowest() -> int {
        0
    }

    open spec fn highest() -> int {
        usize::MAX as int
    }

    proof fn lemma_in_range(self) {
    }
}

impl Zero for usize {
    fn zero() -> (r: Self) {
        0
    }
}

impl One for usize {
    fn one() -> (r: Self) {
        1
    }
}

impl WrappingSub for usize {
    fn wrapping_sub(self, other: Self) -> (r: Self) {
        usize::wrapping_sub(self, other)
    }
}

impl Unsigned for usize {
    proof fn lemma_least_is_zero() {
    }
}

impl Integer for i8 {
    open spec fn to_int(self) -> int {
        self as int
    }

    open spec fn lowest() -> int {
        i8::MIN as int
    }

    open spec fn highest() -> int {
        i8::MAX as int
    }

    proof fn lemma_in_range(self) {
    }
}

impl Zero for i8 {
    fn zero() -> (r: Self) {
        0
    }
}

impl One for i8 {
    fn one() -> (r: Self) {
        1
    }
}

impl WrappingSub for i8 {
    fn wrapping_sub(self, other: Self) -> (r: Self) {
        i8::wrapping_sub(self, other)
    }
}

impl Integer for i16 {
    open spec fn to_int(self) -> int {
        self as int
    }

    open spec fn lowest() -> int {
        i16::MIN as int
    }

    open spec fn highest() -> int {
        i16::MAX as int
    }

    proof fn lemma_in_range(self) {
    }
}

impl Zero for i16 {
    fn zero() -> (r: Self) {
        0
    }
}

impl One for i16 {
    fn one() -> (r: Self) {
        1
    }
}

impl WrappingSub for i16 {
    fn wrapping_sub(self, other: Self) -> (r: Self) {
        i16::wrapping_sub(self, other)
    }
}

impl Integer for i32 {
    open spec fn to_int(self) -> int {
        self as int
    }

    open spec fn lowest() -> int {
        i32::MIN as int
    }

    open spec fn highest() -> int {
        i32::MAX as int
    }

    proof fn lemma_in_range(self) {
    }
}

impl Zero for i32 {
    fn zero() -> (r: Self) {
        0
    }
}

impl One for i32 {
    fn one() -> (r: Self) {
        1
    }
}

impl WrappingSub for i32 {
    fn wrapping_sub(self, other: Self) -> (r: Self) {
        i32::wrapping_sub(self, other)
    }
}

impl Integer for i64 {
    open spec fn to_int(self) -> int {
        self as int
    }

    open spec fn lowest() -> int {
        i64::MIN as int
    }

    open spec fn highest() -> int {
        i64::MAX as int
    }

    proof fn lemma_in_range(self) {
    }
}

impl Zero for i64 {
    fn zero() -> (r: Self) {
        0
    }
}

impl One for i64 {
    fn one() -> (r: Self) {
        1
    }
}

impl WrappingSub for i64 {
    fn wrapping_sub(self, other: Self) -> (r: Self) {
        i64::wrapping_sub(self, other)
    }
}

impl Integer for i128 {
    open spec fn to_int(self) -> int {
        self as int
    }

    open spec fn lowest() -> int {
        i128::MIN as int
    }

    open spec fn highest() -> int {
        i128::MAX as int
    }

    proof fn lemma_in_range(self) {
    }
}

impl Zero for i128 {
    fn zero() -> (r: Self) {
        0
    }
}

impl One for i128 {
    fn one() -> (r: Self) {
        1
    }
}

impl WrappingSub for i128 {
    fn wrapping_sub(self, other: Self) -> (r: Self) {
        i128::wrapping_sub(self, other)
    }
}

impl Integer for isize {
    open spec fn to_int(self) -> int {
        self as int
    }

    open spec fn lowest() -> int {
        isize::MIN as int
    }

    open spec fn highest() -> int {
        isize::MAX as int
    }

    proof fn lemma_in_range(self) {
    }
}

impl Zero for isize {
    fn zero() -> (r: Self) {
        0
    }
}

impl One for isize {
    fn one() -> (r: Self) {
        1
    }
}

impl WrappingSub for isize {
    fn wrapping_sub(self, other: Self) -> (r: Self) {
        isize::wrapping_sub(self, other)
    }
}

} // verus!
