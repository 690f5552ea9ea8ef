//! Fixed-size linear algebra: vectors and matrices with compile-time
//! dimensions, elementwise arithmetic, a matrix-vector product, and
//! semantic-view traits (colour channels, points, sizes) layered over the
//! same storage.

use vstd::prelude::*;

pub mod colours;
pub mod matrix;
mod operations;
pub mod points;
pub mod sizes;
pub mod vector;

pub use self::operations::dot_prefix;

verus! {

/// The mathematical image of a sequence of numeric values.
pub open spec fn math_seq<T: Num>(s: Seq<T>) -> Seq<int> {
    Seq::new(s.len(), |i: int| s[i].as_math())
}

/// The arithmetic capability set shared by the primitive numeric types that
/// may serve as container elements.
///
/// Each implementing type maps its values into the mathematical integers
/// through [`Num::as_math`], and its machine range is bounded by
/// [`Num::min_val`] and [`Num::max_val`]. The arithmetic methods are exact
/// on that mathematical image whenever the result stays inside the range.
///
/// The set is closed over a fixed enumeration of built-in integer types;
/// no user-defined type joins it without extending the enumeration.
pub trait Num: Sized + Copy {
    /// The mathematical integer this value stands for.
    spec fn as_math(self) -> int;

    /// The smallest mathematical value the type can hold.
    spec fn min_val() -> int;

    /// The largest mathematical value the type can hold.
    spec fn max_val() -> int;

    /// Every value lies inside the type's range.
    proof fn lemma_in_range(self)
        ensures
            Self::min_val() <= self.as_math() <= Self::max_val(),
    ;

    /// Two values with the same mathematical image are the same value.
    proof fn lemma_as_math_injective(self, other: Self)
        ensures
            self.as_math() == other.as_math() ==> self == other,
    ;

    /// Exact addition, defined when the sum stays in range.
    fn add_num(self, rhs: Self) -> (r: Self)
        requires
            Self::min_val() <= self.as_math() + rhs.as_math() <= Self::max_val(),
        ensures
            r.as_math() == self.as_math() + rhs.as_math(),
    ;

    /// Exact subtraction, defined when the difference stays in range.
    fn sub_num(self, rhs: Self) -> (r: Self)
        requires
            Self::min_val() <= self.as_math() - rhs.as_math() <= Self::max_val(),
        ensures
            r.as_math() == self.as_math() - rhs.as_math(),
    ;

    /// Exact multiplication, defined when the product stays in range.
    fn mul_num(self, rhs: Self) -> (r: Self)
        requires
            Self::min_val() <= self.as_math() * rhs.as_math() <= Self::max_val(),
        ensures
            r.as_math() == self.as_math() * rhs.as_math(),
    ;

    /// Equality comparison, decided on the mathematical image.
    fn eq_num(self, rhs: Self) -> (r: bool)
        ensures
            r <==> self.as_math() == rhs.as_math(),
    ;
}

/// Provides the zero value of a numeric type.
pub trait Zero: Num {
    /// Returns the value whose mathematical image is zero.
    fn zero() -> (r: Self)
        ensures
            r.as_math() == 0,
    ;
}

impl Num for u8 {
    open spec fn as_math(self) -> int {
        self as int
    }

    open spec fn min_val() -> int {
        0
    }

    open spec fn max_val() -> int {
        u8::MAX as int
    }

    proof fn lemma_in_range(self) {
    }

    proof fn lemma_as_math_injective(self, other: Self) {
    }

    fn add_num(self, rhs: Self) -> u8 {
        self + rhs
    }

    fn sub_num(self, rhs: Self) -> u8 {
        self - rhs
    }

    fn mul_num(self, rhs: Self) -> u8 {
        self * rhs
    }

    fn eq_num(self, rhs: Self) -> bool {
        self == rhs
    }
}

impl Zero for u8 {
    fn zero() -> u8 {
        0
    }
}

impl Num for i8 {
    open spec fn as_math(self) -> int {
        self as int
    }

    open spec fn min_val() -> int {
        i8::MIN as int
    }

    open spec fn max_val() -> int {
        i8::MAX as int
    }

    proof fn lemma_in_range(self) {
    }

    proof fn lemma_as_math_injective(self, other: Self) {
    }

    fn add_num(self, rhs: Self) -> i8 {
        self + rhs
    }

    fn sub_num(self, rhs: Self) -> i8 {
        self - rhs
    }

    fn mul_num(self, rhs: Self) -> i8 {
        self * rhs
    }

    fn eq_num(self, rhs: Self) -> bool {
        self == rhs
    }
}

impl Zero for i8 {
    fn zero() -> i8 {
        0
    }
}

impl Num for i16 {
    open spec fn as_math(self) -> int {
        self as int
    }

    open spec fn min_val() -> int {
        i16::MIN as int
    }

    open spec fn max_val() -> int {
        i16::MAX as int
    }

    proof fn lemma_in_range(self) {
    }

    proof fn lemma_as_math_injective(self, other: Self) {
    }

    fn add_num(self, rhs: Self) -> i16 {
        self + rhs
    }

    fn sub_num(self, rhs: Self) -> i16 {
        self - rhs
    }

    fn mul_num(self, rhs: Self) -> i16 {
        self * rhs
    }

    fn eq_num(self, rhs: Self) -> bool {
        self == rhs
    }
}

impl Zero for i16 {
    fn zero() -> i16 {
        0
    }
}

impl Num for i32 {
    open spec fn as_math(self) -> int {
        self as int
    }

    open spec fn min_val() -> int {
        i32::MIN as int
    }

    open spec fn max_val() -> int {
        i32::MAX as int
    }

    proof fn lemma_in_range(self) {
    }

    proof fn lemma_as_math_injective(self, other: Self) {
    }

    fn add_num(self, rhs: Self) -> i32 {
        self + rhs
    }

    fn sub_num(self, rhs: Self) -> i32 {
        self - rhs
    }

    fn mul_num(self, rhs: Self) -> i32 {
        self * rhs
    }

    fn eq_num(self, rhs: Self) -> bool {
        self == rhs
    }
}

impl Zero for i32 {
    fn zero() -> i32 {
        0
    }
}

impl Num for i64 {
    open spec fn as_math(self) -> int {
        self as int
    }

    open spec fn min_val() -> int {
        i64::MIN as int
    }

    open spec fn max_val() -> int {
        i64::MAX as int
    }

    proof fn lemma_in_range(self) {
    }

    proof fn lemma_as_math_injective(self, other: Self) {
    }

    fn add_num(self, rhs: Self) -> i64 {
        self + rhs
    }

    fn sub_num(self, rhs: Self) -> i64 {
        self - rhs
    }

    fn mul_num(self, rhs: Self) -> i64 {
        self * rhs
    }

    fn eq_num(self, rhs: Self) -> bool {
        self == rhs
    }
}

impl Zero for i64 {
    fn zero() -> i64 {
        0
    }
}

impl Num for i128 {
    open spec fn as_math(self) -> int {
        self as int
    }

    open spec fn min_val() -> int {
        i128::MIN as int
    }

    open spec fn max_val() -> int {
        i128::MAX as int
    }

    proof fn lemma_in_range(self) {
    }

    proof fn lemma_as_math_injective(self, other: Self) {
    }

    fn add_num(self, rhs: Self) -> i128 {
        self + rhs
    }

    fn sub_num(self, rhs: Self) -> i128 {
        self - rhs
    }

    fn mul_num(self, rhs: Self) -> i128 {
        self * rhs
    }

    fn eq_num(self, rhs: Self) -> bool {
        self == rhs
    }
}

impl Zero for i128 {
    fn zero() -> i128 {
        0
    }
}

impl Num for u16 {
    open spec fn as_math(self) -> int {
        self as int
    }

    open spec fn min_val() -> int {
        u16::MIN as int
    }

    open spec fn max_val() -> int {
        u16::MAX as int
    }

    proof fn lemma_in_range(self) {
    }

    proof fn lemma_as_math_injective(self, other: Self) {
    }

    fn add_num(self, rhs: Self) -> u16 {
        self + rhs
    }

    fn sub_num(self, rhs: Self) -> u16 {
        self - rhs
    }

    fn mul_num(self, rhs: Self) -> u16 {
        self * rhs
    }

    fn eq_num(self, rhs: Self) -> bool {
        self == rhs
    }
}

impl Zero for u16 {
    fn zero() -> u16 {
        0
    }
}

impl Num for u32 {
    open spec fn as_math(self) -> int {
        self as int
    }

    open spec fn min_val() -> int {
        u32::MIN as int
    }

    open spec fn max_val() -> int {
        u32::MAX as int
    }

    proof fn lemma_in_range(self) {
    }

    proof fn lemma_as_math_injective(self, other: Self) {
    }

    fn add_num(self, rhs: Self) -> u32 {
        self + rhs
    }

    fn sub_num(self, rhs: Self) -> u32 {
        self - rhs
    }

    fn mul_num(self, rhs: Self) -> u32 {
        self * rhs
    }

    fn eq_num(self, rhs: Self) -> bool {
        self == rhs
    }
}

impl Zero for u32 {
    fn zero() -> u32 {
        0
    }
}

impl Num for u64 {
    open spec fn as_math(self) -> int {
        self as int
    }

    open spec fn min_val() -> int {
        u64::MIN as int
    }

    open spec fn max_val() -> int {
        u64::MAX as int
    }

    proof fn lemma_in_range(self) {
    }

    proof fn lemma_as_math_injective(self, other: Self) {
    }

    fn add_num(self, rhs: Self) -> u64 {
        self + rhs
    }

    fn sub_num(self, rhs: Self) -> u64 {
        self - rhs
    }

    fn mul_num(self, rhs: Self) -> u64 {
        self * rhs
    }

    fn eq_num(self, rhs: Self) -> bool {
        self == rhs
    }
}

impl Zero for u64 {
    fn zero() -> u64 {
        0
    }
}

impl Num for u128 {
    open spec fn as_math(self) -> int {
        self as int
    }

    open spec fn min_val() -> int {
        u128::MIN as int
    }

    open spec fn max_val() -> int {
        u128::MAX as int
    }

    proof fn lemma_in_range(self) {
    }

    proof fn lemma_as_math_injective(self, other: Self) {
    }

    fn add_num(self, rhs: Self) -> u128 {
        self + rhs
    }

    fn sub_num(self, rhs: Self) -> u128 {
        self - rhs
    }

    fn mul_num(self, rhs: Self) -> u128 {
        self * rhs
    }

    fn eq_num(self, rhs: Self) -> bool {
        self == rhs
    }
}

impl Zero for u128 {
    fn zero() -> u128 {
        0
    }
}

impl Num for isize {
    open spec fn as_math(self) -> int {
        self as int
    }

    open spec fn min_val() -> int {
        isize::MIN as int
    }

    open spec fn max_val() -> int {
        isize::MAX as int
    }

    proof fn lemma_in_range(self) {
    }

    proof fn lemma_as_math_injective(self, other: Self) {
    }

    fn add_num(self, rhs: Self) -> isize {
        self + rhs
    }

    fn sub_num(self, rhs: Self) -> isize {
        self - rhs
    }

    fn mul_num(self, rhs: Self) -> isize {
        self * rhs
    }

    fn eq_num(self, rhs: Self) -> bool {
        self == rhs
    }
}

impl Zero for isize {
    fn zero() -> isize {
        0
    }
}

impl Num for usize {
    open spec fn as_math(self) -> int {
        self as int
    }

    open spec fn min_val() -> int {
        usize::MIN as int
    }

    open spec fn max_val() -> int {
        usize::MAX as int
    }

    proof fn lemma_in_range(self) {
    }

    proof fn lemma_as_math_injective(self, other: Self) {
    }

    fn add_num(self, rhs: Self) -> usize {
        self + rhs
    }

    fn sub_num(self, rhs: Self) -> usize {
        self - rhs
    }

    fn mul_num(self, rhs: Self) -> usize {
        self * rhs
    }

    fn eq_num(self, rhs: Self) -> bool {
        self == rhs
    }
}

impl Zero for usize {
    fn zero() -> usize {
        0
    }
}

} // verus!
