//! The operation that relates the two containers: the matrix-vector
//! product.

use vstd::prelude::*;

use crate::matrix::Matrix;
use crate::math_seq;
use crate::vector::Vector;
use crate::Num;
use crate::Zero;

verus! {

/// The sum of the first `k` products `a[i] * b[i]`: the partial dot product
/// of the two sequences over indices `0..k`.
pub open spec fn dot_prefix(a: Seq<int>, b: Seq<int>, k: int) -> int
    decreases k,
{
    if k <= 0 {
        0
    } else {
        dot_prefix(a, b, k - 1) + a[k - 1] * b[k - 1]
    }
}

impl<T: Zero, const C: usize> Vector<T, C> {
    /// Matrix-vector product: applies a matrix of `R` rows and `C` columns
    /// to this vector of arity `C` and returns the vector of arity `R`
    /// whose element `r` is the dot product of the matrix's row `r` with
    /// this vector. The dimension match between the vector's arity and the
    /// matrix's column count is enforced by the types.
    ///
    /// Defined when every elementwise product and every partial sum of each
    /// row's dot product stays inside the element type's range, in the
    /// order the accumulation runs (left to right along the row).
    pub fn mul_matrix<const R: usize>(&self, m: &Matrix<T, R, C>) -> (out: Vector<T, R>)
        requires
            forall|r: int, k: int|
                0 <= r < R && 0 <= k < C ==> T::min_val() <= #[trigger] (math_seq(m@[r])[k]
                    * self.math()[k]) <= T::max_val(),
            forall|r: int, k: int|
                0 <= r < R && 0 <= k <= C ==> T::min_val() <= #[trigger] dot_prefix(
                    math_seq(m@[r]),
                    self.math(),
                    k,
                ) <= T::max_val(),
        ensures
            out@.len() == R,
            forall|r: int| 0 <= r < R ==> #[trigger] out.math()[r] == dot_prefix(
                math_seq(m@[r]),
                self.math(),
                C as int,
            ),
    {
        let mut out: Vector<T, R> = Vector::zeroed();
        let mut r: usize = 0;
        while r < R
            invariant
                r <= R,
                forall|rr: int, k: int|
                    0 <= rr < R && 0 <= k < C ==> T::min_val() <= #[trigger] (math_seq(m@[rr])[k]
                        * self.math()[k]) <= T::max_val(),
                forall|rr: int, k: int|
                    0 <= rr < R && 0 <= k <= C ==> T::min_val() <= #[trigger] dot_prefix(
                        math_seq(m@[rr]),
                        self.math(),
                        k,
                    ) <= T::max_val(),
                out@.len() == R,
                forall|rr: int| 0 <= rr < r ==> #[trigger] out.math()[rr] == dot_prefix(
                    math_seq(m@[rr]),
                    self.math(),
                    C as int,
                ),
            decreases R - r,
        {
            let mut acc: T = T::zero();
            let mut k: usize = 0;
            while k < C
                invariant
                    k <= C,
                    r < R,
                    forall|kk: int|
                        0 <= kk < C ==> T::min_val() <= #[trigger] (math_seq(m@[r as int])[kk]
                            * self.math()[kk]) <= T::max_val(),
                    forall|kk: int|
                        0 <= kk <= C ==> T::min_val() <= #[trigger] dot_prefix(
                            math_seq(m@[r as int]),
                            self.math(),
                            kk,
                        ) <= T::max_val(),
                    acc.as_math() == dot_prefix(math_seq(m@[r as int]), self.math(), k as int),
                decreases C - k,
            {
                proof {
                    assert(math_seq(m@[r as int])[k as int] == m@[r as int][k as int].as_math());
                    assert(self.math()[k as int] == self@[k as int].as_math());
                    assert(dot_prefix(math_seq(m@[r as int]), self.math(), k + 1) == dot_prefix(
                        math_seq(m@[r as int]),
                        self.math(),
                        k as int,
                    ) + math_seq(m@[r as int])[k as int] * self.math()[k as int]);
                }
                let prod = m.entry(r, k).mul_num(self.get(k));
                acc = acc.add_num(prod);
                k += 1;
            }
            let ghost prev = out;
            out.set(r, acc);
            proof {
                assert forall|rr: int|
                    0 <= rr < r + 1 implies #[trigger] out.math()[rr] == dot_prefix(
                    math_seq(m@[rr]),
                    self.math(),
                    C as int,
                ) by {
                    assert(out.math()[rr] == out@[rr].as_math());
                    if rr < r {
                        assert(out@[rr] == prev@[rr]);
                        assert(prev.math()[rr] == prev@[rr].as_math());
                    }
                }
            }
            r += 1;
        }
        out
    }
}

} // verus!
