//! Elementwise arithmetic on vectors: addition, subtraction, the
//! elementwise (Hadamard) product, and multiplication by a scalar.
//!
//! The elementwise product is not a dot product: it preserves the arity and
//! multiplies the operands index by index.

use vstd::prelude::*;

use super::vector::Vector;
use crate::Num;

verus! {

impl<T: Num, const N: usize> Vector<T, N> {
    /// Elementwise sum: the result holds, at every index, the sum of the two
    /// operands' elements at that index. Defined when every such sum stays
    /// inside the element type's range.
    pub fn add(self, rhs: Self) -> (r: Self)
        requires
            forall|i: int| #![trigger self.math()[i]] 0 <= i < N ==> T::min_val()
                <= self.math()[i] + rhs.math()[i] <= T::max_val(),
        ensures
            r@.len() == N,
            forall|i: int| 0 <= i < N ==> #[trigger] r.math()[i] == self.math()[i]
                + rhs.math()[i],
    {
        let mut out = self;
        let mut n: usize = 0;
        while n < N
            invariant
                n <= N,
                forall|i: int| #![trigger self.math()[i]] 0 <= i < N ==> T::min_val()
                    <= self.math()[i] + rhs.math()[i] <= T::max_val(),
                out@.len() == N,
                forall|i: int| 0 <= i < n ==> #[trigger] out.math()[i] == self.math()[i]
                    + rhs.math()[i],
            decreases N - n,
        {
            proof {
                assert(self.math()[n as int] == self@[n as int].as_math());
                assert(rhs.math()[n as int] == rhs@[n as int].as_math());
            }
            let ghost prev = out;
            let sum = self.get(n).add_num(rhs.get(n));
            out.set(n, sum);
            proof {
                assert forall|i: int| 0 <= i < n + 1 implies #[trigger] out.math()[i]
                    == self.math()[i] + rhs.math()[i] by {
                    assert(out.math()[i] == out@[i].as_math());
                    if i < n {
                        assert(out@[i] == prev@[i]);
                        assert(prev.math()[i] == prev@[i].as_math());
                    }
                }
            }
            n += 1;
        }
        out
    }

    /// Elementwise difference: the result holds, at every index, the left
    /// element minus the right element at that index. Defined when every
    /// such difference stays inside the element type's range.
    pub fn sub(self, rhs: Self) -> (r: Self)
        requires
            forall|i: int| #![trigger self.math()[i]] 0 <= i < N ==> T::min_val()
                <= self.math()[i] - rhs.math()[i] <= T::max_val(),
        ensures
            r@.len() == N,
            forall|i: int| 0 <= i < N ==> #[trigger] r.math()[i] == self.math()[i]
                - rhs.math()[i],
    {
        let mut out = self;
        let mut n: usize = 0;
        while n < N
            invariant
                n <= N,
                forall|i: int| #![trigger self.math()[i]] 0 <= i < N ==> T::min_val()
                    <= self.math()[i] - rhs.math()[i] <= T::max_val(),
                out@.len() == N,
                forall|i: int| 0 <= i < n ==> #[trigger] out.math()[i] == self.math()[i]
                    - rhs.math()[i],
            decreases N - n,
        {
            proof {
                assert(self.math()[n as int] == self@[n as int].as_math());
                assert(rhs.math()[n as int] == rhs@[n as int].as_math());
            }
            let ghost prev = out;
            let diff = self.get(n).sub_num(rhs.get(n));
            out.set(n, diff);
            proof {
                assert forall|i: int| 0 <= i < n + 1 implies #[trigger] out.math()[i]
                    == self.math()[i] - rhs.math()[i] by {
                    assert(out.math()[i] == out@[i].as_math());
                    if i < n {
                        assert(out@[i] == prev@[i]);
                        assert(prev.math()[i] == prev@[i].as_math());
                    }
                }
            }
            n += 1;
        }
        out
    }

    /// Elementwise (Hadamard) product: the result holds, at every index, the
    /// product of the two operands' elements at that index. This is not a
    /// dot product; callers expecting a scalar must not use it. Defined when
    /// every such product stays inside the element type's range.
    pub fn mul(self, rhs: Self) -> (r: Self)
        requires
            forall|i: int| #![trigger self.math()[i]] 0 <= i < N ==> T::min_val()
                <= self.math()[i] * rhs.math()[i] <= T::max_val(),
        ensures
            r@.len() == N,
            forall|i: int| 0 <= i < N ==> #[trigger] r.math()[i] == self.math()[i]
                * rhs.math()[i],
    {
        let mut out = self;
        let mut n: usize = 0;
        while n < N
            invariant
                n <= N,
                forall|i: int| #![trigger self.math()[i]] 0 <= i < N ==> T::min_val()
                    <= self.math()[i] * rhs.math()[i] <= T::max_val(),
                out@.len() == N,
                forall|i: int| 0 <= i < n ==> #[trigger] out.math()[i] == self.math()[i]
                    * rhs.math()[i],
            decreases N - n,
        {
            proof {
                assert(self.math()[n as int] == self@[n as int].as_math());
                assert(rhs.math()[n as int] == rhs@[n as int].as_math());
            }
            let ghost prev = out;
            let prod = self.get(n).mul_num(rhs.get(n));
            out.set(n, prod);
            proof {
                assert forall|i: int| 0 <= i < n + 1 implies #[trigger] out.math()[i]
                    == self.math()[i] * rhs.math()[i] by {
                    assert(out.math()[i] == out@[i].as_math());
                    if i < n {
                        assert(out@[i] == prev@[i]);
                        assert(prev.math()[i] == prev@[i].as_math());
                    }
                }
            }
            n += 1;
        }
        out
    }

    /// Scalar scale: the result holds, at every index, the element at that
    /// index multiplied by the scalar `k`. Defined when every such product
    /// stays inside the element type's range.
    pub fn scale(self, k: T) -> (r: Self)
        requires
            forall|i: int| #![trigger self.math()[i]] 0 <= i < N ==> T::min_val()
                <= self.math()[i] * k.as_math() <= T::max_val(),
        ensures
            r@.len() == N,
            forall|i: int| 0 <= i < N ==> #[trigger] r.math()[i] == self.math()[i]
                * k.as_math(),
    {
        let mut out = self;
        let mut n: usize = 0;
        while n < N
            invariant
                n <= N,
                forall|i: int| #![trigger self.math()[i]] 0 <= i < N ==> T::min_val()
                    <= self.math()[i] * k.as_math() <= T::max_val(),
                out@.len() == N,
                forall|i: int| 0 <= i < n ==> #[trigger] out.math()[i] == self.math()[i]
                    * k.as_math(),
            decreases N - n,
        {
            proof {
                assert(self.math()[n as int] == self@[n as int].as_math());
            }
            let ghost prev = out;
            let prod = self.get(n).mul_num(k);
            out.set(n, prod);
            proof {
                assert forall|i: int| 0 <= i < n + 1 implies #[trigger] out.math()[i]
                    == self.math()[i] * k.as_math() by {
                    assert(out.math()[i] == out@[i].as_math());
                    if i < n {
                        assert(out@[i] == prev@[i]);
                        assert(prev.math()[i] == prev@[i].as_math());
                    }
                }
            }
            n += 1;
        }
        out
    }
}

/// Law: adding a vector and then subtracting it again recovers the original
/// vector. The hypotheses are exactly what [`Vector::add`] and
/// [`Vector::sub`] ensure of `s == a.add(b)` and `d == s.sub(b)`.
pub proof fn lemma_add_then_sub_recovers<T: Num, const N: usize>(
    a: Vector<T, N>,
    b: Vector<T, N>,
    s: Vector<T, N>,
    d: Vector<T, N>,
)
    requires
        forall|i: int| 0 <= i < N ==> #[trigger] s.math()[i] == a.math()[i] + b.math()[i],
        forall|i: int| 0 <= i < N ==> #[trigger] d.math()[i] == s.math()[i] - b.math()[i],
    ensures
        d == a,
{
    assert forall|i: int| 0 <= i < N implies d.data@[i] == a.data@[i] by {
        assert(d.math()[i] == a.math()[i]);
        d.data@[i].lemma_as_math_injective(a.data@[i]);
    }
    assert(d.data =~= a.data);
}

} // verus!
