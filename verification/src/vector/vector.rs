use vstd::prelude::*;

use crate::Num;
use crate::Zero;

verus! {

/// An ordered sequence of exactly `N` values of type `T`, with `N` known at
/// compile time.
///
/// The length is immutable for the lifetime of a value: no resize operation
/// exists. A vector is a plain value type, copied and moved as a unit, with
/// no heap allocation. Its view is the sequence of its `N` stored values in
/// order.
#[derive(Clone, Copy, Debug, Eq, PartialEq)]
pub struct Vector<T, const N: usize> {
    /// The stored values, in order.
    pub data: [T; N],
}

impl<T, const N: usize> View for Vector<T, N> {
    type V = Seq<T>;

    open spec fn view(&self) -> Seq<T> {
        self.data@
    }
}

impl<T, const N: usize> Vector<T, N> {
    /// Creates a vector holding exactly the given values, in order.
    pub fn new(data: [T; N]) -> (v: Self)
        ensures
            v@ == data@,
    {
        Vector { data }
    }

    /// Borrows the element at index `i`. Indexing at or past `N` is
    /// excluded: every caller must stay inside the fixed arity.
    pub fn index(&self, i: usize) -> (r: &T)
        requires
            i < N,
        ensures
            *r == self@[i as int],
    {
        &self.data[i]
    }

    /// Replaces the element at index `i`, leaving every other element
    /// unchanged. Indexing at or past `N` is excluded.
    pub fn set(&mut self, i: usize, value: T)
        requires
            i < N,
        ensures
            final(self)@ == old(self)@.update(i as int, value),
    {
        self.data[i] = value;
    }
}

impl<T: Num, const N: usize> Vector<T, N> {
    /// The mathematical image of the stored values.
    pub open spec fn math(&self) -> Seq<int> {
        crate::math_seq(self@)
    }
}

impl<T: Copy, const N: usize> Vector<T, N> {
    /// Returns the element at index `i`. Indexing at or past `N` is
    /// excluded: every caller must stay inside the fixed arity.
    pub fn get(&self, i: usize) -> (r: T)
        requires
            i < N,
        ensures
            r == self@[i as int],
    {
        self.data[i]
    }

    /// The stored values in order, as a growable vector.
    pub fn to_vec(&self) -> (r: Vec<T>)
        ensures
            r@ == self@,
    {
        let mut r: Vec<T> = Vec::new();
        let mut i: usize = 0;
        while i < N
            invariant
                i <= N,
                r@ == self@.subrange(0, i as int),
            decreases N - i,
        {
            r.push(self.data[i]);
            proof {
                assert(r@ =~= self@.subrange(0, i + 1));
            }
            i += 1;
        }
        proof {
            assert(r@ =~= self@);
        }
        r
    }
}

impl<T: Zero, const N: usize> Vector<T, N> {
    /// Creates a vector of `N` zero values.
    pub fn zeroed() -> (v: Self)
        ensures
            v@.len() == N,
            forall|i: int| 0 <= i < N ==> #[trigger] v.math()[i] == 0,
    {
        let z = T::zero();
        Vector { data: [z; N] }
    }
}

/// Creates a vector from an array of `N` values, in order.
impl<T, const N: usize> From<[T; N]> for Vector<T, N> {
    fn from(value: [T; N]) -> (v: Self) {
        Vector { data: value }
    }
}

impl<T, const N: usize> vstd::std_specs::convert::FromSpecImpl<[T; N]> for Vector<T, N> {
    open spec fn obeys_from_spec() -> bool {
        true
    }

    open spec fn from_spec(value: [T; N]) -> Self {
        Vector { data: value }
    }
}

} // verus!
