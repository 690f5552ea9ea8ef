//! Traits to read the width, height and depth of 2D or 3D sizes, and
//! constructors for these sizes.

use vstd::prelude::*;

use crate::colours::RGB;
use crate::points::Point2;
use crate::vector::Vector;

verus! {

/// Reads the width and the height of a size vector.
///
/// A pure projection over existing storage: the accessors return the values
/// at indices 0 and 1 of [`Size2::extents`], so the trait may only be
/// implemented where those indices exist.
pub trait Size2<T: Copy> {
    /// The stored extent values this size reads, in order.
    spec fn extents(&self) -> Seq<T>;

    /// Returns the width: the first stored value.
    fn w(&self) -> (v: T)
        requires
            self.extents().len() >= 2,
        ensures
            v == self.extents()[0],
    ;

    /// Returns the height: the second stored value.
    fn h(&self) -> (v: T)
        requires
            self.extents().len() >= 2,
        ensures
            v == self.extents()[1],
    ;
}

/// Reads the depth of a size vector, beyond the width and the height: a
/// strict superset of accessors over the same storage.
pub trait Size3<T: Copy>: Size2<T> {
    /// Returns the depth: the third stored value.
    fn d(&self) -> (v: T)
        requires
            self.extents().len() >= 3,
        ensures
            v == self.extents()[2],
    ;
}

impl<T: Copy> Size2<T> for Vector<T, 2> {
    open spec fn extents(&self) -> Seq<T> {
        self@
    }

    fn w(&self) -> T {
        self.get(0)
    }

    fn h(&self) -> T {
        self.get(1)
    }
}

impl<T: Copy> Size2<T> for Vector<T, 3> {
    open spec fn extents(&self) -> Seq<T> {
        self@
    }

    fn w(&self) -> T {
        self.get(0)
    }

    fn h(&self) -> T {
        self.get(1)
    }
}

impl<T: Copy> Size3<T> for Vector<T, 3> {
    fn d(&self) -> T {
        self.get(2)
    }
}

impl<T: Copy> Vector<T, 2> {
    /// Creates a 2D size from its width and height, in order.
    pub fn size(w: T, h: T) -> (v: Self)
        ensures
            v@ == seq![w, h],
    {
        let v = Vector::new([w, h]);
        proof {
            assert(v@ =~= seq![w, h]);
        }
        v
    }
}

impl<T: Copy> Vector<T, 3> {
    /// Creates a 3D size from its width, height and depth, in order.
    pub fn size(w: T, h: T, d: T) -> (v: Self)
        ensures
            v@ == seq![w, h, d],
    {
        let v = Vector::new([w, h, d]);
        proof {
            assert(v@ =~= seq![w, h, d]);
        }
        v
    }
}

/// Law: the colour, point and size views of one 3-vector of `u8` all read
/// the same storage, so their accessors at the same index agree: the red
/// channel, the x position and the width are the first stored value, and so
/// on for the later indices.
pub proof fn lemma_overlap_consistency(v: Vector<u8, 3>)
    ensures
        v.channels() == v@,
        v.coords() == v@,
        v.extents() == v@,
{
}

} // verus!
