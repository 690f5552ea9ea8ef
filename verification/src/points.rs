//! Traits to read the x, y and z values of a point in a 2D or 3D plan, and
//! constructors for these points.

use vstd::prelude::*;

use crate::vector::Vector;

verus! {

/// Reads the horizontal and vertical positions of a point in a 2D plan.
///
/// A pure projection over existing storage: the accessors return the values
/// at indices 0 and 1 of [`Point2::coords`], so the trait may only be
/// implemented where those indices exist.
pub trait Point2<T: Copy> {
    /// The stored coordinate values this point reads, in order.
    spec fn coords(&self) -> Seq<T>;

    /// Returns the value on the x-axis: the first stored value.
    fn x(&self) -> (v: T)
        requires
            self.coords().len() >= 2,
        ensures
            v == self.coords()[0],
    ;

    /// Returns the value on the y-axis: the second stored value.
    fn y(&self) -> (v: T)
        requires
            self.coords().len() >= 2,
        ensures
            v == self.coords()[1],
    ;
}

/// Reads the depth of a point in a 3D plan, beyond the two planar
/// positions: a strict superset of accessors over the same storage.
pub trait Point3<T: Copy>: Point2<T> {
    /// Returns the value on the z-axis: the third stored value.
    fn z(&self) -> (v: T)
        requires
            self.coords().len() >= 3,
        ensures
            v == self.coords()[2],
    ;
}

impl<T: Copy> Point2<T> for Vector<T, 2> {
    open spec fn coords(&self) -> Seq<T> {
        self@
    }

    fn x(&self) -> T {
        self.get(0)
    }

    fn y(&self) -> T {
        self.get(1)
    }
}

impl<T: Copy> Point2<T> for Vector<T, 3> {
    open spec fn coords(&self) -> Seq<T> {
        self@
    }

    fn x(&self) -> T {
        self.get(0)
    }

    fn y(&self) -> T {
        self.get(1)
    }
}

impl<T: Copy> Point3<T> for Vector<T, 3> {
    fn z(&self) -> T {
        self.get(2)
    }
}

impl<T: Copy> Vector<T, 2> {
    /// Creates a point on a 2D plan from its two positions, in order.
    pub fn at(x: T, y: T) -> (v: Self)
        ensures
            v@ == seq![x, y],
    {
        let v = Vector::new([x, y]);
        proof {
            assert(v@ =~= seq![x, y]);
        }
        v
    }
}

impl<T: Copy> Vector<T, 3> {
    /// Creates a point in a 3D plan from its three positions, in order.
    pub fn at(x: T, y: T, z: T) -> (v: Self)
        ensures
            v@ == seq![x, y, z],
    {
        let v = Vector::new([x, y, z]);
        proof {
            assert(v@ =~= seq![x, y, z]);
        }
        v
    }
}

} // verus!
