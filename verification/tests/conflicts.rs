use linbra::colours::RGB;
use linbra::points::{Point2, Point3};
use linbra::sizes::{Size2, Size3};
use linbra::vector::{Vector, Vector3};

#[test]
fn same_getters() {
    let vec3 = Vector3::<u8>::new([10, 5, 2]);
    assert_eq!(10, vec3.x());
    assert_eq!(5, vec3.y());
    assert_eq!(2, vec3.z());

    assert_eq!(10, vec3.r());
}

#[test]
fn same_into() {
    let vec3: Vector3<u8> = [10, 5, 2].into();
    assert_eq!(10, vec3.x());
    assert_eq!(5, vec3.y());
    assert_eq!(2, vec3.z());

    assert_eq!(10, vec3.r());
}

#[test]
fn overlap_consistency() {
    let vec3: Vector3<u8> = Vector::new([10, 5, 2]);

    assert_eq!(vec3.r(), 10);
    assert_eq!(vec3.x(), 10);
    assert_eq!(vec3.w(), 10);

    assert_eq!(vec3.g(), 5);
    assert_eq!(vec3.y(), 5);
    assert_eq!(vec3.h(), 5);

    assert_eq!(vec3.b(), 2);
    assert_eq!(vec3.z(), 2);
    assert_eq!(vec3.d(), 2);
}
