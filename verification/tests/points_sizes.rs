use linbra::points::{Point2, Point3};
use linbra::sizes::{Size2, Size3};
use linbra::vector::{Vector2, Vector3};

#[test]
fn point2_constructor() {
    let point = Vector2::at(10, 5);

    assert_eq!(point.x(), 10);
    assert_eq!(point.y(), 5);
}

#[test]
fn point3_constructor() {
    let point = Vector3::at(10, 5, 2);

    assert_eq!(point.x(), 10);
    assert_eq!(point.y(), 5);
    assert_eq!(point.z(), 2);
}

#[test]
fn size2_constructor() {
    let size = Vector2::size(10, 5);

    assert_eq!(size.w(), 10);
    assert_eq!(size.h(), 5);
}

#[test]
fn size3_constructor() {
    let size = Vector3::size(10, 5, 2);

    assert_eq!(size.w(), 10);
    assert_eq!(size.h(), 5);
    assert_eq!(size.d(), 2);
}
