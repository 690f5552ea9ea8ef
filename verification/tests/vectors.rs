use linbra::vector::{Vector, Vector2, Vector3, Vector4};

#[test]
fn new_from_array() {
    let vec: Vector<u8, 6> = [8, 9, 10, 11, 12, 13].into();
    assert_eq!(vec, Vector::<u8, 6>::new([8, 9, 10, 11, 12, 13]));
}

#[test]
fn single_element() {
    let vec = Vector::<u8, 1>::new([42]);
    assert_eq!(vec.get(0), 42);
}

#[test]
fn index_borrows() {
    let v = Vector::<u8, 3>::new([1, 2, 3]);
    assert_eq!(*v.index(1), 2);
}

#[test]
fn get_and_set() {
    let mut colour: Vector3<u8> = Vector::new([255, 100, 100]);
    assert_eq!(colour.get(0), 255);

    colour.set(0, 100);
    assert_eq!(colour.get(0), 100);
    assert_eq!(colour.get(1), 100);
    assert_eq!(colour.get(2), 100);
}

#[test]
fn zeroed() {
    let vec = Vector::<i32, 4>::zeroed();
    assert_eq!(vec, Vector::new([0, 0, 0, 0]));
}

#[test]
fn to_vec_keeps_order() {
    let vec = Vector::<i16, 3>::new([7, -2, 9]);
    assert_eq!(vec.to_vec(), vec![7, -2, 9]);
}

#[test]
fn addition() {
    let vector1 = Vector3::new([5, 8, 2]);
    let vector2 = Vector3::new([3, 1, 2]);

    assert_eq!(vector1.add(vector2), Vector3::new([8, 9, 4]));
}

#[test]
fn subtraction() {
    let vector1 = Vector3::new([5, 8, 2]);
    let vector2 = Vector3::new([3, 1, 2]);

    assert_eq!(vector1.sub(vector2), Vector3::new([2, 7, 0]));
}

#[test]
fn elementwise_product() {
    let vec_a = Vector2::new([2, 3]);
    let vec_b = Vector2::new([5, 8]);

    assert_eq!(vec_a.mul(vec_b), Vector2::new([10, 24]));
}

#[test]
fn scalar_scale() {
    let v = Vector2::new([5, 8]);
    assert_eq!(v.scale(2), Vector2::new([10, 16]));
}

#[test]
fn add_then_sub_recovers() {
    let a = Vector4::new([-3i64, 0, 17, 250]);
    let b = Vector4::new([10i64, -4, 2, 6]);

    assert_eq!(a.add(b).sub(b), a);
}

#[test]
fn negative_arithmetic() {
    let a = Vector2::new([-5i8, 4]);
    let b = Vector2::new([3i8, -9]);

    assert_eq!(a.add(b), Vector2::new([-2i8, -5]));
    assert_eq!(a.sub(b), Vector2::new([-8i8, 13]));
}

#[test]
fn tuple_into_vector2() {
    let vec2: Vector2<u8> = (8, 9).into();
    assert_eq!(vec2, Vector2::<u8>::new([8, 9]));
}

#[test]
fn tuple_into_vector3() {
    let vec3: Vector3<u8> = (8, 9, 10).into();
    assert_eq!(vec3, Vector3::<u8>::new([8, 9, 10]));
}

#[test]
fn tuple_into_vector4() {
    let vec4: Vector4<u8> = (8, 9, 10, 11).into();
    assert_eq!(vec4, Vector4::<u8>::new([8, 9, 10, 11]));
}

#[test]
fn tuple_round_trip() {
    let vec3: Vector3<u8> = (8, 9, 10).into();
    assert_eq!(vec3, Vector3::new([8, 9, 10]));
    assert_eq!(vec3.to_tuple(), (8, 9, 10));

    let vec2: Vector2<i32> = (-1, 7).into();
    assert_eq!(vec2.to_tuple(), (-1, 7));

    let vec4: Vector4<u16> = (1, 2, 3, 4).into();
    assert_eq!(vec4.to_tuple(), (1, 2, 3, 4));
}
