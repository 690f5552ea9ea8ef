use linbra::matrix::{Matrix, Matrix2};
use linbra::vector::Vector;

#[test]
fn natural_presents_rows() {
    let matrix = Matrix::<i32, 3, 4>::natural([
        [10, 20, 30, 40],
        [15, 25, 35, 45],
        [17, 27, 37, 47],
    ]);

    assert_eq!(matrix.row(0), [10, 20, 30, 40]);
    assert_eq!(matrix.row(1), [15, 25, 35, 45]);
    assert_eq!(matrix.row(2), [17, 27, 37, 47]);
}

#[test]
fn new_stores_columns() {
    let natural = Matrix::<i32, 3, 4>::natural([
        [10, 20, 30, 40],
        [15, 25, 35, 45],
        [17, 27, 37, 47],
    ]);
    let direct = Matrix::<i32, 3, 4>::new([
        [10, 15, 17],
        [20, 25, 27],
        [30, 35, 37],
        [40, 45, 47],
    ]);

    assert_eq!(natural, direct);
    assert_eq!(direct.row(0), [10, 20, 30, 40]);
}

#[test]
fn entry_reads_natural_positions() {
    let matrix = Matrix::<u8, 2, 3>::natural([[1, 2, 3], [4, 5, 6]]);

    assert_eq!(matrix.entry(0, 0), 1);
    assert_eq!(matrix.entry(0, 2), 3);
    assert_eq!(matrix.entry(1, 0), 4);
    assert_eq!(matrix.entry(1, 2), 6);
}

#[test]
fn set_row_replaces_one_row() {
    let mut matrix = Matrix2::<u8>::natural([[1, 2], [3, 4]]);
    matrix.set_row(0, [9, 8]);

    assert_eq!(matrix.row(0), [9, 8]);
    assert_eq!(matrix.row(1), [3, 4]);
}

#[test]
fn set_entry_replaces_one_value() {
    let mut matrix = Matrix2::<u8>::natural([[1, 2], [3, 4]]);
    matrix.set_entry(1, 0, 9);

    assert_eq!(matrix.row(0), [1, 2]);
    assert_eq!(matrix.row(1), [9, 4]);
}

#[test]
fn matrix_vector_product() {
    let vector = Vector::<i32, 3>::new([6, 7, 8]);

    let matrix = Matrix::<i32, 4, 3>::natural([
        [10, 15, 18],
        [20, 25, 28],
        [30, 35, 38],
        [40, 45, 48],
    ]);

    assert_eq!(vector.mul_matrix(&matrix), Vector::<i32, 4>::new([309, 519, 729, 939]));
}

#[test]
fn identity_product() {
    let vector = Vector::<i32, 2>::new([21, -4]);
    let identity = Matrix2::<i32>::natural([[1, 0], [0, 1]]);

    assert_eq!(vector.mul_matrix(&identity), vector);
}
