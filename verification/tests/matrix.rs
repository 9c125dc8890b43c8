use ray_tracer::rational::Rat;
use ray_tracer::tuple::Tuple;
use ray_tracer::matrix::{Matrix2, Matrix3, Matrix4};

fn r(v: i64) -> Rat {
    Rat::from_i64(v)
}

fn rd(n: i64, d: i64) -> Rat {
    Rat::new(n, d)
}

fn m4(rows: [[i64; 4]; 4]) -> Matrix4 {
    Matrix4::new(rows.map(|row| row.map(Rat::from_i64)))
}

fn m3(rows: [[i64; 3]; 3]) -> Matrix3 {
    Matrix3::new(rows.map(|row| row.map(Rat::from_i64)))
}

fn m2(rows: [[i64; 2]; 2]) -> Matrix2 {
    Matrix2::new(rows.map(|row| row.map(Rat::from_i64)))
}

#[test]
fn constructing_an_inspecting_a_4x4_matrix() {
    let m = Matrix4::new([
        [r(1), r(2), r(3), r(4)],
        [rd(55, 10), rd(65, 10), rd(75, 10), rd(85, 10)],
        [r(9), r(10), r(11), r(12)],
        [rd(135, 10), rd(145, 10), rd(155, 10), rd(165, 10)],
    ]);

    assert_eq!(r(1), m.at(0, 0));
    assert_eq!(r(4), m.at(0, 3));
    assert_eq!(rd(55, 10), m.at(1, 0));
    assert_eq!(rd(75, 10), m.at(1, 2));
    assert_eq!(r(11), m.at(2, 2));
    assert_eq!(rd(135, 10), m.at(3, 0));
    assert_eq!(rd(155, 10), m.at(3, 2));
}

#[test]
fn a_2x2_matrix_out_to_be_representable() {
    let m = m2([[-3, 5], [1, -2]]);

    assert_eq!(r(-3), m.at(0, 0));
    assert_eq!(r(5), m.at(0, 1));
    assert_eq!(r(1), m.at(1, 0));
    assert_eq!(r(-2), m.at(1, 1));
}

#[test]
fn a_3x3_matrix_out_to_be_representable() {
    let m = m3([[-3, 5, 0], [1, -2, -7], [0, 1, 1]]);

    assert_eq!(r(-3), m.at(0, 0));
    assert_eq!(r(-2), m.at(1, 1));
    assert_eq!(r(1), m.at(2, 2));
}

#[test]
fn matrix_equality_with_identical_matrices() {
    let mk = || Matrix4::new([
        [r(1), r(2), r(3), r(4)],
        [rd(55, 10), rd(65, 10), rd(75, 10), rd(85, 10)],
        [r(9), r(10), r(11), r(12)],
        [rd(135, 10), rd(145, 10), rd(155, 10), rd(165, 10)],
    ]);
    let m1 = mk();
    let m2 = mk();

    assert_eq!(m1, m2);
}

#[test]
fn matrix_equality_with_different_matrices() {
    let m1 = Matrix4::new([
        [r(1), r(2), r(3), r(4)],
        [rd(55, 10), rd(65, 10), rd(75, 10), rd(85, 10)],
        [r(9), r(10), r(11), r(12)],
        [rd(135, 10), rd(145, 10), rd(155, 10), rd(165, 10)],
    ]);
    let m2 = Matrix4::new([
        [r(1), r(2), r(3), r(4)],
        [rd(55, 10), rd(65, 10), rd(75, 10), rd(85, 10)],
        [r(1), r(2), r(3), r(4)],
        [rd(55, 10), rd(65, 10), rd(75, 10), rd(85, 10)],
    ]);

    assert_ne!(m1, m2);
}

#[test]
fn multiplying_two_4x4_matrices() {
    let m1 = m4([[1, 2, 3, 4], [5, 6, 7, 8], [9, 8, 7, 6], [5, 4, 3, 2]]);
    let m2 = m4([[-2, 1, 2, 3], [3, 2, 1, -1], [4, 3, 6, 5], [1, 2, 7, 8]]);

    let result = m1.mul(&m2);

    let expected = m4([
        [20, 22, 50, 48],
        [44, 54, 114, 108],
        [40, 58, 110, 102],
        [16, 26, 46, 42],
    ]);

    assert_eq!(expected, result);
}

#[test]
fn multiplying_two_3x3_matrices() {
    let m1 = m3([[1, 2, 3], [4, 5, 6], [7, 8, 9]]);
    let m2 = m3([[1, 2, 3], [4, 5, 6], [7, 8, 9]]);

    let result = m1.mul(&m2);

    let expected = m3([[30, 36, 42], [66, 81, 96], [102, 126, 150]]);

    assert_eq!(expected, result);
}

#[test]
fn multiplying_two_2x2_matrices() {
    let m1 = m2([[1, 2], [3, 4]]);
    let m2m = m2([[5, 6], [7, 8]]);

    let result = m1.mul(&m2m);

    let expected = m2([[19, 22], [43, 50]]);

    assert_eq!(expected, result);
}

#[test]
fn a_matrix_multiplied_by_a_tuple() {
    let m = m4([[1, 2, 3, 4], [2, 4, 4, 2], [8, 6, 4, 1], [0, 0, 0, 1]]);

    let t = Tuple { x: r(1), y: r(2), z: r(3), w: r(1) };

    let result = m.mul_tuple(&t);

    let expected = Tuple { x: r(18), y: r(24), z: r(33), w: r(1) };

    assert_eq!(expected, result);
}

#[test]
fn multiplying_4x4_matrix_by_the_identity_matrix() {
    let m = m4([[1, 2, 3, 4], [2, 4, 4, 2], [8, 6, 4, 1], [0, 0, 0, 1]]);

    let result = m.mul(&Matrix4::identity_matrix());

    assert_eq!(m, result);
}

#[test]
fn multiplying_3x3_matrix_by_the_identity_matrix() {
    let m = m3([[1, 2, 3], [2, 4, 4], [8, 6, 4]]);

    let result = m.mul(&Matrix3::identity_matrix());

    assert_eq!(m, result);
}

#[test]
fn multiplying_2x2_matrix_by_the_identity_matrix() {
    let m = m2([[1, 2], [2, 4]]);

    let result = m.mul(&Matrix2::identity_matrix());

    assert_eq!(m, result);
}

#[test]
fn multiplying_the_identity_matrix_by_a_tuple() {
    let t = Tuple { x: r(1), y: r(2), z: r(3), w: r(4) };
    let t2 = Tuple { x: r(1), y: r(2), z: r(3), w: r(4) };

    let result = Matrix4::identity_matrix().mul_tuple(&t);

    assert_eq!(t2, result);
}

#[test]
fn transposing_a_4x4_matrix() {
    let m = m4([[0, 9, 3, 0], [9, 8, 0, 8], [1, 8, 5, 3], [0, 0, 5, 8]]);

    let result = m.transpose();

    let expected = m4([[0, 9, 1, 0], [9, 8, 8, 0], [3, 0, 5, 5], [0, 8, 3, 8]]);

    assert_eq!(expected, result);
}

#[test]
fn transposing_a_3x3_matrix() {
    let m = m3([[0, 9, 3], [9, 8, 0], [1, 8, 5]]);

    let result = m.transpose();

    let expected = m3([[0, 9, 1], [9, 8, 8], [3, 0, 5]]);

    assert_eq!(expected, result);
}

#[test]
fn transposing_a_2x2_matrix() {
    let m = m2([[0, 9], [9, 8]]);

    let result = m.transpose();

    let expected = m2([[0, 9], [9, 8]]);

    assert_eq!(expected, result);
}

#[test]
fn transpose_4x4_identity_matrix() {
    let identity = Matrix4::identity_matrix();

    let result = identity.transpose();

    assert_eq!(Matrix4::identity_matrix(), result);
}

#[test]
fn transpose_3x3_identity_matrix() {
    let identity = Matrix3::identity_matrix();

    let result = identity.transpose();

    assert_eq!(Matrix3::identity_matrix(), result);
}

#[test]
fn transpose_2x2_identity_matrix() {
    let identity = Matrix2::identity_matrix();

    let result = identity.transpose();

    assert_eq!(Matrix2::identity_matrix(), result);
}

#[test]
fn calculating_the_determinant_of_a_2x2_matrix() {
    let m = m2([[1, 5], [-3, 2]]);

    let result = m.determinant();

    assert_eq!(r(17), result);
}

#[test]
fn submatrix_of_a_3x3_matrix_0_0() {
    let m = m3([[1, 2, 3], [4, 5, 6], [7, 8, 9]]);

    let result = m.submatrix(0, 0);

    assert_eq!(m2([[5, 6], [8, 9]]), result);
}

#[test]
fn submatrix_of_a_3x3_matrix_0_1() {
    let m = m3([[1, 2, 3], [4, 5, 6], [7, 8, 9]]);

    let result = m.submatrix(0, 1);

    assert_eq!(m2([[4, 6], [7, 9]]), result);
}

#[test]
fn submatrix_of_a_3x3_matrix_0_2() {
    let m = m3([[1, 2, 3], [4, 5, 6], [7, 8, 9]]);

    let result = m.submatrix(0, 2);

    assert_eq!(m2([[4, 5], [7, 8]]), result);
}

#[test]
fn submatrix_of_a_3x3_matrix_1_0() {
    let m = m3([[1, 2, 3], [4, 5, 6], [7, 8, 9]]);

    let result = m.submatrix(1, 0);

    assert_eq!(m2([[2, 3], [8, 9]]), result);
}

#[test]
fn submatrix_of_a_3x3_matrix_1_1() {
    let m = m3([[1, 2, 3], [4, 5, 6], [7, 8, 9]]);

    let result = m.submatrix(1, 1);

    assert_eq!(m2([[1, 3], [7, 9]]), result);
}

#[test]
fn submatrix_of_a_3x3_matrix_1_2() {
    let m = m3([[1, 2, 3], [4, 5, 6], [7, 8, 9]]);

    let result = m.submatrix(1, 2);

    assert_eq!(m2([[1, 2], [7, 8]]), result);
}

#[test]
fn submatrix_of_a_3x3_matrix_2_0() {
    let m = m3([[1, 2, 3], [4, 5, 6], [7, 8, 9]]);

    let result = m.submatrix(2, 0);

    assert_eq!(m2([[2, 3], [5, 6]]), result);
}

#[test]
fn submatrix_of_a_3x3_matrix_2_1() {
    let m = m3([[1, 2, 3], [4, 5, 6], [7, 8, 9]]);

    let result = m.submatrix(2, 1);

    assert_eq!(m2([[1, 3], [4, 6]]), result);
}

#[test]
fn submatrix_of_a_3x3_matrix_2_2() {
    let m = m3([[1, 2, 3], [4, 5, 6], [7, 8, 9]]);

    let result = m.submatrix(2, 2);

    assert_eq!(m2([[1, 2], [4, 5]]), result);
}

#[test]
fn submatrix_of_a_4x4_0_0() {
    let m = m4([[1, 2, 3, 4], [5, 6, 7, 8], [9, 10, 11, 12], [13, 14, 15, 16]]);

    let result = m.submatrix(0, 0);

    assert_eq!(m3([[6, 7, 8], [10, 11, 12], [14, 15, 16]]), result);
}

#[test]
fn submatrix_of_a_4x4_0_1() {
    let m = m4([[1, 2, 3, 4], [5, 6, 7, 8], [9, 10, 11, 12], [13, 14, 15, 16]]);

    let result = m.submatrix(0, 1);

    assert_eq!(m3([[5, 7, 8], [9, 11, 12], [13, 15, 16]]), result);
}

#[test]
fn submatrix_of_a_4x4_0_2() {
    let m = m4([[1, 2, 3, 4], [5, 6, 7, 8], [9, 10, 11, 12], [13, 14, 15, 16]]);

    let result = m.submatrix(0, 2);

    assert_eq!(m3([[5, 6, 8], [9, 10, 12], [13, 14, 16]]), result);
}

#[test]
fn submatrix_of_a_4x4_0_3() {
    let m = m4([[1, 2, 3, 4], [5, 6, 7, 8], [9, 10, 11, 12], [13, 14, 15, 16]]);

    let result = m.submatrix(0, 3);

    assert_eq!(m3([[5, 6, 7], [9, 10, 11], [13, 14, 15]]), result);
}

#[test]
fn submatrix_of_a_4x4_1_0() {
    let m = m4([[1, 2, 3, 4], [5, 6, 7, 8], [9, 10, 11, 12], [13, 14, 15, 16]]);

    let result = m.submatrix(1, 0);

    assert_eq!(m3([[2, 3, 4], [10, 11, 12], [14, 15, 16]]), result);
}

#[test]
fn submatrix_of_a_4x4_1_1() {
    let m = m4([[1, 2, 3, 4], [5, 6, 7, 8], [9, 10, 11, 12], [13, 14, 15, 16]]);

    let result = m.submatrix(1, 1);

    assert_eq!(m3([[1, 3, 4], [9, 11, 12], [13, 15, 16]]), result);
}

#[test]
fn submatrix_of_a_4x4_1_2() {
    let m = m4([[1, 2, 3, 4], [5, 6, 7, 8], [9, 10, 11, 12], [13, 14, 15, 16]]);

    let result = m.submatrix(1, 2);

    assert_eq!(m3([[1, 2, 4], [9, 10, 12], [13, 14, 16]]), result);
}

#[test]
fn submatrix_of_a_4x4_1_3() {
    let m = m4([[1, 2, 3, 4], [5, 6, 7, 8], [9, 10, 11, 12], [13, 14, 15, 16]]);

    let result = m.submatrix(1, 3);

    assert_eq!(m3([[1, 2, 3], [9, 10, 11], [13, 14, 15]]), result);
}

#[test]
fn submatrix_of_a_4x4_2_0() {
    let m = m4([[1, 2, 3, 4], [5, 6, 7, 8], [9, 10, 11, 12], [13, 14, 15, 16]]);

    let result = m.submatrix(2, 0);

    assert_eq!(m3([[2, 3, 4], [6, 7, 8], [14, 15, 16]]), result);
}

#[test]
fn submatrix_of_a_4x4_2_1() {
    let m = m4([[1, 2, 3, 4], [5, 6, 7, 8], [9, 10, 11, 12], [13, 14, 15, 16]]);

    let result = m.submatrix(2, 1);

    assert_eq!(m3([[1, 3, 4], [5, 7, 8], [13, 15, 16]]), result);
}

#[test]
fn submatrix_of_a_4x4_2_2() {
    let m = m4([[1, 2, 3, 4], [5, 6, 7, 8], [9, 10, 11, 12], [13, 14, 15, 16]]);

    let result = m.submatrix(2, 2);

    assert_eq!(m3([[1, 2, 4], [5, 6, 8], [13, 14, 16]]), result);
}

#[test]
fn submatrix_of_a_4x4_2_3() {
    let m = m4([[1, 2, 3, 4], [5, 6, 7, 8], [9, 10, 11, 12], [13, 14, 15, 16]]);

    let result = m.submatrix(2, 3);

    assert_eq!(m3([[1, 2, 3], [5, 6, 7], [13, 14, 15]]), result);
}

#[test]
fn submatrix_of_a_4x4_3_0() {
    let m = m4([[1, 2, 3, 4], [5, 6, 7, 8], [9, 10, 11, 12], [13, 14, 15, 16]]);

    let result = m.submatrix(3, 0);

    assert_eq!(m3([[2, 3, 4], [6, 7, 8], [10, 11, 12]]), result);
}

#[test]
fn submatrix_of_a_4x4_3_1() {
    let m = m4([[1, 2, 3, 4], [5, 6, 7, 8], [9, 10, 11, 12], [13, 14, 15, 16]]);

    let result = m.submatrix(3, 1);

    assert_eq!(m3([[1, 3, 4], [5, 7, 8], [9, 11, 12]]), result);
}

#[test]
fn submatrix_of_a_4x4_3_2() {
    let m = m4([[1, 2, 3, 4], [5, 6, 7, 8], [9, 10, 11, 12], [13, 14, 15, 16]]);

    let result = m.submatrix(3, 2);

    assert_eq!(m3([[1, 2, 4], [5, 6, 8], [9, 10, 12]]), result);
}

#[test]
fn submatrix_of_a_4x4_3_3() {
    let m = m4([[1, 2, 3, 4], [5, 6, 7, 8], [9, 10, 11, 12], [13, 14, 15, 16]]);

    let result = m.submatrix(3, 3);

    assert_eq!(m3([[1, 2, 3], [5, 6, 7], [9, 10, 11]]), result);
}

#[test]
fn calculating_a_minor_of_a_3x3_matrix() {
    let m = m3([[3, 5, 0], [2, -1, -7], [6, -1, 5]]);

    let matrix2 = m.submatrix(1, 0);
    let determinant2 = matrix2.determinant();

    assert_eq!(determinant2, m.minor(1, 0))
}

#[test]
fn calculating_a_minor_of_a_4x4_matrix() {
    let m = m4([[3, 5, 0, 1], [2, -1, -7, 2], [6, -1, 5, 3], [16, -11, 15, 13]]);

    let matrix3 = m.submatrix(1, 0);
    let determinant3 = matrix3.determinant();

    assert_eq!(determinant3, m.minor(1, 0))
}

#[test]
fn cofactor_of_a_3x3_matrix_0_0() {
    let m = m3([[3, 5, 0], [2, -1, -7], [6, -1, 5]]);

    let result = m.cofactor(0, 0);

    assert_eq!(m.minor(0, 0).mul(&r(1)), result);
}

#[test]
fn cofactor_of_a_3x3_matrix_0_1() {
    let m = m3([[3, 5, 0], [2, -1, -7], [6, -1, 5]]);

    let result = m.cofactor(0, 1);

    assert_eq!(m.minor(0, 1).mul(&r(-1)), result);
}

#[test]
fn cofactor_of_a_3x3_matrix_0_2() {
    let m = m3([[3, 5, 0], [2, -1, -7], [6, -1, 5]]);

    let result = m.cofactor(0, 2);

    assert_eq!(m.minor(0, 2).mul(&r(1)), result);
}

#[test]
fn cofactor_of_a_3x3_matrix_1_0() {
    let m = m3([[3, 5, 0], [2, -1, -7], [6, -1, 5]]);

    let result = m.cofactor(1, 0);

    assert_eq!(m.minor(1, 0).mul(&r(-1)), result);
}

#[test]
fn cofactor_of_a_3x3_matrix_1_1() {
    let m = m3([[3, 5, 0], [2, -1, -7], [6, -1, 5]]);

    let result = m.cofactor(1, 1);

    assert_eq!(m.minor(1, 1).mul(&r(1)), result);
}

#[test]
fn cofactor_of_a_3x3_matrix_1_2() {
    let m = m3([[3, 5, 0], [2, -1, -7], [6, -1, 5]]);

    let result = m.cofactor(1, 2);

    assert_eq!(m.minor(1, 2).mul(&r(-1)), result);
}

#[test]
fn cofactor_of_a_3x3_matrix_2_0() {
    let m = m3([[3, 5, 0], [2, -1, -7], [6, -1, 5]]);

    let result = m.cofactor(2, 0);

    assert_eq!(m.minor(2, 0).mul(&r(1)), result);
}

#[test]
fn cofactor_of_a_3x3_matrix_2_1() {
    let m = m3([[3, 5, 0], [2, -1, -7], [6, -1, 5]]);

    let result = m.cofactor(2, 1);

    assert_eq!(m.minor(2, 1).mul(&r(-1)), result);
}

#[test]
fn cofactor_of_a_3x3_matrix_2_2() {
    let m = m3([[3, 5, 0], [2, -1, -7], [6, -1, 5]]);

    let result = m.cofactor(2, 2);

    assert_eq!(m.minor(2, 2).mul(&r(1)), result);
}

#[test]
fn cofactor_of_a_4x4_matrix_0_0() {
    let m = m4([[3, 5, 0, 2], [2, -1, -7, 3], [6, -1, 5, 4], [16, -11, 15, 5]]);

    let result = m.cofactor(0, 0);

    assert_eq!(m.minor(0, 0).mul(&r(1)), result);
}

#[test]
fn cofactor_of_a_4x4_matrix_0_1() {
    let m = m4([[3, 5, 0, 2], [2, -1, -7, 3], [6, -1, 5, 4], [16, -11, 15, 5]]);

    let result = m.cofactor(0, 1);

    assert_eq!(m.minor(0, 1).mul(&r(-1)), result);
}

#[test]
fn cofactor_of_a_4x4_matrix_0_2() {
    let m = m4([[3, 5, 0, 2], [2, -1, -7, 3], [6, -1, 5, 4], [16, -11, 15, 5]]);

    let result = m.cofactor(0, 2);

    assert_eq!(m.minor(0, 2).mul(&r(1)), result);
}

#[test]
fn cofactor_of_a_4x4_matrix_0_3() {
    let m = m4([[3, 5, 0, 2], [2, -1, -7, 3], [6, -1, 5, 4], [16, -11, 15, 5]]);

    let result = m.cofactor(0, 3);

    assert_eq!(m.minor(0, 3).mul(&r(-1)), result);
}

#[test]
fn cofactor_of_a_4x4_matrix_1_0() {
    let m = m4([[3, 5, 0, 2], [2, -1, -7, 3], [6, -1, 5, 4], [16, -11, 15, 5]]);

    let result = m.cofactor(1, 0);

    assert_eq!(m.minor(1, 0).mul(&r(-1)), result);
}

#[test]
fn cofactor_of_a_4x4_matrix_1_1() {
    let m = m4([[3, 5, 0, 2], [2, -1, -7, 3], [6, -1, 5, 4], [16, -11, 15, 5]]);

    let result = m.cofactor(1, 1);

    assert_eq!(m.minor(1, 1).mul(&r(1)), result);
}

#[test]
fn cofactor_of_a_4x4_matrix_1_2() {
    let m = m4([[3, 5, 0, 2], [2, -1, -7, 3], [6, -1, 5, 4], [16, -11, 15, 5]]);

    let result = m.cofactor(1, 2);

    assert_eq!(m.minor(1, 2).mul(&r(-1)), result);
}

#[test]
fn cofactor_of_a_4x4_matrix_1_3() {
    let m = m4([[3, 5, 0, 2], [2, -1, -7, 3], [6, -1, 5, 4], [16, -11, 15, 5]]);

    let result = m.cofactor(1, 3);

    assert_eq!(m.minor(1, 3).mul(&r(1)), result);
}

#[test]
fn cofactor_of_a_4x4_matrix_2_0() {
    let m = m4([[3, 5, 0, 2], [2, -1, -7, 3], [6, -1, 5, 4], [16, -11, 15, 5]]);

    let result = m.cofactor(2, 0);

    assert_eq!(m.minor(2, 0).mul(&r(1)), result);
}

#[test]
fn cofactor_of_a_4x4_matrix_2_1() {
    let m = m4([[3, 5, 0, 2], [2, -1, -7, 3], [6, -1, 5, 4], [16, -11, 15, 5]]);

    let result = m.cofactor(2, 1);

    assert_eq!(m.minor(2, 1).mul(&r(-1)), result);
}

#[test]
fn cofactor_of_a_4x4_matrix_2_2() {
    let m = m4([[3, 5, 0, 2], [2, -1, -7, 3], [6, -1, 5, 4], [16, -11, 15, 5]]);

    let result = m.cofactor(2, 2);

    assert_eq!(m.minor(2, 2).mul(&r(1)), result);
}

#[test]
fn cofactor_of_a_4x4_matrix_2_3() {
    let m = m4([[3, 5, 0, 2], [2, -1, -7, 3], [6, -1, 5, 4], [16, -11, 15, 5]]);

    let result = m.cofactor(2, 3);

    assert_eq!(m.minor(2, 3).mul(&r(-1)), result);
}

#[test]
fn cofactor_of_a_4x4_matrix_3_0() {
    let m = m4([[3, 5, 0, 2], [2, -1, -7, 3], [6, -1, 5, 4], [16, -11, 15, 5]]);

    let result = m.cofactor(3, 0);

    assert_eq!(m.minor(3, 0).mul(&r(-1)), result);
}

#[test]
fn cofactor_of_a_4x4_matrix_3_1() {
    let m = m4([[3, 5, 0, 2], [2, -1, -7, 3], [6, -1, 5, 4], [16, -11, 15, 5]]);

    let result = m.cofactor(3, 1);

    assert_eq!(m.minor(3, 1).mul(&r(1)), result);
}

#[test]
fn cofactor_of_a_4x4_matrix_3_2() {
    let m = m4([[3, 5, 0, 2], [2, -1, -7, 3], [6, -1, 5, 4], [16, -11, 15, 5]]);

    let result = m.cofactor(3, 2);

    assert_eq!(m.minor(3, 2).mul(&r(-1)), result);
}

#[test]
fn cofactor_of_a_4x4_matrix_3_3() {
    let m = m4([[3, 5, 0, 2], [2, -1, -7, 3], [6, -1, 5, 4], [16, -11, 15, 5]]);

    let result = m.cofactor(3, 3);

    assert_eq!(m.minor(3, 3).mul(&r(1)), result);
}

#[test]
fn calculating_the_determinant_of_a_3x3_matrix() {
    let m = m3([[1, 2, 6], [-5, 8, -4], [2, 6, 4]]);

    let result = m.determinant();

    assert_eq!(r(-196), result);
}

#[test]
fn calculating_the_determinant_of_a_4x4_matrix() {
    let m = m4([[-2, -8, 3, 5], [-3, 1, 7, 3], [1, 2, -9, 6], [-6, 7, 7, -9]]);

    let result = m.determinant();

    assert_eq!(r(-4071), result);
}

#[test]
fn testing_an_4x4_invertible_matrix_for_invertibility() {
    let m = m4([[6, 4, 4, 4], [5, 5, 7, 6], [4, -9, 3, -7], [9, 1, 7, -6]]);

    assert_eq!(r(-2120), m.determinant());
    assert!(m.is_invertibile())
}

#[test]
fn testing_an_3x3_invertible_matrix_for_invertibility() {
    let m = m3([[6, 4, 4], [5, 5, 7], [4, -9, 3]]);

    assert!(m.is_invertibile())
}

#[test]
fn testing_an_2x2_invertible_matrix_for_invertibility() {
    let m = m2([[6, 4], [5, 5]]);

    assert!(m.is_invertibile())
}

#[test]
fn testing_a_non_invertible_matrix_for_invertibility() {
    let m = m4([[-4, 2, -2, -3], [9, 6, 2, 6], [0, -5, 1, -5], [0, 0, 0, 0]]);

    assert_eq!(r(0), m.determinant());
    assert!(!m.is_invertibile())
}

#[test]
fn matrix_calculating_the_inverse_of_a_matrix() {
    let m = m4([[-5, 2, 6, -8], [1, -5, 1, 8], [7, 7, -6, -7], [1, -3, 7, 4]]);

    let result = m.inverse();

    let expected = Matrix4::new([
        [rd(21805, 100000), rd(45113, 100000), rd(24060, 100000), rd(-4511, 100000)],
        [rd(-80827, 100000), rd(-145677, 100000), rd(-44361, 100000), rd(52068, 100000)],
        [rd(-7895, 100000), rd(-22368, 100000), rd(-5263, 100000), rd(19737, 100000)],
        [rd(-52256, 100000), rd(-81391, 100000), rd(-30075, 100000), rd(30639, 100000)],
    ]);

    let actual = result.round();
    assert_eq!(expected, actual);
}

#[test]
fn matrix_calculating_the_inverse_of_another_matrix() {
    let m = m4([[8, -5, 9, 2], [7, 5, 6, 1], [-6, 0, 9, 6], [-3, 0, -9, -4]]);

    let result = m.inverse();

    let expected = Matrix4::new([
        [rd(-15385, 100000), rd(-15385, 100000), rd(-28205, 100000), rd(-53846, 100000)],
        [rd(-7692, 100000), rd(12308, 100000), rd(2564, 100000), rd(3077, 100000)],
        [rd(35897, 100000), rd(35897, 100000), rd(43590, 100000), rd(92308, 100000)],
        [rd(-69231, 100000), rd(-69231, 100000), rd(-76923, 100000), rd(-192308, 100000)],
    ]);

    let actual = result.round();
    assert_eq!(expected, actual);
}

#[test]
fn matrix_calculating_the_inverse_of_a_third_matrix() {
    let m = m4([[9, 3, 0, 9], [-5, -2, -6, -3], [-4, 9, 6, 4], [-7, 6, 6, 2]]);

    let result = m.inverse();

    let expected = Matrix4::new([
        [rd(-4074, 100000), rd(-7778, 100000), rd(14444, 100000), rd(-22222, 100000)],
        [rd(-7778, 100000), rd(3333, 100000), rd(36667, 100000), rd(-33333, 100000)],
        [rd(-2901, 100000), rd(-14630, 100000), rd(-10926, 100000), rd(12963, 100000)],
        [rd(17778, 100000), rd(6667, 100000), rd(-26667, 100000), rd(33333, 100000)],
    ]);

    let actual = result.round();
    assert_eq!(expected, actual);
}

#[test]
fn matrix_multiplying_a_product_by_its_inverse() {
    let m1 = m4([[3, -9, 7, 3], [3, -8, 2, -9], [-4, 4, 4, 1], [-6, 5, -1, 1]]);

    let m2 = m4([[8, 2, 2, 2], [3, -1, 7, 0], [7, 0, 5, 4], [6, -2, 0, 5]]);

    let multiply_result = m1.mul(&m2);

    let result = multiply_result.mul(&m2.inverse());

    assert_eq!(m1, result.round());
}

#[test]
fn a_matrix_times_its_inverse_is_exactly_the_identity() {
    let m = m4([[-5, 2, 6, -8], [1, -5, 1, 8], [7, 7, -6, -7], [1, -3, 7, 4]]);

    assert!(m.is_invertibile());
    let result = m.mul(&m.inverse());

    assert_eq!(Matrix4::identity_matrix(), result);
}
