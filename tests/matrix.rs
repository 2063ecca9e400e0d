use glsl_linalg::{FloatMatrix, FromVectors, IntoVectors, Matrix, M2, M3, M4, V2, V3, V4};

#[test]
fn m_div_f() {
    let m: M4<i32> = M4([[0, 2, 4, 6], [8, 10, 12, 14], [16, 18, 20, 22], [24, 26, 28, 30]]);
    assert_eq!(M4([[0, 1, 2, 3], [4, 5, 6, 7], [8, 9, 10, 11], [12, 13, 14, 15]]), m / 2)
}

#[test]
fn m_add_m() {
    let m1: M4<i32> = M4::from_rows((
        V4([1, 2, -1, 2]),
        V4([0, 1, 0, 2]),
        V4([2, 3, 4, 0]),
        V4([1, 2, 0, 3]),
    ));
    let m2 = M4::from_rows((
        V4([1, 2, 3, 0]),
        V4([0, 1, 4, 3]),
        V4([1, 2, 4, 0]),
        V4([-1, -3, 3, 2]),
    ));

    assert_eq!(
        M4::from_rows((V4([2, 4, 2, 2]), V4([0, 2, 4, 5]), V4([3, 5, 8, 0]), V4([0, -1, 3, 5]))),
        m1 + m2
    );
}

#[test]
fn m_sub_m() {
    let m1: M4<i32> = M4::from_rows((
        V4([1, 2, -1, 2]),
        V4([0, 1, 0, 2]),
        V4([2, 3, 4, 0]),
        V4([1, 2, 0, 3]),
    ));
    let m2 = M4::from_rows((
        V4([1, 2, 3, 0]),
        V4([0, 1, 4, 3]),
        V4([1, 2, 4, 0]),
        V4([-1, -3, 3, 2]),
    ));

    assert_eq!(
        M4::from_rows((V4([0, 0, -4, 2]), V4([0, 0, -4, -1]), V4([1, 1, 0, 0]), V4([2, 5, -3, 1]))),
        m1 - m2
    );
}

#[test]
fn m_mul_m() {
    let m1: M2<i32> = M2([[1, 2], [3, 4]]);
    let m2 = M2([[-2, 1], [3, 1]]);

    assert_eq!(M2([[4, 3], [6, 7]]), m1 * m2);
}

#[test]
fn m_mul_v() {
    let m: M3<i32> = M3([[1, 2, 3], [0, 1, 2], [0, 3, 4]]);
    let v = V3([1, 2, 3]);

    assert_eq!(V3([14, 8, 18]), m * v);
}

#[test]
fn m_transpose() {
    let mut m: M4<i32> = M4([[0, 1, 2, 3], [4, 5, 6, 7], [8, 9, 10, 11], [12, 13, 14, 15]]);
    m.transpose();

    assert_eq!(M4([[0, 4, 8, 12], [1, 5, 9, 13], [2, 6, 10, 14], [3, 7, 11, 15]]), m);
}

#[test]
fn m_inverse() {
    // The inverse of this matrix has halves in it: its determinant is 2, and
    // its adjugate is twice that inverse.
    let m: M4<i64> = M4([[1, 0, 1, 2], [1, 3, 3, 4], [3, 2, 3, 5], [1, 2, 3, 4]]);
    assert_eq!(2, m.determinant());
    assert_eq!(M4([[-3, -2, 2, 1], [0, 2, 0, -2], [-7, -6, 2, 7], [6, 4, -2, -4]]), m.cofactor());

    let m: M3<i64> = M3([[2, -1, 0], [1, 0, 1], [1, 0, 2]]);

    assert_eq!(M3([[0, 2, -1], [-1, 4, -2], [0, -1, 1]]), m.inverse());

    let m: M2<i64> = M2::from_rows((V2([1, 2]), V2([0, 1])));

    assert_eq!(M2([[1, -2], [0, 1]]), m.inverse());
}

#[test]
fn transpose_twice_gives_the_matrix_back() {
    let start: M3<i16> = M3([[1, 2, 3], [4, 5, 6], [7, 8, 9]]);
    let mut m = start;
    m.transpose();
    assert_eq!(M3([[1, 4, 7], [2, 5, 8], [3, 6, 9]]), m);
    m.transpose();
    assert_eq!(start, m);
}

#[test]
fn rows_and_cols_round_trip() {
    let m: M3<i32> = M3([[1, 2, 3], [4, 5, 6], [7, 8, 9]]);
    assert_eq!(m, M3::from_rows(m.into_rows()));
    assert_eq!(m, M3::from_cols(m.into_cols()));
    let (c0, c1, c2) = m.into_cols();
    assert_eq!((V3([1, 4, 7]), V3([2, 5, 8]), V3([3, 6, 9])), (c0, c1, c2));
    let n: M2<i8> = M2::from_cols((V2([1, 2]), V2([3, 4])));
    assert_eq!(M2([[1, 3], [2, 4]]), n);
    let q: M4<i64> = M4([[1, 2, 3, 4], [5, 6, 7, 8], [9, 10, 11, 12], [13, 14, 15, 16]]);
    assert_eq!(q, M4::from_cols(q.into_cols()));
    assert_eq!(q, M4::from_rows(q.into_rows()));
}

#[test]
fn determinants() {
    let a: M2<i32> = M2([[3, 8], [4, 6]]);
    assert_eq!(-14, a.determinant());
    let b: M3<i32> = M3([[6, 1, 1], [4, -2, 5], [2, 8, 7]]);
    assert_eq!(-306, b.determinant());
    let c: M4<i32> = M4([[3, 2, 0, 1], [4, 0, 1, 2], [3, 0, 2, 1], [9, 2, 3, 1]]);
    assert_eq!(24, c.determinant());
    let singular: M3<i32> = M3([[1, 2, 3], [2, 4, 6], [7, 8, 9]]);
    assert_eq!(0, singular.determinant());
}

#[test]
fn adjugate_of_two_by_two() {
    let a: M2<i32> = M2([[3, 8], [4, 6]]);
    assert_eq!(M2([[6, -8], [-4, 3]]), a.cofactor());
}

#[test]
fn matrix_times_inverse_is_identity() {
    let m: M3<i32> = M3([[2, -1, 0], [1, 0, 1], [1, 0, 2]]);
    assert_eq!(M3([[1, 0, 0], [0, 1, 0], [0, 0, 1]]), m * m.inverse());
    let u: M4<i32> = M4([[1, 2, 0, 0], [0, 1, 0, 0], [0, 0, 1, 3], [0, 0, 0, 1]]);
    assert_eq!(1, u.determinant());
    let inv = u.inverse();
    assert_eq!(M4([[1, -2, 0, 0], [0, 1, 0, 0], [0, 0, 1, -3], [0, 0, 0, 1]]), inv);
    assert_eq!(M4([[1, 0, 0, 0], [0, 1, 0, 0], [0, 0, 1, 0], [0, 0, 0, 1]]), u * inv);
}

#[test]
fn inverse_of_inverse() {
    let m: M2<i64> = M2([[1, 2], [0, 1]]);
    assert_eq!(m, m.inverse().inverse());
    let n: M3<i64> = M3([[2, -1, 0], [1, 0, 1], [1, 0, 2]]);
    assert_eq!(n, n.inverse().inverse());
}

#[test]
fn vector_times_matrix_and_matrix_times_vector() {
    let m: M2<i32> = M2([[1, 2], [3, 4]]);
    let v = V2([5, 6]);
    assert_eq!(V2([17, 39]), m * v);
    assert_eq!(V2([23, 34]), v * m);
    let q: M4<i32> = M4([[1, 0, 0, 1], [0, 2, 0, 0], [0, 0, 3, 0], [1, 0, 0, 4]]);
    let w = V4([1, 1, 1, 1]);
    assert_eq!(V4([2, 2, 3, 5]), q * w);
    assert_eq!(V4([2, 2, 3, 5]), w * q);
}

#[test]
fn scalar_times_matrix_distributes() {
    let k: i16 = 5;
    let a = M2([[1, -2], [3, 4]]);
    let b = M2([[10, 20], [-30, 40]]);
    assert_eq!(k * (a + b), k * a + k * b);
    assert_eq!(M2([[55, 90], [-135, 220]]), k * (a + b));
}

#[test]
fn products_of_three_by_three() {
    let a: M3<i32> = M3([[1, 2, 3], [4, 5, 6], [7, 8, 9]]);
    let b = M3([[9, 8, 7], [6, 5, 4], [3, 2, 1]]);
    assert_eq!(M3([[30, 24, 18], [84, 69, 54], [138, 114, 90]]), a * b);
    assert_eq!(M3([[11, 9, 7], [5, 3, 1], [-1, -3, -5]]), (b - a) / 2 + M3([[7, 6, 5], [4, 3, 2], [1, 0, -1]]));
}
