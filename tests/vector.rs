use glsl_linalg::{Cross, Vector, M3, V2, V3, V4};

#[test]
fn v_mul_f() {
    let f: i64 = 2;
    let v = V4([3; 4]);

    assert_eq!(V4([6; 4]), v * f);
}

#[test]
fn v_div_f() {
    let f: i64 = 4;
    let v = V4([8; 4]);

    assert_eq!(V4([2; 4]), v / f);
}

#[test]
fn v_add_v() {
    let v1: V3<i64> = V3([1, 2, 3]);
    let v2 = V3([-1, -2, -3]);

    assert_eq!(V3([0; 3]), v1 + v2);
}

#[test]
fn v_sub_v() {
    let v1: V3<i64> = V3([2; 3]);
    let v2 = V3([2; 3]);

    assert_eq!(V3([0; 3]), v1 - v2);
}

#[test]
fn v_mul_v() {
    let v1: V3<i64> = V3([2, 3, 4]);
    let v2 = V3([-2, 0, -1]);

    assert_eq!(V3([-4, 0, -4]), v1 * v2);
}

#[test]
fn v_div_v() {
    let v1: V3<i64> = V3([6, 4, 3]);
    let v2 = V3([2, 2, 3]);

    assert_eq!(V3([3, 2, 1]), v1 / v2);
}

#[test]
fn v_mul_m() {
    let v: V3<i64> = V3([1, 2, 3]);
    let m = M3([[2, 3, 4], [5, 1, 2], [1, 3, 2]]);

    assert_eq!(V3([15, 14, 14]), v * m);
}

#[test]
fn v_dot() {
    let v1: V3<i64> = V3([1, 2, 3]);
    let v2 = V3([2, 3, 4]);

    assert_eq!(20, v1.dot(v2));
}

#[test]
fn dot_of_each_arity() {
    let a: V2<i32> = V2([3, 4]);
    assert_eq!(25, a.dot(a));
    let b: V4<i32> = V4([1, -2, 3, -4]);
    let c = V4([5, 6, 7, 8]);
    assert_eq!(5 - 12 + 21 - 32, b.dot(c));
}

#[test]
fn dot_is_commutative() {
    let a: V4<i16> = V4([7, -3, 2, 9]);
    let b = V4([-1, 4, 6, 5]);
    assert_eq!(a.dot(b), b.dot(a));
    let c: V3<i8> = V3([100, 50, -7]);
    let d = V3([3, -2, 1]);
    assert_eq!(c.dot(d), d.dot(c));
}

#[test]
fn cross_of_three_vectors() {
    let x: V3<i32> = V3([1, 0, 0]);
    let y = V3([0, 1, 0]);
    assert_eq!(V3([0, 0, 1]), x.cross(y));
    let a: V3<i32> = V3([1, 2, 3]);
    let b = V3([4, 5, 6]);
    assert_eq!(V3([-3, 6, -3]), a.cross(b));
}

#[test]
fn cross_of_two_vectors_lies_on_z() {
    let a: V2<i32> = V2([2, 3]);
    let b = V2([5, 7]);
    assert_eq!(V3([0, 0, 2 * 7 - 3 * 5]), a.cross(b));
}

#[test]
fn scalar_times_vector_distributes() {
    let k: i32 = -3;
    let a = V3([1, 2, 3]);
    let b = V3([10, -20, 30]);
    assert_eq!(k * (a + b), k * a + k * b);
    assert_eq!(V3([-33, 54, -99]), k * (a + b));
}

#[test]
fn arithmetic_wraps_in_the_scalar_range() {
    let a: V2<i8> = V2([127, -128]);
    let b = V2([1, -1]);
    assert_eq!(V2([-128, 127]), a + b);
    assert_eq!(V2([127, -128]), a / V2([1, -1]));
    assert_eq!(V2([-2, 0]), a * 2);
}

#[test]
fn division_truncates_toward_zero() {
    let a: V4<i32> = V4([7, -7, 7, -7]);
    assert_eq!(V4([2, -2, -2, 2]), a / V4([3, 3, -3, -3]));
    assert_eq!(V4([3, -3, 3, -3]), a / 2);
}

#[test]
fn largest_scalars_wrap() {
    let a: V2<i64> = V2([i64::MAX, i64::MIN]);
    let one = V2([1, 1]);
    assert_eq!(V2([i64::MIN, i64::MIN + 1]), a + one);
    assert_eq!(V2([i64::MAX, i64::MIN]), a - V2([0, 0]));
    assert_eq!(i64::MAX.wrapping_mul(2).wrapping_add(i64::MIN.wrapping_mul(3)), a.dot(V2([2, 3])));
    let b: V3<i32> = V3([i32::MIN, 5, -5]);
    assert_eq!(V3([i32::MIN, -5, 5]), b / -1);
}
