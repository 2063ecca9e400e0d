use glsl_linalg::{M4, V4};

#[test]
fn f_mul_v() {
    let f: i64 = 2;
    let v = V4([3; 4]);

    assert_eq!(V4([6; 4]), f * v);
}

#[test]
fn f_mul_m() {
    let f: i64 = 3;
    let m = M4([[2; 4]; 4]);

    assert_eq!(M4([[6; 4]; 4]), f * m);
}
