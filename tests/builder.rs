use glsl_linalg::builder::{Converter, EmptyConverter, Finalizer, V1};
use glsl_linalg::{FromVectors, M2, M3, V2, V3, V4};

#[test]
fn arguments_are_concatenated() {
    let e: V1<i32> = EmptyConverter.convert(1);
    let v2: V2<i32> = e.convert(2);
    let v3: V3<i32> = v2.convert(3);
    let v4: V4<i32> = v3.convert(4);
    assert_eq!(V4([1, 2, 3, 4]), v4);

    let a: V1<i32> = EmptyConverter.convert(7);
    let b: V3<i32> = a.convert(V2([8, 9]));
    assert_eq!(V3([7, 8, 9]), b);
    let c: V4<i32> = V2([1, 2]).convert(V2([3, 4]));
    assert_eq!(V4([1, 2, 3, 4]), c);
    let d: V1<i64> = EmptyConverter.convert(0);
    let f: V4<i64> = d.convert(V3([5, 6, 7]));
    assert_eq!(V4([0, 5, 6, 7]), f);
}

#[test]
fn a_whole_vector_passes_through() {
    let v: V3<i16> = EmptyConverter.convert(V3([4, 5, 6]));
    let w: V3<i16> = v.finalize();
    assert_eq!(V3([4, 5, 6]), w);
}

#[test]
fn a_single_scalar_is_broadcast() {
    let s: V1<i64> = EmptyConverter.convert(3);
    let v: V4<i64> = s.finalize();
    assert_eq!(V4([3; 4]), v);
    let s: V1<i64> = EmptyConverter.convert(2);
    let m: M3<i64> = s.finalize();
    assert_eq!(M3([[2; 3]; 3]), m);
    let s: V1<i8> = EmptyConverter.convert(-1);
    let m: M2<i8> = s.finalize();
    assert_eq!(M2([[-1, -1], [-1, -1]]), m);
}

#[test]
fn a_longer_vector_is_cut() {
    let v: V2<i32> = V4([1, 2, 3, 4]).finalize();
    assert_eq!(V2([1, 2]), v);
    let w: V3<i32> = V4([1, 2, 3, 4]).finalize();
    assert_eq!(V3([1, 2, 3]), w);
    let x: V2<i32> = V3([5, 6, 7]).finalize();
    assert_eq!(V2([5, 6]), x);
}

#[test]
fn rows_built_from_arguments_stack_into_a_matrix() {
    let a: V1<i32> = EmptyConverter.convert(1);
    let r0: V2<i32> = a.convert(2);
    let b: V1<i32> = EmptyConverter.convert(0);
    let r1: V2<i32> = b.convert(1);
    assert_eq!(M2([[1, 2], [0, 1]]), M2::from_rows((r0, r1)));
}
