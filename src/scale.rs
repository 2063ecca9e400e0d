//! A scalar times a vector or a matrix: every entry multiplied by the scalar.
use crate::matrix::{M2, M3, M4};
use crate::model::{scale_mat, scale_vec, wrap_mat, wrap_vec};
use crate::numeric::Numeric;
use crate::vector::{V2, V3, V4};
use std::ops::Mul;
use vstd::prelude::*;

verus! {

impl Mul<V2<i8>> for i8 {
    type Output = V2<i8>;

    fn mul(self, rhs: V2<i8>) -> (r: V2<i8>)
        ensures
            r@ == wrap_vec::<i8>(scale_vec(self.value(), rhs@)),
    {
        let r = V2([self.times(rhs.0[0]), self.times(rhs.0[1])]);
        assert(r@ =~= wrap_vec::<i8>(scale_vec(self.value(), rhs@)));
        r
    }
}

impl vstd::std_specs::ops::MulSpecImpl<V2<i8>> for i8 {
    /// Callers go by the contract of `mul` itself.
    open spec fn obeys_mul_spec() -> bool {
        false
    }

    open spec fn mul_req(self, rhs: V2<i8>) -> bool {
        true
    }

    open spec fn mul_spec(self, rhs: V2<i8>) -> V2<i8> {
        arbitrary()
    }
}

impl Mul<V3<i8>> for i8 {
    type Output = V3<i8>;

    fn mul(self, rhs: V3<i8>) -> (r: V3<i8>)
        ensures
            r@ == wrap_vec::<i8>(scale_vec(self.value(), rhs@)),
    {
        let r = V3([self.times(rhs.0[0]), self.times(rhs.0[1]), self.times(rhs.0[2])]);
        assert(r@ =~= wrap_vec::<i8>(scale_vec(self.value(), rhs@)));
        r
    }
}

impl vstd::std_specs::ops::MulSpecImpl<V3<i8>> for i8 {
    /// Callers go by the contract of `mul` itself.
    open spec fn obeys_mul_spec() -> bool {
        false
    }

    open spec fn mul_req(self, rhs: V3<i8>) -> bool {
        true
    }

    open spec fn mul_spec(self, rhs: V3<i8>) -> V3<i8> {
        arbitrary()
    }
}

impl Mul<V4<i8>> for i8 {
    type Output = V4<i8>;

    fn mul(self, rhs: V4<i8>) -> (r: V4<i8>)
        ensures
            r@ == wrap_vec::<i8>(scale_vec(self.value(), rhs@)),
    {
        let r = V4([self.times(rhs.0[0]), self.times(rhs.0[1]), self.times(rhs.0[2]), self.times(rhs.0[3])]);
        assert(r@ =~= wrap_vec::<i8>(scale_vec(self.value(), rhs@)));
        r
    }
}

impl vstd::std_specs::ops::MulSpecImpl<V4<i8>> for i8 {
    /// Callers go by the contract of `mul` itself.
    open spec fn obeys_mul_spec() -> bool {
        false
    }

    open spec fn mul_req(self, rhs: V4<i8>) -> bool {
        true
    }

    open spec fn mul_spec(self, rhs: V4<i8>) -> V4<i8> {
        arbitrary()
    }
}

impl Mul<M2<i8>> for i8 {
    type Output = M2<i8>;

    fn mul(self, rhs: M2<i8>) -> (r: M2<i8>)
        ensures
            r@ == wrap_mat::<i8>(scale_mat(self.value(), rhs@)),
    {
        let r = M2([
            [self.times(rhs.0[0][0]), self.times(rhs.0[0][1])],
            [self.times(rhs.0[1][0]), self.times(rhs.0[1][1])],
        ]);
        assert(r@[0] =~= wrap_mat::<i8>(scale_mat(self.value(), rhs@))[0]);
        assert(r@[1] =~= wrap_mat::<i8>(scale_mat(self.value(), rhs@))[1]);
        assert(r@ =~= wrap_mat::<i8>(scale_mat(self.value(), rhs@)));
        r
    }
}

impl vstd::std_specs::ops::MulSpecImpl<M2<i8>> for i8 {
    /// Callers go by the contract of `mul` itself.
    open spec fn obeys_mul_spec() -> bool {
        false
    }

    open spec fn mul_req(self, rhs: M2<i8>) -> bool {
        true
    }

    open spec fn mul_spec(self, rhs: M2<i8>) -> M2<i8> {
        arbitrary()
    }
}

impl Mul<M3<i8>> for i8 {
    type Output = M3<i8>;

    fn mul(self, rhs: M3<i8>) -> (r: M3<i8>)
        ensures
            r@ == wrap_mat::<i8>(scale_mat(self.value(), rhs@)),
    {
        let r = M3([
            [self.times(rhs.0[0][0]), self.times(rhs.0[0][1]), self.times(rhs.0[0][2])],
            [self.times(rhs.0[1][0]), self.times(rhs.0[1][1]), self.times(rhs.0[1][2])],
            [self.times(rhs.0[2][0]), self.times(rhs.0[2][1]), self.times(rhs.0[2][2])],
        ]);
        assert(r@[0] =~= wrap_mat::<i8>(scale_mat(self.value(), rhs@))[0]);
        assert(r@[1] =~= wrap_mat::<i8>(scale_mat(self.value(), rhs@))[1]);
        assert(r@[2] =~= wrap_mat::<i8>(scale_mat(self.value(), rhs@))[2]);
        assert(r@ =~= wrap_mat::<i8>(scale_mat(self.value(), rhs@)));
        r
    }
}

impl vstd::std_specs::ops::MulSpecImpl<M3<i8>> for i8 {
    /// Callers go by the contract of `mul` itself.
    open spec fn obeys_mul_spec() -> bool {
        false
    }

    open spec fn mul_req(self, rhs: M3<i8>) -> bool {
        true
    }

    open spec fn mul_spec(self, rhs: M3<i8>) -> M3<i8> {
        arbitrary()
    }
}

impl Mul<M4<i8>> for i8 {
    type Output = M4<i8>;

    fn mul(self, rhs: M4<i8>) -> (r: M4<i8>)
        ensures
            r@ == wrap_mat::<i8>(scale_mat(self.value(), rhs@)),
    {
        let r = M4([
            [self.times(rhs.0[0][0]), self.times(rhs.0[0][1]), self.times(rhs.0[0][2]), self.times(rhs.0[0][3])],
            [self.times(rhs.0[1][0]), self.times(rhs.0[1][1]), self.times(rhs.0[1][2]), self.times(rhs.0[1][3])],
            [self.times(rhs.0[2][0]), self.times(rhs.0[2][1]), self.times(rhs.0[2][2]), self.times(rhs.0[2][3])],
            [self.times(rhs.0[3][0]), self.times(rhs.0[3][1]), self.times(rhs.0[3][2]), self.times(rhs.0[3][3])],
        ]);
        assert(r@[0] =~= wrap_mat::<i8>(scale_mat(self.value(), rhs@))[0]);
        assert(r@[1] =~= wrap_mat::<i8>(scale_mat(self.value(), rhs@))[1]);
        assert(r@[2] =~= wrap_mat::<i8>(scale_mat(self.value(), rhs@))[2]);
        assert(r@[3] =~= wrap_mat::<i8>(scale_mat(self.value(), rhs@))[3]);
        assert(r@ =~= wrap_mat::<i8>(scale_mat(self.value(), rhs@)));
        r
    }
}

impl vstd::std_specs::ops::MulSpecImpl<M4<i8>> for i8 {
    /// Callers go by the contract of `mul` itself.
    open spec fn obeys_mul_spec() -> bool {
        false
    }

    open spec fn mul_req(self, rhs: M4<i8>) -> bool {
        true
    }

    open spec fn mul_spec(self, rhs: M4<i8>) -> M4<i8> {
        arbitrary()
    }
}

impl Mul<V2<i16>> for i16 {
    type Output = V2<i16>;

    fn mul(self, rhs: V2<i16>) -> (r: V2<i16>)
        ensures
            r@ == wrap_vec::<i16>(scale_vec(self.value(), rhs@)),
    {
        let r = V2([self.times(rhs.0[0]), self.times(rhs.0[1])]);
        assert(r@ =~= wrap_vec::<i16>(scale_vec(self.value(), rhs@)));
        r
    }
}

impl vstd::std_specs::ops::MulSpecImpl<V2<i16>> for i16 {
    /// Callers go by the contract of `mul` itself.
    open spec fn obeys_mul_spec() -> bool {
        false
    }

    open spec fn mul_req(self, rhs: V2<i16>) -> bool {
        true
    }

    open spec fn mul_spec(self, rhs: V2<i16>) -> V2<i16> {
        arbitrary()
    }
}

impl Mul<V3<i16>> for i16 {
    type Output = V3<i16>;

    fn mul(self, rhs: V3<i16>) -> (r: V3<i16>)
        ensures
            r@ == wrap_vec::<i16>(scale_vec(self.value(), rhs@)),
    {
        let r = V3([self.times(rhs.0[0]), self.times(rhs.0[1]), self.times(rhs.0[2])]);
        assert(r@ =~= wrap_vec::<i16>(scale_vec(self.value(), rhs@)));
        r
    }
}

impl vstd::std_specs::ops::MulSpecImpl<V3<i16>> for i16 {
    /// Callers go by the contract of `mul` itself.
    open spec fn obeys_mul_spec() -> bool {
        false
    }

    open spec fn mul_req(self, rhs: V3<i16>) -> bool {
        true
    }

    open spec fn mul_spec(self, rhs: V3<i16>) -> V3<i16> {
        arbitrary()
    }
}

impl Mul<V4<i16>> for i16 {
    type Output = V4<i16>;

    fn mul(self, rhs: V4<i16>) -> (r: V4<i16>)
        ensures
            r@ == wrap_vec::<i16>(scale_vec(self.value(), rhs@)),
    {
        let r = V4([self.times(rhs.0[0]), self.times(rhs.0[1]), self.times(rhs.0[2]), self.times(rhs.0[3])]);
        assert(r@ =~= wrap_vec::<i16>(scale_vec(self.value(), rhs@)));
        r
    }
}

impl vstd::std_specs::ops::MulSpecImpl<V4<i16>> for i16 {
    /// Callers go by the contract of `mul` itself.
    open spec fn obeys_mul_spec() -> bool {
        false
    }

    open spec fn mul_req(self, rhs: V4<i16>) -> bool {
        true
    }

    open spec fn mul_spec(self, rhs: V4<i16>) -> V4<i16> {
        arbitrary()
    }
}

impl Mul<M2<i16>> for i16 {
    type Output = M2<i16>;

    fn mul(self, rhs: M2<i16>) -> (r: M2<i16>)
        ensures
            r@ == wrap_mat::<i16>(scale_mat(self.value(), rhs@)),
    {
        let r = M2([
            [self.times(rhs.0[0][0]), self.times(rhs.0[0][1])],
            [self.times(rhs.0[1][0]), self.times(rhs.0[1][1])],
        ]);
        assert(r@[0] =~= wrap_mat::<i16>(scale_mat(self.value(), rhs@))[0]);
        assert(r@[1] =~= wrap_mat::<i16>(scale_mat(self.value(), rhs@))[1]);
        assert(r@ =~= wrap_mat::<i16>(scale_mat(self.value(), rhs@)));
        r
    }
}

impl vstd::std_specs::ops::MulSpecImpl<M2<i16>> for i16 {
    /// Callers go by the contract of `mul` itself.
    open spec fn obeys_mul_spec() -> bool {
        false
    }

    open spec fn mul_req(self, rhs: M2<i16>) -> bool {
        true
    }

    open spec fn mul_spec(self, rhs: M2<i16>) -> M2<i16> {
        arbitrary()
    }
}

impl Mul<M3<i16>> for i16 {
    type Output = M3<i16>;

    fn mul(self, rhs: M3<i16>) -> (r: M3<i16>)
        ensures
            r@ == wrap_mat::<i16>(scale_mat(self.value(), rhs@)),
    {
        let r = M3([
            [self.times(rhs.0[0][0]), self.times(rhs.0[0][1]), self.times(rhs.0[0][2])],
            [self.times(rhs.0[1][0]), self.times(rhs.0[1][1]), self.times(rhs.0[1][2])],
            [self.times(rhs.0[2][0]), self.times(rhs.0[2][1]), self.times(rhs.0[2][2])],
        ]);
        assert(r@[0] =~= wrap_mat::<i16>(scale_mat(self.value(), rhs@))[0]);
        assert(r@[1] =~= wrap_mat::<i16>(scale_mat(self.value(), rhs@))[1]);
        assert(r@[2] =~= wrap_mat::<i16>(scale_mat(self.value(), rhs@))[2]);
        assert(r@ =~= wrap_mat::<i16>(scale_mat(self.value(), rhs@)));
        r
    }
}

impl vstd::std_specs::ops::MulSpecImpl<M3<i16>> for i16 {
    /// Callers go by the contract of `mul` itself.
    open spec fn obeys_mul_spec() -> bool {
        false
    }

    open spec fn mul_req(self, rhs: M3<i16>) -> bool {
        true
    }

    open spec fn mul_spec(self, rhs: M3<i16>) -> M3<i16> {
        arbitrary()
    }
}

impl Mul<M4<i16>> for i16 {
    type Output = M4<i16>;

    fn mul(self, rhs: M4<i16>) -> (r: M4<i16>)
        ensures
            r@ == wrap_mat::<i16>(scale_mat(self.value(), rhs@)),
    {
        let r = M4([
            [self.times(rhs.0[0][0]), self.times(rhs.0[0][1]), self.times(rhs.0[0][2]), self.times(rhs.0[0][3])],
            [self.times(rhs.0[1][0]), self.times(rhs.0[1][1]), self.times(rhs.0[1][2]), self.times(rhs.0[1][3])],
            [self.times(rhs.0[2][0]), self.times(rhs.0[2][1]), self.times(rhs.0[2][2]), self.times(rhs.0[2][3])],
            [self.times(rhs.0[3][0]), self.times(rhs.0[3][1]), self.times(rhs.0[3][2]), self.times(rhs.0[3][3])],
        ]);
        assert(r@[0] =~= wrap_mat::<i16>(scale_mat(self.value(), rhs@))[0]);
        assert(r@[1] =~= wrap_mat::<i16>(scale_mat(self.value(), rhs@))[1]);
        assert(r@[2] =~= wrap_mat::<i16>(scale_mat(self.value(), rhs@))[2]);
        assert(r@[3] =~= wrap_mat::<i16>(scale_mat(self.value(), rhs@))[3]);
        assert(r@ =~= wrap_mat::<i16>(scale_mat(self.value(), rhs@)));
        r
    }
}

impl vstd::std_specs::ops::MulSpecImpl<M4<i16>> for i16 {
    /// Callers go by the contract of `mul` itself.
    open spec fn obeys_mul_spec() -> bool {
        false
    }

    open spec fn mul_req(self, rhs: M4<i16>) -> bool {
        true
    }

    open spec fn mul_spec(self, rhs: M4<i16>) -> M4<i16> {
        arbitrary()
    }
}

impl Mul<V2<i32>> for i32 {
    type Output = V2<i32>;

    fn mul(self, rhs: V2<i32>) -> (r: V2<i32>)
        ensures
            r@ == wrap_vec::<i32>(scale_vec(self.value(), rhs@)),
    {
        let r = V2([self.times(rhs.0[0]), self.times(rhs.0[1])]);
        assert(r@ =~= wrap_vec::<i32>(scale_vec(self.value(), rhs@)));
        r
    }
}

impl vstd::std_specs::ops::MulSpecImpl<V2<i32>> for i32 {
    /// Callers go by the contract of `mul` itself.
    open spec fn obeys_mul_spec() -> bool {
        false
    }

    open spec fn mul_req(self, rhs: V2<i32>) -> bool {
        true
    }

    open spec fn mul_spec(self, rhs: V2<i32>) -> V2<i32> {
        arbitrary()
    }
}

impl Mul<V3<i32>> for i32 {
    type Output = V3<i32>;

    fn mul(self, rhs: V3<i32>) -> (r: V3<i32>)
        ensures
            r@ == wrap_vec::<i32>(scale_vec(self.value(), rhs@)),
    {
        let r = V3([self.times(rhs.0[0]), self.times(rhs.0[1]), self.times(rhs.0[2])]);
        assert(r@ =~= wrap_vec::<i32>(scale_vec(self.value(), rhs@)));
        r
    }
}

impl vstd::std_specs::ops::MulSpecImpl<V3<i32>> for i32 {
    /// Callers go by the contract of `mul` itself.
    open spec fn obeys_mul_spec() -> bool {
        false
    }

    open spec fn mul_req(self, rhs: V3<i32>) -> bool {
        true
    }

    open spec fn mul_spec(self, rhs: V3<i32>) -> V3<i32> {
        arbitrary()
    }
}

impl Mul<V4<i32>> for i32 {
    type Output = V4<i32>;

    fn mul(self, rhs: V4<i32>) -> (r: V4<i32>)
        ensures
            r@ == wrap_vec::<i32>(scale_vec(self.value(), rhs@)),
    {
        let r = V4([self.times(rhs.0[0]), self.times(rhs.0[1]), self.times(rhs.0[2]), self.times(rhs.0[3])]);
        assert(r@ =~= wrap_vec::<i32>(scale_vec(self.value(), rhs@)));
        r
    }
}

impl vstd::std_specs::ops::MulSpecImpl<V4<i32>> for i32 {
    /// Callers go by the contract of `mul` itself.
    open spec fn obeys_mul_spec() -> bool {
        false
    }

    open spec fn mul_req(self, rhs: V4<i32>) -> bool {
        true
    }

    open spec fn mul_spec(self, rhs: V4<i32>) -> V4<i32> {
        arbitrary()
    }
}

impl Mul<M2<i32>> for i32 {
    type Output = M2<i32>;

    fn mul(self, rhs: M2<i32>) -> (r: M2<i32>)
        ensures
            r@ == wrap_mat::<i32>(scale_mat(self.value(), rhs@)),
    {
        let r = M2([
            [self.times(rhs.0[0][0]), self.times(rhs.0[0][1])],
            [self.times(rhs.0[1][0]), self.times(rhs.0[1][1])],
        ]);
        assert(r@[0] =~= wrap_mat::<i32>(scale_mat(self.value(), rhs@))[0]);
        assert(r@[1] =~= wrap_mat::<i32>(scale_mat(self.value(), rhs@))[1]);
        assert(r@ =~= wrap_mat::<i32>(scale_mat(self.value(), rhs@)));
        r
    }
}

impl vstd::std_specs::ops::MulSpecImpl<M2<i32>> for i32 {
    /// Callers go by the contract of `mul` itself.
    open spec fn obeys_mul_spec() -> bool {
        false
    }

    open spec fn mul_req(self, rhs: M2<i32>) -> bool {
        true
    }

    open spec fn mul_spec(self, rhs: M2<i32>) -> M2<i32> {
        arbitrary()
    }
}

impl Mul<M3<i32>> for i32 {
    type Output = M3<i32>;

    fn mul(self, rhs: M3<i32>) -> (r: M3<i32>)
        ensures
            r@ == wrap_mat::<i32>(scale_mat(self.value(), rhs@)),
    {
        let r = M3([
            [self.times(rhs.0[0][0]), self.times(rhs.0[0][1]), self.times(rhs.0[0][2])],
            [self.times(rhs.0[1][0]), self.times(rhs.0[1][1]), self.times(rhs.0[1][2])],
            [self.times(rhs.0[2][0]), self.times(rhs.0[2][1]), self.times(rhs.0[2][2])],
        ]);
        assert(r@[0] =~= wrap_mat::<i32>(scale_mat(self.value(), rhs@))[0]);
        assert(r@[1] =~= wrap_mat::<i32>(scale_mat(self.value(), rhs@))[1]);
        assert(r@[2] =~= wrap_mat::<i32>(scale_mat(self.value(), rhs@))[2]);
        assert(r@ =~= wrap_mat::<i32>(scale_mat(self.value(), rhs@)));
        r
    }
}

impl vstd::std_specs::ops::MulSpecImpl<M3<i32>> for i32 {
    /// Callers go by the contract of `mul` itself.
    open spec fn obeys_mul_spec() -> bool {
        false
    }

    open spec fn mul_req(self, rhs: M3<i32>) -> bool {
        true
    }

    open spec fn mul_spec(self, rhs: M3<i32>) -> M3<i32> {
        arbitrary()
    }
}

impl Mul<M4<i32>> for i32 {
    type Output = M4<i32>;

    fn mul(self, rhs: M4<i32>) -> (r: M4<i32>)
        ensures
            r@ == wrap_mat::<i32>(scale_mat(self.value(), rhs@)),
    {
        let r = M4([
            [self.times(rhs.0[0][0]), self.times(rhs.0[0][1]), self.times(rhs.0[0][2]), self.times(rhs.0[0][3])],
            [self.times(rhs.0[1][0]), self.times(rhs.0[1][1]), self.times(rhs.0[1][2]), self.times(rhs.0[1][3])],
            [self.times(rhs.0[2][0]), self.times(rhs.0[2][1]), self.times(rhs.0[2][2]), self.times(rhs.0[2][3])],
            [self.times(rhs.0[3][0]), self.times(rhs.0[3][1]), self.times(rhs.0[3][2]), self.times(rhs.0[3][3])],
        ]);
        assert(r@[0] =~= wrap_mat::<i32>(scale_mat(self.value(), rhs@))[0]);
        assert(r@[1] =~= wrap_mat::<i32>(scale_mat(self.value(), rhs@))[1]);
        assert(r@[2] =~= wrap_mat::<i32>(scale_mat(self.value(), rhs@))[2]);
        assert(r@[3] =~= wrap_mat::<i32>(scale_mat(self.value(), rhs@))[3]);
        assert(r@ =~= wrap_mat::<i32>(scale_mat(self.value(), rhs@)));
        r
    }
}

impl vstd::std_specs::ops::MulSpecImpl<M4<i32>> for i32 {
    /// Callers go by the contract of `mul` itself.
    open spec fn obeys_mul_spec() -> bool {
        false
    }

    open spec fn mul_req(self, rhs: M4<i32>) -> bool {
        true
    }

    open spec fn mul_spec(self, rhs: M4<i32>) -> M4<i32> {
        arbitrary()
    }
}

impl Mul<V2<i64>> for i64 {
    type Output = V2<i64>;

    fn mul(self, rhs: V2<i64>) -> (r: V2<i64>)
        ensures
            r@ == wrap_vec::<i64>(scale_vec(self.value(), rhs@)),
    {
        let r = V2([self.times(rhs.0[0]), self.times(rhs.0[1])]);
        assert(r@ =~= wrap_vec::<i64>(scale_vec(self.value(), rhs@)));
        r
    }
}

impl vstd::std_specs::ops::MulSpecImpl<V2<i64>> for i64 {
    /// Callers go by the contract of `mul` itself.
    open spec fn obeys_mul_spec() -> bool {
        false
    }

    open spec fn mul_req(self, rhs: V2<i64>) -> bool {
        true
    }

    open spec fn mul_spec(self, rhs: V2<i64>) -> V2<i64> {
        arbitrary()
    }
}

impl Mul<V3<i64>> for i64 {
    type Output = V3<i64>;

    fn mul(self, rhs: V3<i64>) -> (r: V3<i64>)
        ensures
            r@ == wrap_vec::<i64>(scale_vec(self.value(), rhs@)),
    {
        let r = V3([self.times(rhs.0[0]), self.times(rhs.0[1]), self.times(rhs.0[2])]);
        assert(r@ =~= wrap_vec::<i64>(scale_vec(self.value(), rhs@)));
        r
    }
}

impl vstd::std_specs::ops::MulSpecImpl<V3<i64>> for i64 {
    /// Callers go by the contract of `mul` itself.
    open spec fn obeys_mul_spec() -> bool {
        false
    }

    open spec fn mul_req(self, rhs: V3<i64>) -> bool {
        true
    }

    open spec fn mul_spec(self, rhs: V3<i64>) -> V3<i64> {
        arbitrary()
    }
}

impl Mul<V4<i64>> for i64 {
    type Output = V4<i64>;

    fn mul(self, rhs: V4<i64>) -> (r: V4<i64>)
        ensures
            r@ == wrap_vec::<i64>(scale_vec(self.value(), rhs@)),
    {
        let r = V4([self.times(rhs.0[0]), self.times(rhs.0[1]), self.times(rhs.0[2]), self.times(rhs.0[3])]);
        assert(r@ =~= wrap_vec::<i64>(scale_vec(self.value(), rhs@)));
        r
    }
}

impl vstd::std_specs::ops::MulSpecImpl<V4<i64>> for i64 {
    /// Callers go by the contract of `mul` itself.
    open spec fn obeys_mul_spec() -> bool {
        false
    }

    open spec fn mul_req(self, rhs: V4<i64>) -> bool {
        true
    }

    open spec fn mul_spec(self, rhs: V4<i64>) -> V4<i64> {
        arbitrary()
    }
}

impl Mul<M2<i64>> for i64 {
    type Output = M2<i64>;

    fn mul(self, rhs: M2<i64>) -> (r: M2<i64>)
        ensures
            r@ == wrap_mat::<i64>(scale_mat(self.value(), rhs@)),
    {
        let r = M2([
            [self.times(rhs.0[0][0]), self.times(rhs.0[0][1])],
            [self.times(rhs.0[1][0]), self.times(rhs.0[1][1])],
        ]);
        assert(r@[0] =~= wrap_mat::<i64>(scale_mat(self.value(), rhs@))[0]);
        assert(r@[1] =~= wrap_mat::<i64>(scale_mat(self.value(), rhs@))[1]);
        assert(r@ =~= wrap_mat::<i64>(scale_mat(self.value(), rhs@)));
        r
    }
}

impl vstd::std_specs::ops::MulSpecImpl<M2<i64>> for i64 {
    /// Callers go by the contract of `mul` itself.
    open spec fn obeys_mul_spec() -> bool {
        false
    }

    open spec fn mul_req(self, rhs: M2<i64>) -> bool {
        true
    }

    open spec fn mul_spec(self, rhs: M2<i64>) -> M2<i64> {
        arbitrary()
    }
}

impl Mul<M3<i64>> for i64 {
    type Output = M3<i64>;

    fn mul(self, rhs: M3<i64>) -> (r: M3<i64>)
        ensures
            r@ == wrap_mat::<i64>(scale_mat(self.value(), rhs@)),
    {
        let r = M3([
            [self.times(rhs.0[0][0]), self.times(rhs.0[0][1]), self.times(rhs.0[0][2])],
            [self.times(rhs.0[1][0]), self.times(rhs.0[1][1]), self.times(rhs.0[1][2])],
            [self.times(rhs.0[2][0]), self.times(rhs.0[2][1]), self.times(rhs.0[2][2])],
        ]);
        assert(r@[0] =~= wrap_mat::<i64>(scale_mat(self.value(), rhs@))[0]);
        assert(r@[1] =~= wrap_mat::<i64>(scale_mat(self.value(), rhs@))[1]);
        assert(r@[2] =~= wrap_mat::<i64>(scale_mat(self.value(), rhs@))[2]);
        assert(r@ =~= wrap_mat::<i64>(scale_mat(self.value(), rhs@)));
        r
    }
}

impl vstd::std_specs::ops::MulSpecImpl<M3<i64>> for i64 {
    /// Callers go by the contract of `mul` itself.
    open spec fn obeys_mul_spec() -> bool {
        false
    }

    open spec fn mul_req(self, rhs: M3<i64>) -> bool {
        true
    }

    open spec fn mul_spec(self, rhs: M3<i64>) -> M3<i64> {
        arbitrary()
    }
}

impl Mul<M4<i64>> for i64 {
    type Output = M4<i64>;

    fn mul(self, rhs: M4<i64>) -> (r: M4<i64>)
        ensures
            r@ == wrap_mat::<i64>(scale_mat(self.value(), rhs@)),
    {
        let r = M4([
            [self.times(rhs.0[0][0]), self.times(rhs.0[0][1]), self.times(rhs.0[0][2]), self.times(rhs.0[0][3])],
            [self.times(rhs.0[1][0]), self.times(rhs.0[1][1]), self.times(rhs.0[1][2]), self.times(rhs.0[1][3])],
            [self.times(rhs.0[2][0]), self.times(rhs.0[2][1]), self.times(rhs.0[2][2]), self.times(rhs.0[2][3])],
            [self.times(rhs.0[3][0]), self.times(rhs.0[3][1]), self.times(rhs.0[3][2]), self.times(rhs.0[3][3])],
        ]);
        assert(r@[0] =~= wrap_mat::<i64>(scale_mat(self.value(), rhs@))[0]);
        assert(r@[1] =~= wrap_mat::<i64>(scale_mat(self.value(), rhs@))[1]);
        assert(r@[2] =~= wrap_mat::<i64>(scale_mat(self.value(), rhs@))[2]);
        assert(r@[3] =~= wrap_mat::<i64>(scale_mat(self.value(), rhs@))[3]);
        assert(r@ =~= wrap_mat::<i64>(scale_mat(self.value(), rhs@)));
        r
    }
}

impl vstd::std_specs::ops::MulSpecImpl<M4<i64>> for i64 {
    /// Callers go by the contract of `mul` itself.
    open spec fn obeys_mul_spec() -> bool {
        false
    }

    open spec fn mul_req(self, rhs: M4<i64>) -> bool {
        true
    }

    open spec fn mul_spec(self, rhs: M4<i64>) -> M4<i64> {
        arbitrary()
    }
}

} // verus!
