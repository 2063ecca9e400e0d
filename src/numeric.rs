use vstd::arithmetic::div_mod::{lemma_fundamental_div_mod, lemma_mod_multiples_vanish};
use vstd::prelude::*;

verus! {

/// `v` reduced into the range `[-m/2, m/2)` of an `m`-valued two's-complement type:
/// the unique value congruent to `v` modulo `m` there (for `m <= 0`, `v` itself).
pub open spec fn reduce(v: int, m: int) -> int {
    if m > 0 {
        (v + m / 2) % m - m / 2
    } else {
        v
    }
}

/// The value that the scalar type `T` holds for the exact integer `v`:
/// `v` itself when it fits, else `v` wrapped around in two's complement.
pub open spec fn wrap<T: Numeric>(v: int) -> int {
    reduce(v, T::modulus())
}

/// Truncating integer division (rounds toward zero), as Rust's `/` on signed integers.
pub open spec fn trunc_div(a: int, b: int) -> int {
    let q = abs(a) / abs(b);
    if (a < 0) == (b < 0) {
        q
    } else {
        -q
    }
}

pub open spec fn abs(a: int) -> int {
    if a < 0 {
        -a
    } else {
        a
    }
}

/// A scalar that vectors and matrices can hold: a signed two's-complement integer.
///
/// Each operation is total and wraps around on overflow; its contract states the
/// exact integer result reduced into the type's range (see `wrap`), so where the
/// exact result fits it is returned as it is.
/// (`reduce(v, Self::modulus())` is `wrap::<Self>(v)`.)
pub trait Numeric: Copy + Default + Sized {
    /// The mathematical value of the scalar.
    spec fn value(self) -> int;

    /// The number of values the type can hold.
    spec fn modulus() -> int;

    /// The value of a scalar lies in the type's range, and distinct scalars differ in value.
    proof fn lemma_value(self, other: Self)
        ensures
            Self::modulus() >= 0x100,
            Self::modulus() % 2 == 0,
            -(Self::modulus() / 2) <= self.value() < Self::modulus() / 2,
            self.value() == other.value() ==> self == other,
    ;

    /// The type holds at least the 8-bit range, and an even number of values.
    proof fn lemma_modulus()
        ensures
            Self::modulus() >= 0x100,
            Self::modulus() % 2 == 0,
    ;

    /// Zero.
    fn zero() -> (r: Self)
        ensures
            r.value() == 0,
    ;

    /// Wrapping addition.
    fn plus(self, rhs: Self) -> (r: Self)
        ensures
            r.value() == reduce(self.value() + rhs.value(), Self::modulus()),
    ;

    /// Wrapping subtraction.
    fn minus(self, rhs: Self) -> (r: Self)
        ensures
            r.value() == reduce(self.value() - rhs.value(), Self::modulus()),
    ;

    /// Wrapping multiplication.
    fn times(self, rhs: Self) -> (r: Self)
        ensures
            r.value() == reduce(self.value() * rhs.value(), Self::modulus()),
    ;

    /// Truncating division; only the quotient of the minimum by `-1` wraps.
    fn quot(self, rhs: Self) -> (r: Self)
        requires
            rhs.value() != 0,
        ensures
            r.value() == reduce(trunc_div(self.value(), rhs.value()), Self::modulus()),
    ;

    /// Wrapping negation.
    fn negate(self) -> (r: Self)
        ensures
            r.value() == reduce(-self.value(), Self::modulus()),
    ;
}

/// `reduce(v, m)` differs from `v` by a multiple of `m`, and lies in `[-m/2, m/2)`.
pub proof fn lemma_reduce_bounds(v: int, m: int)
    requires
        m > 0,
    ensures
        reduce(v, m) == v - m * ((v + m / 2) / m),
        -(m / 2) <= reduce(v, m) < m - m / 2,
{
    lemma_fundamental_div_mod(v + m / 2, m);
}

/// Adding a multiple of `m` does not change the reduction.
pub proof fn lemma_reduce_shift(v: int, k: int, m: int)
    requires
        m > 0,
    ensures
        reduce(v + m * k, m) == reduce(v, m),
{
    lemma_mod_multiples_vanish(k, v + m / 2, m);
    assert(m * k + (v + m / 2) == (v + m * k) + m / 2);
}

/// `v` lies in the range of `T`.
pub open spec fn fits<T: Numeric>(v: int) -> bool {
    -(T::modulus() / 2) <= v < T::modulus() / 2
}

/// A value in `[-m/2, m/2)` is its own reduction.
pub proof fn lemma_reduce_small(v: int, m: int)
    requires
        m > 0,
        -(m / 2) <= v < m - m / 2,
    ensures
        reduce(v, m) == v,
{
    vstd::arithmetic::div_mod::lemma_small_mod((v + m / 2) as nat, m as nat);
}

pub broadcast proof fn lemma_reduce_add_left(x: int, y: int, m: int)
    ensures
        #[trigger] reduce(reduce(x, m) + y, m) == reduce(x + y, m),
{
    if m > 0 {
        let q = (x + m / 2) / m;
        lemma_reduce_bounds(x, m);
        lemma_reduce_shift(x + y, -q, m);
        assert(reduce(x, m) + y == (x + y) + m * (-q)) by (nonlinear_arith)
            requires
                reduce(x, m) == x - m * q;
    }
}

pub broadcast proof fn lemma_reduce_add_right(x: int, y: int, m: int)
    ensures
        #[trigger] reduce(x + reduce(y, m), m) == reduce(x + y, m),
{
    lemma_reduce_add_left(y, x, m);
    assert(x + reduce(y, m) == reduce(y, m) + x);
}

pub broadcast proof fn lemma_reduce_sub_left(x: int, y: int, m: int)
    ensures
        #[trigger] reduce(reduce(x, m) - y, m) == reduce(x - y, m),
{
    lemma_reduce_add_left(x, -y, m);
}

pub broadcast proof fn lemma_reduce_sub_right(x: int, y: int, m: int)
    ensures
        #[trigger] reduce(x - reduce(y, m), m) == reduce(x - y, m),
{
    if m > 0 {
        let q = (y + m / 2) / m;
        lemma_reduce_bounds(y, m);
        lemma_reduce_shift(x - y, q, m);
        assert(x - reduce(y, m) == (x - y) + m * q) by (nonlinear_arith)
            requires
                reduce(y, m) == y - m * q;
    }
}

pub broadcast proof fn lemma_reduce_mul_left(x: int, y: int, m: int)
    ensures
        #[trigger] reduce(reduce(x, m) * y, m) == reduce(x * y, m),
{
    if m > 0 {
        let q = (x + m / 2) / m;
        lemma_reduce_bounds(x, m);
        lemma_reduce_shift(x * y, -(q * y), m);
        assert(reduce(x, m) * y == x * y + m * (-(q * y))) by (nonlinear_arith)
            requires
                reduce(x, m) == x - m * q;
    }
}

pub broadcast proof fn lemma_reduce_mul_right(x: int, y: int, m: int)
    ensures
        #[trigger] reduce(x * reduce(y, m), m) == reduce(x * y, m),
{
    lemma_reduce_mul_left(y, x, m);
    assert(x * reduce(y, m) == reduce(y, m) * x) by (nonlinear_arith);
    assert(x * y == y * x) by (nonlinear_arith);
}

pub broadcast proof fn lemma_reduce_neg(x: int, m: int)
    ensures
        #[trigger] reduce(-reduce(x, m), m) == reduce(-x, m),
{
    lemma_reduce_sub_right(0, x, m);
    assert(0 - reduce(x, m) == -reduce(x, m));
}

pub broadcast proof fn lemma_reduce_idempotent(x: int, m: int)
    ensures
        #[trigger] reduce(reduce(x, m), m) == reduce(x, m),
{
    lemma_reduce_add_left(x, 0, m);
}

/// A scalar's value is its own reduction.
pub broadcast proof fn lemma_wrap_value<T: Numeric>(x: T)
    ensures
        #[trigger] reduce(x.value(), T::modulus()) == x.value(),
{
    x.lemma_value(x);
    lemma_reduce_small(x.value(), T::modulus());
}

pub broadcast group group_reduce {
    lemma_wrap_value,
    lemma_reduce_add_left,
    lemma_reduce_add_right,
    lemma_reduce_sub_left,
    lemma_reduce_sub_right,
    lemma_reduce_mul_left,
    lemma_reduce_mul_right,
    lemma_reduce_neg,
    lemma_reduce_idempotent,
}

impl Numeric for i8 {
    open spec fn value(self) -> int {
        self as int
    }

    open spec fn modulus() -> int {
        0x100
    }

    proof fn lemma_value(self, other: i8) {
    }

    proof fn lemma_modulus() {
    }

    fn zero() -> (r: i8) {
        0
    }

    fn plus(self, rhs: i8) -> (r: i8) {
        let r = self.wrapping_add(rhs);
        proof {
            lemma_reduce_exact(0x100, r as int, self + rhs);
        }
        r
    }

    fn minus(self, rhs: i8) -> (r: i8) {
        let r = self.wrapping_sub(rhs);
        proof {
            lemma_reduce_exact(0x100, r as int, self - rhs);
        }
        r
    }

    fn times(self, rhs: i8) -> (r: i8) {
        let r = self.wrapping_mul(rhs);
        proof {
            vstd::arithmetic::div_mod::lemma_fundamental_div_mod(self * rhs, 0x100);
            lemma_reduce_exact(0x100, r as int, self * rhs);
        }
        r
    }

    fn quot(self, rhs: i8) -> (r: i8) {
        // only the minimum divided by -1 overflows, and it wraps to the minimum itself
        let r = match self.checked_div(rhs) {
            Some(q) => q,
            None => self,
        };
        proof {
            lemma_trunc_div_bounds(self as int, rhs as int);
            lemma_reduce_exact(0x100, r as int, trunc_div(self as int, rhs as int));
        }
        r
    }

    fn negate(self) -> (r: i8) {
        let r = if self == i8::MIN {
            self
        } else {
            -self
        };
        proof {
            lemma_reduce_exact(0x100, r as int, -self);
        }
        r
    }
}

impl Numeric for i16 {
    open spec fn value(self) -> int {
        self as int
    }

    open spec fn modulus() -> int {
        0x1_0000
    }

    proof fn lemma_value(self, other: i16) {
    }

    proof fn lemma_modulus() {
    }

    fn zero() -> (r: i16) {
        0
    }

    fn plus(self, rhs: i16) -> (r: i16) {
        let r = self.wrapping_add(rhs);
        proof {
            lemma_reduce_exact(0x1_0000, r as int, self + rhs);
        }
        r
    }

    fn minus(self, rhs: i16) -> (r: i16) {
        let r = self.wrapping_sub(rhs);
        proof {
            lemma_reduce_exact(0x1_0000, r as int, self - rhs);
        }
        r
    }

    fn times(self, rhs: i16) -> (r: i16) {
        let r = self.wrapping_mul(rhs);
        proof {
            vstd::arithmetic::div_mod::lemma_fundamental_div_mod(self * rhs, 0x1_0000);
            lemma_reduce_exact(0x1_0000, r as int, self * rhs);
        }
        r
    }

    fn quot(self, rhs: i16) -> (r: i16) {
        // only the minimum divided by -1 overflows, and it wraps to the minimum itself
        let r = match self.checked_div(rhs) {
            Some(q) => q,
            None => self,
        };
        proof {
            lemma_trunc_div_bounds(self as int, rhs as int);
            lemma_reduce_exact(0x1_0000, r as int, trunc_div(self as int, rhs as int));
        }
        r
    }

    fn negate(self) -> (r: i16) {
        let r = if self == i16::MIN {
            self
        } else {
            -self
        };
        proof {
            lemma_reduce_exact(0x1_0000, r as int, -self);
        }
        r
    }
}

impl Numeric for i32 {
    open spec fn value(self) -> int {
        self as int
    }

    open spec fn modulus() -> int {
        0x1_0000_0000
    }

    proof fn lemma_value(self, other: i32) {
    }

    proof fn lemma_modulus() {
    }

    fn zero() -> (r: i32) {
        0
    }

    fn plus(self, rhs: i32) -> (r: i32) {
        let r = self.wrapping_add(rhs);
        proof {
            lemma_reduce_exact(0x1_0000_0000, r as int, self + rhs);
        }
        r
    }

    fn minus(self, rhs: i32) -> (r: i32) {
        let r = self.wrapping_sub(rhs);
        proof {
            lemma_reduce_exact(0x1_0000_0000, r as int, self - rhs);
        }
        r
    }

    fn times(self, rhs: i32) -> (r: i32) {
        let r = self.wrapping_mul(rhs);
        proof {
            vstd::arithmetic::div_mod::lemma_fundamental_div_mod(self * rhs, 0x1_0000_0000);
            lemma_reduce_exact(0x1_0000_0000, r as int, self * rhs);
        }
        r
    }

    fn quot(self, rhs: i32) -> (r: i32) {
        // only the minimum divided by -1 overflows, and it wraps to the minimum itself
        let r = match self.checked_div(rhs) {
            Some(q) => q,
            None => self,
        };
        proof {
            lemma_trunc_div_bounds(self as int, rhs as int);
            lemma_reduce_exact(0x1_0000_0000, r as int, trunc_div(self as int, rhs as int));
        }
        r
    }

    fn negate(self) -> (r: i32) {
        let r = if self == i32::MIN {
            self
        } else {
            -self
        };
        proof {
            lemma_reduce_exact(0x1_0000_0000, r as int, -self);
        }
        r
    }
}

impl Numeric for i64 {
    open spec fn value(self) -> int {
        self as int
    }

    open spec fn modulus() -> int {
        0x1_0000_0000_0000_0000
    }

    proof fn lemma_value(self, other: i64) {
    }

    proof fn lemma_modulus() {
    }

    fn zero() -> (r: i64) {
        0
    }

    fn plus(self, rhs: i64) -> (r: i64) {
        let r = self.wrapping_add(rhs);
        proof {
            lemma_reduce_exact(0x1_0000_0000_0000_0000, r as int, self + rhs);
        }
        r
    }

    fn minus(self, rhs: i64) -> (r: i64) {
        let r = self.wrapping_sub(rhs);
        proof {
            lemma_reduce_exact(0x1_0000_0000_0000_0000, r as int, self - rhs);
        }
        r
    }

    fn times(self, rhs: i64) -> (r: i64) {
        let r = self.wrapping_mul(rhs);
        proof {
            vstd::arithmetic::div_mod::lemma_fundamental_div_mod(self * rhs, 0x1_0000_0000_0000_0000);
            lemma_reduce_exact(0x1_0000_0000_0000_0000, r as int, self * rhs);
        }
        r
    }

    fn quot(self, rhs: i64) -> (r: i64) {
        // only the minimum divided by -1 overflows, and it wraps to the minimum itself
        let r = match self.checked_div(rhs) {
            Some(q) => q,
            None => self,
        };
        proof {
            lemma_trunc_div_bounds(self as int, rhs as int);
            lemma_reduce_exact(0x1_0000_0000_0000_0000, r as int, trunc_div(self as int, rhs as int));
        }
        r
    }

    fn negate(self) -> (r: i64) {
        let r = if self == i64::MIN {
            self
        } else {
            -self
        };
        proof {
            lemma_reduce_exact(0x1_0000_0000_0000_0000, r as int, -self);
        }
        r
    }
}

/// A value of the range of an `m`-valued type that differs from `v` by a multiple of `m`
/// is the reduction of `v`.
proof fn lemma_reduce_exact(m: int, r: int, v: int)
    requires
        m == 0x100 || m == 0x1_0000 || m == 0x1_0000_0000 || m == 0x1_0000_0000_0000_0000,
        -(m / 2) <= r < m / 2,
        r == v || r == v - m || r == v + m || (v - r) % m == 0,
    ensures
        r == reduce(v, m),
{
    lemma_reduce_small(r, m);
    if (v - r) % m == 0 {
        vstd::arithmetic::div_mod::lemma_fundamental_div_mod(v - r, m);
        lemma_reduce_shift(r, (v - r) / m, m);
    } else if r == v - m {
        lemma_reduce_shift(r, 1, m);
    } else if r == v + m {
        lemma_reduce_shift(r, -1, m);
    }
}

proof fn lemma_trunc_div_bounds(a: int, b: int)
    requires
        b != 0,
    ensures
        abs(trunc_div(a, b)) <= abs(a),
        b == -1 ==> trunc_div(a, b) == -a,
{
    vstd::arithmetic::div_mod::lemma_div_is_ordered_by_denominator(abs(a), 1, abs(b));
    vstd::arithmetic::div_mod::lemma_div_basics(abs(a));
}

} // verus!
