//! Building vectors and matrices from a list of scalars and shorter vectors.
//!
//! Starting from `EmptyConverter`, each `convert` appends the next argument
//! (a scalar or a vector) to what has been gathered so far, and `finalize`
//! turns the result into the requested type: itself, a single scalar
//! broadcast to every entry, or a longer vector cut to its first entries.
use crate::matrix::{M2, M3, M4};
use crate::numeric::Numeric;
use crate::vector::{V2, V3, V4};
use vstd::prelude::*;

verus! {

/// A single gathered scalar.
pub struct V1<T>(pub T);

/// Nothing gathered yet.
pub struct EmptyConverter;

impl<T: Numeric> View for V1<T> {
    type V = Seq<int>;

    open spec fn view(&self) -> Seq<int> {
        seq![self.0.value()]
    }
}

/// Appending one more argument of type `F`, giving a `T`.
pub trait Converter<F, T> {
    fn convert(self, f: F) -> T;
}

/// Turning what has been gathered into a `T`.
pub trait Finalizer<T> {
    fn finalize(self) -> T;
}

impl<F: Numeric> Converter<F, V1<F>> for EmptyConverter {
    fn convert(self, f: F) -> (r: V1<F>)
        ensures
            r@ == seq![f.value()],
    {
        V1(f)
    }
}

impl<F: Numeric> Converter<V2<F>, V2<F>> for EmptyConverter {
    fn convert(self, f: V2<F>) -> (r: V2<F>)
        ensures
            r == f,
    {
        f
    }
}

impl<F: Numeric> Converter<V3<F>, V3<F>> for EmptyConverter {
    fn convert(self, f: V3<F>) -> (r: V3<F>)
        ensures
            r == f,
    {
        f
    }
}

impl<F: Numeric> Converter<V4<F>, V4<F>> for EmptyConverter {
    fn convert(self, f: V4<F>) -> (r: V4<F>)
        ensures
            r == f,
    {
        f
    }
}

impl<F: Numeric> Converter<M2<F>, M2<F>> for EmptyConverter {
    fn convert(self, f: M2<F>) -> (r: M2<F>)
        ensures
            r == f,
    {
        f
    }
}

impl<F: Numeric> Converter<M3<F>, M3<F>> for EmptyConverter {
    fn convert(self, f: M3<F>) -> (r: M3<F>)
        ensures
            r == f,
    {
        f
    }
}

impl<F: Numeric> Converter<M4<F>, M4<F>> for EmptyConverter {
    fn convert(self, f: M4<F>) -> (r: M4<F>)
        ensures
            r == f,
    {
        f
    }
}

impl<F: Numeric> Converter<F, V2<F>> for V1<F> {
    fn convert(self, f: F) -> (r: V2<F>)
        ensures
            r@ == self@.push(f.value()),
    {
        let r = V2([self.0, f]);
        assert(r@ =~= self@.push(f.value()));
        r
    }
}

impl<F: Numeric> Converter<V2<F>, V3<F>> for V1<F> {
    fn convert(self, f: V2<F>) -> (r: V3<F>)
        ensures
            r@ == self@ + f@,
    {
        let r = V3([self.0, f.0[0], f.0[1]]);
        assert(r@ =~= self@ + f@);
        r
    }
}

impl<F: Numeric> Converter<V3<F>, V4<F>> for V1<F> {
    fn convert(self, f: V3<F>) -> (r: V4<F>)
        ensures
            r@ == self@ + f@,
    {
        let r = V4([self.0, f.0[0], f.0[1], f.0[2]]);
        assert(r@ =~= self@ + f@);
        r
    }
}

impl<F: Numeric> Converter<F, V3<F>> for V2<F> {
    fn convert(self, f: F) -> (r: V3<F>)
        ensures
            r@ == self@.push(f.value()),
    {
        let r = V3([self.0[0], self.0[1], f]);
        assert(r@ =~= self@.push(f.value()));
        r
    }
}

impl<F: Numeric> Converter<V2<F>, V4<F>> for V2<F> {
    fn convert(self, f: V2<F>) -> (r: V4<F>)
        ensures
            r@ == self@ + f@,
    {
        let r = V4([self.0[0], self.0[1], f.0[0], f.0[1]]);
        assert(r@ =~= self@ + f@);
        r
    }
}

impl<F: Numeric> Converter<F, V4<F>> for V3<F> {
    fn convert(self, f: F) -> (r: V4<F>)
        ensures
            r@ == self@.push(f.value()),
    {
        let r = V4([self.0[0], self.0[1], self.0[2], f]);
        assert(r@ =~= self@.push(f.value()));
        r
    }
}

impl<T> Finalizer<V2<T>> for V2<T> {
    fn finalize(self) -> (r: V2<T>)
        ensures
            r == self,
    {
        self
    }
}

impl<T> Finalizer<V3<T>> for V3<T> {
    fn finalize(self) -> (r: V3<T>)
        ensures
            r == self,
    {
        self
    }
}

impl<T> Finalizer<V4<T>> for V4<T> {
    fn finalize(self) -> (r: V4<T>)
        ensures
            r == self,
    {
        self
    }
}

impl<T> Finalizer<M2<T>> for M2<T> {
    fn finalize(self) -> (r: M2<T>)
        ensures
            r == self,
    {
        self
    }
}

impl<T> Finalizer<M3<T>> for M3<T> {
    fn finalize(self) -> (r: M3<T>)
        ensures
            r == self,
    {
        self
    }
}

impl<T> Finalizer<M4<T>> for M4<T> {
    fn finalize(self) -> (r: M4<T>)
        ensures
            r == self,
    {
        self
    }
}

impl<T: Numeric> Finalizer<V2<T>> for V1<T> {
    /// The scalar in every entry.
    fn finalize(self) -> (r: V2<T>)
        ensures
            <V2<T> as View>::view(&r) == Seq::new(2, |i: int| self.0.value()),
    {
        let r = V2([self.0; 2]);
        assert(r@ =~= Seq::new(2, |i: int| self.0.value()));
        r
    }
}

impl<T: Numeric> Finalizer<V3<T>> for V1<T> {
    /// The scalar in every entry.
    fn finalize(self) -> (r: V3<T>)
        ensures
            <V3<T> as View>::view(&r) == Seq::new(3, |i: int| self.0.value()),
    {
        let r = V3([self.0; 3]);
        assert(r@ =~= Seq::new(3, |i: int| self.0.value()));
        r
    }
}

impl<T: Numeric> Finalizer<V4<T>> for V1<T> {
    /// The scalar in every entry.
    fn finalize(self) -> (r: V4<T>)
        ensures
            <V4<T> as View>::view(&r) == Seq::new(4, |i: int| self.0.value()),
    {
        let r = V4([self.0; 4]);
        assert(r@ =~= Seq::new(4, |i: int| self.0.value()));
        r
    }
}

impl<T: Numeric> Finalizer<M2<T>> for V1<T> {
    /// The scalar in every entry.
    fn finalize(self) -> (r: M2<T>)
        ensures
            <M2<T> as View>::view(&r) == Seq::new(2, |i: int| Seq::new(2, |j: int| self.0.value())),
    {
        let r = M2([[self.0; 2], [self.0; 2]]);
        assert(r@[0] =~= Seq::new(2, |j: int| self.0.value()));
        assert(r@[1] =~= Seq::new(2, |j: int| self.0.value()));
        assert(r@ =~= Seq::new(2, |i: int| Seq::new(2, |j: int| self.0.value())));
        r
    }
}

impl<T: Numeric> Finalizer<M3<T>> for V1<T> {
    /// The scalar in every entry.
    fn finalize(self) -> (r: M3<T>)
        ensures
            <M3<T> as View>::view(&r) == Seq::new(3, |i: int| Seq::new(3, |j: int| self.0.value())),
    {
        let r = M3([[self.0; 3], [self.0; 3], [self.0; 3]]);
        assert(r@[0] =~= Seq::new(3, |j: int| self.0.value()));
        assert(r@[1] =~= Seq::new(3, |j: int| self.0.value()));
        assert(r@[2] =~= Seq::new(3, |j: int| self.0.value()));
        assert(r@ =~= Seq::new(3, |i: int| Seq::new(3, |j: int| self.0.value())));
        r
    }
}

impl<T: Numeric> Finalizer<M4<T>> for V1<T> {
    /// The scalar in every entry.
    fn finalize(self) -> (r: M4<T>)
        ensures
            <M4<T> as View>::view(&r) == Seq::new(4, |i: int| Seq::new(4, |j: int| self.0.value())),
    {
        let r = M4([[self.0; 4], [self.0; 4], [self.0; 4], [self.0; 4]]);
        assert(r@[0] =~= Seq::new(4, |j: int| self.0.value()));
        assert(r@[1] =~= Seq::new(4, |j: int| self.0.value()));
        assert(r@[2] =~= Seq::new(4, |j: int| self.0.value()));
        assert(r@[3] =~= Seq::new(4, |j: int| self.0.value()));
        assert(r@ =~= Seq::new(4, |i: int| Seq::new(4, |j: int| self.0.value())));
        r
    }
}

impl<T: Numeric> Finalizer<V2<T>> for V3<T> {
    /// The first two entries.
    fn finalize(self) -> (r: V2<T>)
        ensures
            <V2<T> as View>::view(&r) == self@.take(2),
    {
        let r = V2([self.0[0], self.0[1]]);
        assert(r@ =~= self@.take(2));
        r
    }
}

impl<T: Numeric> Finalizer<V2<T>> for V4<T> {
    /// The first two entries.
    fn finalize(self) -> (r: V2<T>)
        ensures
            <V2<T> as View>::view(&r) == self@.take(2),
    {
        let r = V2([self.0[0], self.0[1]]);
        assert(r@ =~= self@.take(2));
        r
    }
}

impl<T: Numeric> Finalizer<V3<T>> for V4<T> {
    /// The first three entries.
    fn finalize(self) -> (r: V3<T>)
        ensures
            <V3<T> as View>::view(&r) == self@.take(3),
    {
        let r = V3([self.0[0], self.0[1], self.0[2]]);
        assert(r@ =~= self@.take(3));
        r
    }
}

} // verus!
