//! The arithmetic that the scene graph is built on.
//!
//! The library never computes with numbers itself. A caller hands it the
//! scalar type `S`, the matrix type `M` and the handful of operations on them
//! that the transformation of a scene needs; the library decides which
//! operation is applied to what, and in which order. Every contract of the
//! library is stated relative to what these operations promise.

use vstd::prelude::*;

verus! {

/// One of the three coordinate axes.
#[derive(Clone, Copy, Debug, PartialEq, Eq, Structural)]
pub enum Axis {
    X,
    Y,
    Z,
}

/// A vector of three scalars.
#[derive(Debug)]
pub struct Vec3<S> {
    pub x: S,
    pub y: S,
    pub z: S,
}

impl<S: Copy> Copy for Vec3<S> {

}

impl<S: Copy> Clone for Vec3<S> {
    fn clone(&self) -> (v: Self)
        ensures
            v == *self,
    {
        *self
    }
}

impl<S: Copy> Vec3<S> {
    /// The vector with the three given components.
    pub fn new(x: S, y: S, z: S) -> (v: Self)
        ensures
            v == (Vec3 { x, y, z }),
    {
        Vec3 { x, y, z }
    }

    /// The vector whose three components are all `s`.
    pub fn splat(s: S) -> (v: Self)
        ensures
            v == (Vec3 { x: s, y: s, z: s }),
    {
        Vec3 { x: s, y: s, z: s }
    }
}

/// The scalars 0 and 1 and the five operations that a scene graph needs:
///
/// * `negate`: the additive inverse of a scalar,
/// * `cosine` and `sine` of an angle in radians,
/// * `matrix`: the 4x4 matrix with the sixteen given entries, row by row,
/// * `product`: the product of two 4x4 matrices.
pub struct Arithmetic<S, Neg, Cos, Sin, Mat, Mul> {
    pub zero: S,
    pub one: S,
    pub negate: Neg,
    pub cosine: Cos,
    pub sine: Sin,
    pub matrix: Mat,
    pub product: Mul,
}

impl<S, M, Neg, Cos, Sin, Mat, Mul> Arithmetic<S, Neg, Cos, Sin, Mat, Mul> where
    S: Copy,
    Neg: Fn(S) -> S,
    Cos: Fn(S) -> S,
    Sin: Fn(S) -> S,
    Mat: Fn([S; 16]) -> M,
    Mul: Fn(&M, &M) -> M,
 {
    /// Every operation accepts every argument.
    pub open spec fn total(self) -> bool {
        &&& forall|s: S| call_requires(self.negate, (s,))
        &&& forall|s: S| call_requires(self.cosine, (s,))
        &&& forall|s: S| call_requires(self.sine, (s,))
        &&& forall|e: [S; 16]| call_requires(self.matrix, (e,))
        &&& forall|a: &M, b: &M| call_requires(self.product, (a, b))
    }

    /// `r` is a result of negating `s`.
    pub open spec fn is_negation(self, s: S, r: S) -> bool {
        call_ensures(self.negate, (s,), r)
    }

    /// `r` is a result of taking the cosine of `angle`.
    pub open spec fn is_cosine(self, angle: S, r: S) -> bool {
        call_ensures(self.cosine, (angle,), r)
    }

    /// `r` is a result of taking the sine of `angle`.
    pub open spec fn is_sine(self, angle: S, r: S) -> bool {
        call_ensures(self.sine, (angle,), r)
    }

    /// `m` is a result of building the matrix with the given sixteen entries.
    pub open spec fn is_matrix(self, entries: Seq<S>, m: M) -> bool {
        exists|e: [S; 16]| e@ == entries && call_ensures(self.matrix, (e,), m)
    }

    /// `r` is a result of multiplying `a` by `b`, in this order.
    pub open spec fn is_product(self, a: M, b: M, r: M) -> bool {
        call_ensures(self.product, (&a, &b), r)
    }

    /// Bundles the two scalars and the five operations.
    pub fn new(
        zero: S,
        one: S,
        negate: Neg,
        cosine: Cos,
        sine: Sin,
        matrix: Mat,
        product: Mul,
    ) -> (arithmetic: Self)
        ensures
            arithmetic == (Arithmetic { zero, one, negate, cosine, sine, matrix, product }),
    {
        Arithmetic { zero, one, negate, cosine, sine, matrix, product }
    }

    /// The product of `a` and `b`, in this order.
    pub fn multiply(&self, a: &M, b: &M) -> (r: M)
        requires
            self.total(),
        ensures
            self.is_product(*a, *b, r),
    {
        (self.product)(a, b)
    }
}

} // verus!
