//! The elementary matrices of a node and the local transformation that they
//! compose to.
//!
//! A node is placed by a translation `T`, and turned about a pivot by
//! moving the pivot to the origin (`O`), rotating about the X, the Y and the
//! Z axis, and moving the pivot back (`O⁻¹`). Its local transformation is the
//! product `T · O⁻¹ · Rx · Ry · Rz · O`, multiplied from the left to the right.

use crate::arithmetic::{Arithmetic, Axis, Vec3};
use vstd::prelude::*;

verus! {

/// The entries of the identity matrix, row by row.
pub open spec fn identity_entries<S>(zero: S, one: S) -> Seq<S> {
    seq![
        one, zero, zero, zero,
        zero, one, zero, zero,
        zero, zero, one, zero,
        zero, zero, zero, one,
    ]
}

/// The entries, row by row, of the matrix that translates by `(x, y, z)`: the
/// identity with the vector in its last column.
pub open spec fn translation_entries<S>(zero: S, one: S, x: S, y: S, z: S) -> Seq<S> {
    seq![
        one, zero, zero, x,
        zero, one, zero, y,
        zero, zero, one, z,
        zero, zero, zero, one,
    ]
}

/// The entries, row by row, of the right-handed rotation about `axis` by an
/// angle whose cosine is `cos`, whose sine is `sin` and whose negated sine is
/// `neg_sin`.
pub open spec fn rotation_entries<S>(
    axis: Axis,
    zero: S,
    one: S,
    cos: S,
    sin: S,
    neg_sin: S,
) -> Seq<S> {
    match axis {
        Axis::X => seq![
            one, zero, zero, zero,
            zero, cos, neg_sin, zero,
            zero, sin, cos, zero,
            zero, zero, zero, one,
        ],
        Axis::Y => seq![
            cos, zero, sin, zero,
            zero, one, zero, zero,
            neg_sin, zero, cos, zero,
            zero, zero, zero, one,
        ],
        Axis::Z => seq![
            cos, neg_sin, zero, zero,
            sin, cos, zero, zero,
            zero, zero, one, zero,
            zero, zero, zero, one,
        ],
    }
}

/// The six elementary matrices of a node, in the order in which they are
/// multiplied.
pub struct LocalFactors<M> {
    /// `T`: translates by the node's position.
    pub translation: M,
    /// `O⁻¹`: translates by the node's reference point.
    pub pivot_back: M,
    /// `Rx`: rotates about the X axis.
    pub rotation_x: M,
    /// `Ry`: rotates about the Y axis.
    pub rotation_y: M,
    /// `Rz`: rotates about the Z axis.
    pub rotation_z: M,
    /// `O`: translates by the negated reference point.
    pub pivot_to_origin: M,
}

impl<S, M, Neg, Cos, Sin, Mat, Mul> Arithmetic<S, Neg, Cos, Sin, Mat, Mul> where
    S: Copy,
    Neg: Fn(S) -> S,
    Cos: Fn(S) -> S,
    Sin: Fn(S) -> S,
    Mat: Fn([S; 16]) -> M,
    Mul: Fn(&M, &M) -> M,
 {
    /// `m` is an identity matrix: built from the entries of the identity.
    pub open spec fn is_identity(self, m: M) -> bool {
        self.is_matrix(identity_entries(self.zero, self.one), m)
    }

    /// `m` translates by `v`.
    pub open spec fn is_translation(self, v: Vec3<S>, m: M) -> bool {
        self.is_matrix(translation_entries(self.zero, self.one, v.x, v.y, v.z), m)
    }

    /// `m` translates by a vector whose components are the negated
    /// components of `v`.
    pub open spec fn is_inverse_translation(self, v: Vec3<S>, m: M) -> bool {
        exists|w: Vec3<S>|
            self.is_negation(v.x, w.x) && self.is_negation(v.y, w.y) && self.is_negation(
                v.z,
                w.z,
            ) && #[trigger] self.is_translation(w, m)
    }

    /// `m` is built from `cos`, `sin` and `neg_sin` as the rotation about
    /// `axis`, where these three belong to `angle`.
    pub open spec fn is_rotation_from(
        self,
        axis: Axis,
        angle: S,
        cos: S,
        sin: S,
        neg_sin: S,
        m: M,
    ) -> bool {
        &&& self.is_cosine(angle, cos)
        &&& self.is_sine(angle, sin)
        &&& self.is_negation(sin, neg_sin)
        &&& self.is_matrix(rotation_entries(axis, self.zero, self.one, cos, sin, neg_sin), m)
    }

    /// `m` rotates about `axis` by `angle`.
    pub open spec fn is_rotation(self, axis: Axis, angle: S, m: M) -> bool {
        exists|cos: S, sin: S, neg_sin: S|
            self.is_rotation_from(axis, angle, cos, sin, neg_sin, m)
    }

    /// `f` holds the six elementary matrices of a node with the given
    /// position, rotation and reference point.
    pub open spec fn are_local_factors(
        self,
        position: Vec3<S>,
        rotation: Vec3<S>,
        reference_point: Vec3<S>,
        f: LocalFactors<M>,
    ) -> bool {
        &&& self.is_translation(position, f.translation)
        &&& self.is_translation(reference_point, f.pivot_back)
        &&& self.is_rotation(Axis::X, rotation.x, f.rotation_x)
        &&& self.is_rotation(Axis::Y, rotation.y, f.rotation_y)
        &&& self.is_rotation(Axis::Z, rotation.z, f.rotation_z)
        &&& self.is_inverse_translation(reference_point, f.pivot_to_origin)
    }

    /// `l` is the product of the six matrices of `f`, taken from the left to
    /// the right, with `placed`, `turned_x`, `turned_y` and `turned_z` as the
    /// products in between.
    pub open spec fn is_composition_through(
        self,
        f: LocalFactors<M>,
        placed: M,
        turned_x: M,
        turned_y: M,
        turned_z: M,
        l: M,
    ) -> bool {
        &&& self.is_product(f.translation, f.pivot_back, placed)
        &&& self.is_product(placed, f.rotation_x, turned_x)
        &&& self.is_product(turned_x, f.rotation_y, turned_y)
        &&& self.is_product(turned_y, f.rotation_z, turned_z)
        &&& self.is_product(turned_z, f.pivot_to_origin, l)
    }

    /// `l` is the product `T · O⁻¹ · Rx · Ry · Rz · O` of the matrices of `f`,
    /// multiplied from the left to the right.
    pub open spec fn is_composition(self, f: LocalFactors<M>, l: M) -> bool {
        exists|placed: M, turned_x: M, turned_y: M, turned_z: M|
            self.is_composition_through(f, placed, turned_x, turned_y, turned_z, l)
    }

    /// `l` is a local transformation of a node with the given position,
    /// rotation and reference point.
    pub open spec fn is_local_transform(
        self,
        position: Vec3<S>,
        rotation: Vec3<S>,
        reference_point: Vec3<S>,
        l: M,
    ) -> bool {
        exists|f: LocalFactors<M>|
            #[trigger] self.are_local_factors(position, rotation, reference_point, f)
                && self.is_composition(f, l)
    }

    /// Zero and `identity` are neutral: the negation and the sine of zero
    /// are zero, its cosine is one, the matrix with the entries of the
    /// identity is `identity`, and a product with `identity` is the other
    /// factor.
    pub open spec fn has_neutral_elements(self, identity: M) -> bool {
        &&& forall|r: S| self.is_negation(self.zero, r) ==> r == self.zero
        &&& forall|r: S| self.is_cosine(self.zero, r) ==> r == self.one
        &&& forall|r: S| self.is_sine(self.zero, r) ==> r == self.zero
        &&& forall|m: M| self.is_identity(m) ==> m == identity
        &&& forall|a: M, r: M| self.is_product(a, identity, r) ==> r == a
        &&& forall|a: M, r: M| self.is_product(identity, a, r) ==> r == a
    }

    /// Where zero and `identity` are neutral, a rotation by the angle zero is
    /// `identity`.
    pub proof fn lemma_rotation_by_zero(self, identity: M, axis: Axis, m: M)
        requires
            self.has_neutral_elements(identity),
            self.is_rotation(axis, self.zero, m),
        ensures
            m == identity,
    {
        let (cos, sin, neg_sin) = choose|cos: S, sin: S, neg_sin: S|
            self.is_rotation_from(axis, self.zero, cos, sin, neg_sin, m);
        assert(self.is_rotation_from(axis, self.zero, cos, sin, neg_sin, m));
        assert(cos == self.one && sin == self.zero && neg_sin == self.zero);
        assert(rotation_entries(axis, self.zero, self.one, cos, sin, neg_sin) =~= identity_entries(
            self.zero,
            self.one,
        ));
        assert(self.is_identity(m));
    }

    /// Where zero and `identity` are neutral, a translation by the zero
    /// vector, and by its inverse, is `identity`.
    pub proof fn lemma_translation_by_zero(self, identity: M, m: M)
        requires
            self.has_neutral_elements(identity),
            self.is_translation(Vec3 { x: self.zero, y: self.zero, z: self.zero }, m)
                || self.is_inverse_translation(
                Vec3 { x: self.zero, y: self.zero, z: self.zero },
                m,
            ),
        ensures
            m == identity,
    {
        let origin = Vec3 { x: self.zero, y: self.zero, z: self.zero };
        assert(translation_entries(self.zero, self.one, self.zero, self.zero, self.zero)
            =~= identity_entries(self.zero, self.one));
        if !self.is_translation(origin, m) {
            let w = choose|w: Vec3<S>|
                self.is_negation(origin.x, w.x) && self.is_negation(origin.y, w.y)
                    && self.is_negation(origin.z, w.z) && #[trigger] self.is_translation(w, m);
            assert(w == origin);
        }
        assert(self.is_identity(m));
    }

    /// Where zero and `identity` are neutral, the local transformation of a
    /// node that is not rotated and has its reference point at the origin is
    /// the translation by its position.
    pub proof fn lemma_plain_local_transform_is_translation(
        self,
        identity: M,
        position: Vec3<S>,
        l: M,
    )
        requires
            self.has_neutral_elements(identity),
            self.is_local_transform(
                position,
                Vec3 { x: self.zero, y: self.zero, z: self.zero },
                Vec3 { x: self.zero, y: self.zero, z: self.zero },
                l,
            ),
        ensures
            self.is_translation(position, l),
    {
        let origin = Vec3 { x: self.zero, y: self.zero, z: self.zero };
        let f = choose|f: LocalFactors<M>|
            #[trigger] self.are_local_factors(position, origin, origin, f) && self.is_composition(
                f,
                l,
            );
        let (placed, turned_x, turned_y, turned_z) = choose|
            placed: M,
            turned_x: M,
            turned_y: M,
            turned_z: M,
        | self.is_composition_through(f, placed, turned_x, turned_y, turned_z, l);
        assert(self.is_composition_through(f, placed, turned_x, turned_y, turned_z, l));
        self.lemma_translation_by_zero(identity, f.pivot_back);
        self.lemma_rotation_by_zero(identity, Axis::X, f.rotation_x);
        self.lemma_rotation_by_zero(identity, Axis::Y, f.rotation_y);
        self.lemma_rotation_by_zero(identity, Axis::Z, f.rotation_z);
        self.lemma_translation_by_zero(identity, f.pivot_to_origin);
        assert(placed == f.translation);
        assert(turned_x == placed);
        assert(turned_y == turned_x);
        assert(turned_z == turned_y);
        assert(l == turned_z);
    }

    /// The identity matrix.
    pub fn identity(&self) -> (m: M)
        requires
            self.total(),
        ensures
            self.is_identity(m),
    {
        let o = self.zero;
        let i = self.one;
        let e: [S; 16] = [i, o, o, o, o, i, o, o, o, o, i, o, o, o, o, i];
        assert(e@ =~= identity_entries(self.zero, self.one));
        (self.matrix)(e)
    }

    /// The matrix that translates by `v`.
    pub fn translation(&self, v: &Vec3<S>) -> (m: M)
        requires
            self.total(),
        ensures
            self.is_translation(*v, m),
    {
        let o = self.zero;
        let i = self.one;
        let e: [S; 16] = [i, o, o, v.x, o, i, o, v.y, o, o, i, v.z, o, o, o, i];
        assert(e@ =~= translation_entries(self.zero, self.one, v.x, v.y, v.z));
        (self.matrix)(e)
    }

    /// The matrix that translates by the negated `v`.
    pub fn inverse_translation(&self, v: &Vec3<S>) -> (m: M)
        requires
            self.total(),
        ensures
            self.is_inverse_translation(*v, m),
    {
        let w = Vec3 { x: (self.negate)(v.x), y: (self.negate)(v.y), z: (self.negate)(v.z) };
        let m = self.translation(&w);
        assert(self.is_translation(w, m));
        m
    }

    /// The matrix that rotates about `axis` by `angle`, right-handed.
    pub fn rotation(&self, axis: Axis, angle: S) -> (m: M)
        requires
            self.total(),
        ensures
            self.is_rotation(axis, angle, m),
    {
        let c = (self.cosine)(angle);
        let s = (self.sine)(angle);
        let n = (self.negate)(s);
        let o = self.zero;
        let i = self.one;
        let e: [S; 16] = match axis {
            Axis::X => [i, o, o, o, o, c, n, o, o, s, c, o, o, o, o, i],
            Axis::Y => [c, o, s, o, o, i, o, o, n, o, c, o, o, o, o, i],
            Axis::Z => [c, n, o, o, s, c, o, o, o, o, i, o, o, o, o, i],
        };
        assert(e@ =~= rotation_entries(axis, self.zero, self.one, c, s, n));
        let m = (self.matrix)(e);
        assert(self.is_rotation_from(axis, angle, c, s, n, m));
        m
    }

    /// The six elementary matrices of a node with the given position,
    /// rotation and reference point.
    pub fn local_factors(
        &self,
        position: &Vec3<S>,
        rotation: &Vec3<S>,
        reference_point: &Vec3<S>,
    ) -> (f: LocalFactors<M>)
        requires
            self.total(),
        ensures
            self.are_local_factors(*position, *rotation, *reference_point, f),
    {
        let pivot_back = self.translation(reference_point);
        let rotation_x = self.rotation(Axis::X, rotation.x);
        let rotation_y = self.rotation(Axis::Y, rotation.y);
        let rotation_z = self.rotation(Axis::Z, rotation.z);
        let pivot_to_origin = self.inverse_translation(reference_point);
        let translation = self.translation(position);
        LocalFactors {
            translation,
            pivot_back,
            rotation_x,
            rotation_y,
            rotation_z,
            pivot_to_origin,
        }
    }

    /// The product `T · O⁻¹ · Rx · Ry · Rz · O` of the six matrices of `f`,
    /// multiplied from the left to the right.
    pub fn compose(&self, f: &LocalFactors<M>) -> (l: M)
        requires
            self.total(),
        ensures
            self.is_composition(*f, l),
    {
        let placed = self.multiply(&f.translation, &f.pivot_back);
        let turned_x = self.multiply(&placed, &f.rotation_x);
        let turned_y = self.multiply(&turned_x, &f.rotation_y);
        let turned_z = self.multiply(&turned_y, &f.rotation_z);
        let l = self.multiply(&turned_z, &f.pivot_to_origin);
        assert(self.is_composition_through(*f, placed, turned_x, turned_y, turned_z, l));
        l
    }

    /// The local transformation of a node with the given position, rotation
    /// and reference point.
    pub fn local_transform(
        &self,
        position: &Vec3<S>,
        rotation: &Vec3<S>,
        reference_point: &Vec3<S>,
    ) -> (l: M)
        requires
            self.total(),
        ensures
            self.is_local_transform(*position, *rotation, *reference_point, l),
    {
        let f = self.local_factors(position, rotation, reference_point);
        self.compose(&f)
    }
}

} // verus!
