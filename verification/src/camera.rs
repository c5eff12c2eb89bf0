//! The camera: where the viewer stands and how the view is turned.

use crate::arithmetic::{Arithmetic, Axis, Vec3};
use vstd::prelude::*;

verus! {

/// The pose of the viewer: the scene is moved by `position`, then turned
/// about the Y axis by `yaw` and about the X axis by `pitch`.
pub struct Camera<S> {
    pub position: Vec3<S>,
    pub pitch: S,
    pub yaw: S,
}

impl<S, M, Neg, Cos, Sin, Mat, Mul> Arithmetic<S, Neg, Cos, Sin, Mat, Mul> where
    S: Copy,
    Neg: Fn(S) -> S,
    Cos: Fn(S) -> S,
    Sin: Fn(S) -> S,
    Mat: Fn([S; 16]) -> M,
    Mul: Fn(&M, &M) -> M,
 {
    /// `view_projection` is the product `P · Rx · Ry · T`, multiplied from
    /// the left to the right with `pitched` and `turned` in between, where `P`
    /// is `perspective` and `rotation_x`, `rotation_y` and `translation` are
    /// the matrices of `camera`.
    pub open spec fn is_view_projection_through(
        self,
        perspective: M,
        camera: Camera<S>,
        rotation_x: M,
        rotation_y: M,
        translation: M,
        pitched: M,
        turned: M,
        view_projection: M,
    ) -> bool {
        &&& self.is_rotation(Axis::X, camera.pitch, rotation_x)
        &&& self.is_rotation(Axis::Y, camera.yaw, rotation_y)
        &&& self.is_translation(camera.position, translation)
        &&& self.is_product(perspective, rotation_x, pitched)
        &&& self.is_product(pitched, rotation_y, turned)
        &&& self.is_product(turned, translation, view_projection)
    }

    /// `view_projection` is the product `P · Rx · Ry · T` of `perspective`,
    /// the rotation about the X axis by the pitch of `camera`, the rotation
    /// about the Y axis by its yaw and the translation by its position,
    /// multiplied from the left to the right.
    pub open spec fn is_view_projection(
        self,
        perspective: M,
        camera: Camera<S>,
        view_projection: M,
    ) -> bool {
        exists|rotation_x: M, rotation_y: M, translation: M, pitched: M, turned: M|
            self.is_view_projection_through(
                perspective,
                camera,
                rotation_x,
                rotation_y,
                translation,
                pitched,
                turned,
                view_projection,
            )
    }

    /// The transformation from world space to clip space for `camera` under
    /// the projection `perspective`.
    pub fn view_projection(&self, perspective: &M, camera: &Camera<S>) -> (view_projection: M)
        requires
            self.total(),
        ensures
            self.is_view_projection(*perspective, *camera, view_projection),
    {
        let translation = self.translation(&camera.position);
        let rotation_x = self.rotation(Axis::X, camera.pitch);
        let rotation_y = self.rotation(Axis::Y, camera.yaw);
        let pitched = self.multiply(perspective, &rotation_x);
        let turned = self.multiply(&pitched, &rotation_y);
        let view_projection = self.multiply(&turned, &translation);
        assert(self.is_view_projection_through(
            *perspective,
            *camera,
            rotation_x,
            rotation_y,
            translation,
            pitched,
            turned,
            view_projection,
        ));
        view_projection
    }
}

} // verus!
