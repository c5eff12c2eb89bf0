//! The nodes of a scene: a tree in which every parent owns its children.

use crate::arithmetic::{Arithmetic, Vec3};
use vstd::prelude::*;

verus! {

/// A node of the scene tree.
///
/// `position`, `rotation` (three angles in radians, about the X, the Y and the
/// Z axis) and `reference_point` (the pivot of the rotation) place the node
/// relative to its parent. `vao_id` and `index_count` name a mesh that was
/// uploaded before; a node is drawn if and only if `index_count` is positive.
/// `current_transformation_matrix` is derived: the update pass writes it and
/// the draw pass reads it.
pub struct SceneNode<S, M> {
    pub position: Vec3<S>,
    pub rotation: Vec3<S>,
    pub reference_point: Vec3<S>,
    pub current_transformation_matrix: M,
    pub vao_id: u32,
    pub index_count: i32,
    pub children: Vec<SceneNode<S, M>>,
}

impl<S: Copy, M> SceneNode<S, M> {
    /// The node has a mesh to draw.
    pub open spec fn drawable(self) -> bool {
        self.index_count > 0
    }

    /// The node rests at the origin, unrotated, with its pivot at the
    /// origin, and has no children.
    pub open spec fn is_fresh(self, zero: S) -> bool {
        &&& self.position == (Vec3 { x: zero, y: zero, z: zero })
        &&& self.rotation == (Vec3 { x: zero, y: zero, z: zero })
        &&& self.reference_point == (Vec3 { x: zero, y: zero, z: zero })
        &&& self.children@ == Seq::<SceneNode<S, M>>::empty()
    }

    /// The nodes of the tree below and including `self`, depth first, every
    /// parent before its children, the children in their order.
    pub open spec fn preorder(self) -> Seq<SceneNode<S, M>>
        decreases self, self.children@.len() + 1,
    {
        seq![self] + self.preorder_of_children(self.children@.len())
    }

    /// The nodes of the trees below the first `n` children of `self`, one
    /// tree after the other, each as `preorder` gives it.
    pub open spec fn preorder_of_children(self, n: nat) -> Seq<SceneNode<S, M>>
        decreases self, n,
    {
        if n == 0 || n > self.children@.len() {
            Seq::empty()
        } else {
            self.preorder_of_children((n - 1) as nat) + self.children@[n - 1].preorder()
        }
    }

    /// `path` leads from `self` down the tree: its first index names a child
    /// of `self`, the next a child of that child, and so on.
    pub open spec fn has_path(self, path: Seq<int>) -> bool
        decreases path.len(),
    {
        path.len() == 0 || (0 <= path[0] < self.children@.len() && self.children@[path[0]].has_path(
            path.drop_first(),
        ))
    }

    /// The node that `path` leads to from `self`.
    pub open spec fn descendant(self, path: Seq<int>) -> SceneNode<S, M>
        recommends
            self.has_path(path),
        decreases path.len(),
    {
        if path.len() == 0 {
            self
        } else {
            self.children@[path[0]].descendant(path.drop_first())
        }
    }

    /// A node without a mesh and without children, at the origin, unrotated,
    /// with the identity as its transformation.
    pub fn new<Neg, Cos, Sin, Mat, Mul>(
        arithmetic: &Arithmetic<S, Neg, Cos, Sin, Mat, Mul>,
    ) -> (node: Self) where
        Neg: Fn(S) -> S,
        Cos: Fn(S) -> S,
        Sin: Fn(S) -> S,
        Mat: Fn([S; 16]) -> M,
        Mul: Fn(&M, &M) -> M,

        requires
            arithmetic.total(),
        ensures
            node.is_fresh(arithmetic.zero),
            arithmetic.is_identity(node.current_transformation_matrix),
            node.vao_id == 0,
            node.index_count == 0,
            !node.drawable(),
    {
        Self::from_mesh(0, 0, arithmetic)
    }

    /// A node that draws the mesh `vao_id` with `index_count` indices; else
    /// as `new` makes it.
    pub fn from_mesh<Neg, Cos, Sin, Mat, Mul>(
        vao_id: u32,
        index_count: i32,
        arithmetic: &Arithmetic<S, Neg, Cos, Sin, Mat, Mul>,
    ) -> (node: Self) where
        Neg: Fn(S) -> S,
        Cos: Fn(S) -> S,
        Sin: Fn(S) -> S,
        Mat: Fn([S; 16]) -> M,
        Mul: Fn(&M, &M) -> M,

        requires
            arithmetic.total(),
        ensures
            node.is_fresh(arithmetic.zero),
            arithmetic.is_identity(node.current_transformation_matrix),
            node.vao_id == vao_id,
            node.index_count == index_count,
            node.drawable() <==> index_count > 0,
    {
        let origin = Vec3::splat(arithmetic.zero);
        SceneNode {
            position: origin,
            rotation: origin,
            reference_point: origin,
            current_transformation_matrix: arithmetic.identity(),
            vao_id,
            index_count,
            children: Vec::new(),
        }
    }

    /// Appends `child`, with all that is below it, as the last child.
    pub fn add_child(&mut self, child: SceneNode<S, M>)
        ensures
            final(self).children@ == old(self).children@.push(child),
            final(self).position == old(self).position,
            final(self).rotation == old(self).rotation,
            final(self).reference_point == old(self).reference_point,
            final(self).current_transformation_matrix == old(
                self,
            ).current_transformation_matrix,
            final(self).vao_id == old(self).vao_id,
            final(self).index_count == old(self).index_count,
    {
        self.children.push(child);
    }

    /// The number of children.
    pub fn get_n_children(&self) -> (n: usize)
        ensures
            n == self.children@.len(),
    {
        self.children.len()
    }

    /// Whether the node has a mesh to draw.
    pub fn is_drawable(&self) -> (d: bool)
        ensures
            d == self.drawable(),
    {
        self.index_count > 0
    }
}

} // verus!
