//! The update pass: from the poses of the nodes to their transformations in
//! world space.
//!
//! The pass walks the tree depth first. A node's transformation is the
//! transformation of its parent multiplied by the node's local
//! transformation; the root takes the place of its parent's from the caller.

use crate::arithmetic::{Arithmetic, Vec3};
use crate::node::SceneNode;
use vstd::prelude::*;

verus! {

impl<S: Copy, M> SceneNode<S, M> {
    /// `after` is `self` with the transformations of all its nodes brought
    /// up to date, where `world_transforms(p, n, w)` says that `w` is a
    /// transformation of the node `n` below a parent with the transformation
    /// `p`, and `parent` is the transformation of the parent of `self`:
    /// nothing but the transformations differs, that of `after` is one of
    /// `self` below `parent`, and each child is up to date below `after`.
    pub open spec fn is_updated_to(
        self,
        after: SceneNode<S, M>,
        parent: M,
        world_transforms: spec_fn(M, SceneNode<S, M>, M) -> bool,
    ) -> bool
        decreases self,
    {
        &&& after.position == self.position
        &&& after.rotation == self.rotation
        &&& after.reference_point == self.reference_point
        &&& after.vao_id == self.vao_id
        &&& after.index_count == self.index_count
        &&& after.children@.len() == self.children@.len()
        &&& world_transforms(parent, self, after.current_transformation_matrix)
        &&& forall|i: int|
            0 <= i < self.children@.len() ==> (#[trigger] self.children@[i]).is_updated_to(
                after.children@[i],
                after.current_transformation_matrix,
                world_transforms,
            )
    }
}

impl<S, M, Neg, Cos, Sin, Mat, Mul> Arithmetic<S, Neg, Cos, Sin, Mat, Mul> where
    S: Copy,
    Neg: Fn(S) -> S,
    Cos: Fn(S) -> S,
    Sin: Fn(S) -> S,
    Mat: Fn([S; 16]) -> M,
    Mul: Fn(&M, &M) -> M,
 {
    /// `world` is the product of `parent`, the transformation of the parent,
    /// and `local`, a local transformation of a node with the given position,
    /// rotation and reference point.
    pub open spec fn is_world_transform_through(
        self,
        parent: M,
        position: Vec3<S>,
        rotation: Vec3<S>,
        reference_point: Vec3<S>,
        local: M,
        world: M,
    ) -> bool {
        &&& self.is_local_transform(position, rotation, reference_point, local)
        &&& self.is_product(parent, local, world)
    }

    /// `world` is the product of `parent`, the transformation of the parent,
    /// and a local transformation of a node with the given position, rotation
    /// and reference point.
    pub open spec fn is_world_transform_of(
        self,
        parent: M,
        position: Vec3<S>,
        rotation: Vec3<S>,
        reference_point: Vec3<S>,
        world: M,
    ) -> bool {
        exists|local: M|
            self.is_world_transform_through(
                parent,
                position,
                rotation,
                reference_point,
                local,
                world,
            )
    }

    /// `world` is the product of `parent`, the transformation of the parent,
    /// and a local transformation of `node`.
    pub open spec fn is_world_transform(self, parent: M, node: SceneNode<S, M>, world: M) -> bool {
        self.is_world_transform_of(
            parent,
            node.position,
            node.rotation,
            node.reference_point,
            world,
        )
    }

    /// The relation between the transformation of a parent, a node and the
    /// node's transformation in world space: `is_world_transform`, as a
    /// value.
    pub open spec fn world_transforms(self) -> spec_fn(M, SceneNode<S, M>, M) -> bool {
        |parent: M, node: SceneNode<S, M>, world: M| self.is_world_transform(parent, node, world)
    }

    /// `after` is `before` with the transformations of all its nodes brought
    /// up to date, below a parent whose transformation is `parent`: nothing
    /// else has changed, the transformation of `after` is the product of
    /// `parent` and its local transformation, and each child is up to date
    /// below `after`.
    pub open spec fn is_updated(
        self,
        parent: M,
        before: SceneNode<S, M>,
        after: SceneNode<S, M>,
    ) -> bool {
        before.is_updated_to(after, parent, self.world_transforms())
    }

    /// Where zero and `identity` are neutral, a node that is not rotated and
    /// has its reference point at the origin, below a parent whose
    /// transformation is `identity`, is transformed by the translation by its
    /// position and by nothing else.
    pub proof fn lemma_plain_node_is_translated(
        self,
        identity: M,
        node: SceneNode<S, M>,
        world: M,
    )
        requires
            self.has_neutral_elements(identity),
            node.rotation == (Vec3 { x: self.zero, y: self.zero, z: self.zero }),
            node.reference_point == (Vec3 { x: self.zero, y: self.zero, z: self.zero }),
            self.is_world_transform(identity, node, world),
        ensures
            self.is_translation(node.position, world),
    {
        let local = choose|local: M|
            self.is_world_transform_through(
                identity,
                node.position,
                node.rotation,
                node.reference_point,
                local,
                world,
            );
        self.lemma_plain_local_transform_is_translation(identity, node.position, local);
    }

    /// In an updated tree the transformation of every child is the
    /// transformation of its parent multiplied by the child's local
    /// transformation, and the child is itself up to date below its parent.
    pub proof fn lemma_child_follows_parent(
        self,
        parent: M,
        before: SceneNode<S, M>,
        after: SceneNode<S, M>,
        i: int,
    )
        requires
            self.is_updated(parent, before, after),
            0 <= i < before.children@.len(),
        ensures
            i < after.children@.len(),
            self.is_world_transform(
                after.current_transformation_matrix,
                after.children@[i],
                after.children@[i].current_transformation_matrix,
            ),
            self.is_updated(
                after.current_transformation_matrix,
                before.children@[i],
                after.children@[i],
            ),
    {
        assert(self.is_updated(
            after.current_transformation_matrix,
            before.children@[i],
            after.children@[i],
        ));
    }

    /// In an updated tree the transformation of every node below the root,
    /// however deep, is the transformation of its parent multiplied by the
    /// node's local transformation: for the child `i` of the node that `path`
    /// leads to.
    pub proof fn lemma_every_node_follows_its_parent(
        self,
        parent: M,
        before: SceneNode<S, M>,
        after: SceneNode<S, M>,
        path: Seq<int>,
        i: int,
    )
        requires
            self.is_updated(parent, before, after),
            before.has_path(path),
            0 <= i < before.descendant(path).children@.len(),
        ensures
            after.has_path(path),
            after.has_path(path.push(i)),
            after.descendant(path.push(i)) == after.descendant(path).children@[i],
            self.is_world_transform(
                after.descendant(path).current_transformation_matrix,
                after.descendant(path.push(i)),
                after.descendant(path.push(i)).current_transformation_matrix,
            ),
        decreases path.len(),
    {
        if path.len() == 0 {
            self.lemma_child_follows_parent(parent, before, after, i);
            assert(path.push(i).drop_first() =~= path);
            assert(after.children@[i].has_path(path));
            assert(after.children@[i].descendant(path) == after.children@[i]);
        } else {
            let first = path[0];
            let rest = path.drop_first();
            self.lemma_child_follows_parent(parent, before, after, first);
            self.lemma_every_node_follows_its_parent(
                after.current_transformation_matrix,
                before.children@[first],
                after.children@[first],
                rest,
                i,
            );
            assert(path.push(i).drop_first() =~= rest.push(i));
        }
    }
}

/// Brings the transformations of `root` and of all nodes below it up to
/// date, where `transformation_so_far` is the transformation of the parent
/// of `root`.
pub fn update_node_transformations<S, M, Neg, Cos, Sin, Mat, Mul>(
    root: &mut SceneNode<S, M>,
    transformation_so_far: &M,
    arithmetic: &Arithmetic<S, Neg, Cos, Sin, Mat, Mul>,
) where
    S: Copy,
    Neg: Fn(S) -> S,
    Cos: Fn(S) -> S,
    Sin: Fn(S) -> S,
    Mat: Fn([S; 16]) -> M,
    Mul: Fn(&M, &M) -> M,

    requires
        arithmetic.total(),
    ensures
        arithmetic.is_updated(*transformation_so_far, *old(root), *final(root)),
    decreases *old(root),
{
    let local = arithmetic.local_transform(&root.position, &root.rotation, &root.reference_point);
    root.current_transformation_matrix = arithmetic.multiply(transformation_so_far, &local);
    assert(arithmetic.is_world_transform_through(
        *transformation_so_far,
        root.position,
        root.rotation,
        root.reference_point,
        local,
        root.current_transformation_matrix,
    ));
    let n = root.children.len();
    let mut i: usize = 0;
    while i < n
        invariant
            i <= n,
            n == old(root).children@.len(),
            n == root.children@.len(),
            arithmetic.total(),
            root.position == old(root).position,
            root.rotation == old(root).rotation,
            root.reference_point == old(root).reference_point,
            root.vao_id == old(root).vao_id,
            root.index_count == old(root).index_count,
            arithmetic.is_world_transform(
                *transformation_so_far,
                *old(root),
                root.current_transformation_matrix,
            ),
            forall|j: int|
                0 <= j < i ==> arithmetic.is_updated(
                    root.current_transformation_matrix,
                    #[trigger] old(root).children@[j],
                    root.children@[j],
                ),
            forall|j: int| i <= j < n ==> root.children@[j] == old(root).children@[j],
        decreases n - i,
    {
        update_node_transformations(
            &mut root.children[i],
            &root.current_transformation_matrix,
            arithmetic,
        );
        i += 1;
    }
}

} // verus!
