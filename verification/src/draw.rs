//! The draw pass: from an updated tree to the list of draw calls of a frame.
//!
//! The pass walks the tree depth first and issues one call for every node
//! that has a mesh. A node without a mesh issues none, and the pass goes on
//! below it all the same.

use crate::arithmetic::Arithmetic;
use crate::node::SceneNode;
use vstd::prelude::*;

verus! {

/// One indexed draw of a list of triangles.
pub struct DrawCall<M> {
    /// Takes the mesh to clip space: the view projection multiplied by
    /// `model_transform`. It goes to the uniform slot
    /// `layout::CLIP_TRANSFORM_LOCATION`.
    pub clip_transform: M,
    /// Takes the mesh to world space: the transformation of the node. It
    /// goes to the uniform slot `layout::MODEL_TRANSFORM_LOCATION`.
    pub model_transform: M,
    /// The mesh to bind.
    pub vao_id: u32,
    /// The number of indices to draw.
    pub index_count: i32,
}

impl<S: Copy, M> SceneNode<S, M> {
    /// The nodes that the draw pass issues a call for, in the order of the
    /// calls: the node itself if it has a mesh, then those of its children.
    pub open spec fn drawn(self) -> Seq<SceneNode<S, M>>
        decreases self, self.children@.len() + 1,
    {
        let own = if self.drawable() {
            seq![self]
        } else {
            Seq::empty()
        };
        own + self.drawn_of_children(self.children@.len())
    }

    /// The nodes that the draw pass issues a call for below the first `n`
    /// children of `self`.
    pub open spec fn drawn_of_children(self, n: nat) -> Seq<SceneNode<S, M>>
        decreases self, n,
    {
        if n == 0 || n > self.children@.len() {
            Seq::empty()
        } else {
            self.drawn_of_children((n - 1) as nat) + self.children@[n - 1].drawn()
        }
    }

    /// The draw pass issues its calls for the nodes of the tree that have a
    /// mesh, for each of them once, in the order of the depth-first walk.
    pub proof fn lemma_drawn_is_preorder_filtered(self)
        ensures
            self.drawn() == self.preorder().filter(|n: SceneNode<S, M>| n.drawable()),
        decreases self, self.children@.len() + 1,
    {
        let keep = |n: SceneNode<S, M>| n.drawable();
        let rest = self.preorder_of_children(self.children@.len());
        self.lemma_drawn_of_children_is_preorder_filtered(self.children@.len());
        Seq::filter_distributes_over_add(seq![self], rest, keep);
        reveal(Seq::filter);
        assert(seq![self].drop_last() =~= Seq::<SceneNode<S, M>>::empty());
        assert(seq![self].filter(keep) =~= if self.drawable() {
            seq![self]
        } else {
            Seq::empty()
        }) by {
            assert(Seq::<SceneNode<S, M>>::empty().filter(keep) =~= Seq::empty());
        }
    }

    /// `lemma_drawn_is_preorder_filtered`, for the first `n` children.
    pub proof fn lemma_drawn_of_children_is_preorder_filtered(self, n: nat)
        ensures
            self.drawn_of_children(n) == self.preorder_of_children(n).filter(
                |c: SceneNode<S, M>| c.drawable(),
            ),
        decreases self, n,
    {
        let keep = |c: SceneNode<S, M>| c.drawable();
        if n == 0 || n > self.children@.len() {
            reveal(Seq::filter);
            assert(Seq::<SceneNode<S, M>>::empty().filter(keep) =~= Seq::empty());
        } else {
            self.lemma_drawn_of_children_is_preorder_filtered((n - 1) as nat);
            self.children@[n - 1].lemma_drawn_is_preorder_filtered();
            Seq::filter_distributes_over_add(
                self.preorder_of_children((n - 1) as nat),
                self.children@[n - 1].preorder(),
                keep,
            );
        }
    }

    /// A node without a mesh issues no call of its own, and every call that
    /// is issued below one of its children is issued.
    pub proof fn lemma_group_node_only_passes_on(self)
        requires
            !self.drawable(),
        ensures
            self.drawn() == self.drawn_of_children(self.children@.len()),
            forall|i: int, k: int|
                0 <= i < self.children@.len() && 0 <= k < self.children@[i].drawn().len()
                    ==> self.drawn().contains(#[trigger] self.children@[i].drawn()[k]),
    {
        assert(Seq::<SceneNode<S, M>>::empty() + self.drawn_of_children(self.children@.len())
            =~= self.drawn_of_children(self.children@.len()));
        assert forall|i: int, k: int|
            0 <= i < self.children@.len() && 0 <= k < self.children@[i].drawn().len()
            implies self.drawn().contains(#[trigger] self.children@[i].drawn()[k]) by {
            self.lemma_drawn_of_children_holds_child(self.children@.len(), i, k);
        }
    }

    /// What is drawn below the child `i` is drawn below the first `n`
    /// children, if `i` is among them.
    pub proof fn lemma_drawn_of_children_holds_child(self, n: nat, i: int, k: int)
        requires
            0 <= i < n <= self.children@.len(),
            0 <= k < self.children@[i].drawn().len(),
        ensures
            self.drawn_of_children(n).contains(self.children@[i].drawn()[k]),
        decreases n,
    {
        let before = self.drawn_of_children((n - 1) as nat);
        let last = self.children@[n - 1].drawn();
        if i == n - 1 {
            assert((before + last)[before.len() + k] == last[k]);
        } else {
            self.lemma_drawn_of_children_holds_child((n - 1) as nat, i, k);
            let node = self.children@[i].drawn()[k];
            let j = choose|j: int| 0 <= j < before.len() && before[j] == node;
            assert((before + last)[j] == before[j]);
        }
    }
}

impl<S, M, Neg, Cos, Sin, Mat, Mul> Arithmetic<S, Neg, Cos, Sin, Mat, Mul> where
    S: Copy,
    Neg: Fn(S) -> S,
    Cos: Fn(S) -> S,
    Sin: Fn(S) -> S,
    Mat: Fn([S; 16]) -> M,
    Mul: Fn(&M, &M) -> M,
 {
    /// `call` draws the mesh of `node` under the view projection
    /// `view_projection`.
    pub open spec fn is_call_for(
        self,
        view_projection: M,
        node: SceneNode<S, M>,
        call: DrawCall<M>,
    ) -> bool {
        &&& self.is_product(
            view_projection,
            node.current_transformation_matrix,
            call.clip_transform,
        )
        &&& call.model_transform == node.current_transformation_matrix
        &&& call.vao_id == node.vao_id
        &&& call.index_count == node.index_count
    }

    /// `calls` holds one call for each node of `nodes`, in their order.
    pub open spec fn are_calls_for(
        self,
        view_projection: M,
        nodes: Seq<SceneNode<S, M>>,
        calls: Seq<DrawCall<M>>,
    ) -> bool {
        &&& calls.len() == nodes.len()
        &&& forall|k: int|
            0 <= k < nodes.len() ==> self.is_call_for(
                view_projection,
                nodes[k],
                #[trigger] calls[k],
            )
    }
}

/// Appends to `calls` the draw calls of `node` and of all nodes below it.
fn draw_into<S, M, Neg, Cos, Sin, Mat, Mul>(
    node: &SceneNode<S, M>,
    view_projection: &M,
    arithmetic: &Arithmetic<S, Neg, Cos, Sin, Mat, Mul>,
    calls: &mut Vec<DrawCall<M>>,
) where
    S: Copy,
    M: Copy,
    Neg: Fn(S) -> S,
    Cos: Fn(S) -> S,
    Sin: Fn(S) -> S,
    Mat: Fn([S; 16]) -> M,
    Mul: Fn(&M, &M) -> M,

    requires
        arithmetic.total(),
    ensures
        final(calls)@.len() == old(calls)@.len() + node.drawn().len(),
        final(calls)@.subrange(0, old(calls)@.len() as int) == old(calls)@,
        arithmetic.are_calls_for(
            *view_projection,
            node.drawn(),
            final(calls)@.subrange(old(calls)@.len() as int, final(calls)@.len() as int),
        ),
    decreases node,
{
    let ghost start = calls@;
    if node.index_count > 0 {
        let clip_transform = arithmetic.multiply(
            view_projection,
            &node.current_transformation_matrix,
        );
        calls.push(
            DrawCall {
                clip_transform,
                model_transform: node.current_transformation_matrix,
                vao_id: node.vao_id,
                index_count: node.index_count,
            },
        );
    }
    let ghost own = calls@.subrange(start.len() as int, calls@.len() as int);
    let ghost own_nodes = if node.drawable() {
        seq![*node]
    } else {
        Seq::empty()
    };
    assert(arithmetic.are_calls_for(*view_projection, own_nodes, own));
    let n = node.children.len();
    let mut i: usize = 0;
    while i < n
        invariant
            i <= n,
            n == node.children@.len(),
            arithmetic.total(),
            calls@.len() == start.len() + own_nodes.len() + node.drawn_of_children(i as nat).len(),
            calls@.subrange(0, start.len() as int) == start,
            arithmetic.are_calls_for(
                *view_projection,
                own_nodes + node.drawn_of_children(i as nat),
                calls@.subrange(start.len() as int, calls@.len() as int),
            ),
        decreases n - i,
    {
        let ghost before = calls@;
        draw_into(&node.children[i], view_projection, arithmetic, calls);
        proof {
            let child = node.children@[i as int];
            let so_far = own_nodes + node.drawn_of_children(i as nat);
            let all = own_nodes + node.drawn_of_children((i + 1) as nat);
            assert(all =~= so_far + child.drawn());
            let old_part = before.subrange(start.len() as int, before.len() as int);
            let new_part = calls@.subrange(before.len() as int, calls@.len() as int);
            let part = calls@.subrange(start.len() as int, calls@.len() as int);
            assert(calls@.subrange(0, start.len() as int) =~= calls@.subrange(
                0,
                before.len() as int,
            ).subrange(0, start.len() as int));
            assert forall|k: int| 0 <= k < all.len() implies arithmetic.is_call_for(
                *view_projection,
                all[k],
                #[trigger] part[k],
            ) by {
                if k < so_far.len() {
                    assert(part[k] == calls@.subrange(0, before.len() as int)[start.len() + k]);
                    assert(part[k] == old_part[k]);
                } else {
                    assert(part[k] == new_part[k - so_far.len()]);
                }
            }
        }
        i += 1;
    }
}

/// The draw calls of a frame for the tree below `root`, in the order in
/// which they are to be issued: one for every node that has a mesh, depth
/// first, with the node's transformation and its product with
/// `view_projection`.
pub fn draw_scene<S, M, Neg, Cos, Sin, Mat, Mul>(
    root: &SceneNode<S, M>,
    view_projection: &M,
    arithmetic: &Arithmetic<S, Neg, Cos, Sin, Mat, Mul>,
) -> (calls: Vec<DrawCall<M>>) where
    S: Copy,
    M: Copy,
    Neg: Fn(S) -> S,
    Cos: Fn(S) -> S,
    Sin: Fn(S) -> S,
    Mat: Fn([S; 16]) -> M,
    Mul: Fn(&M, &M) -> M,

    requires
        arithmetic.total(),
    ensures
        arithmetic.are_calls_for(*view_projection, root.drawn(), calls@),
{
    let mut calls: Vec<DrawCall<M>> = Vec::new();
    draw_into(root, view_projection, arithmetic, &mut calls);
    assert(calls@.subrange(0, calls@.len() as int) =~= calls@);
    calls
}

} // verus!
