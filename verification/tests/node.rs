use nalgebra_glm as glm;
use scene_graph::arithmetic::{Arithmetic, Vec3};
use scene_graph::node::SceneNode;

fn unit() -> glm::Mat4 {
    glm::identity()
}

fn floats() -> Arithmetic<
    f32,
    impl Fn(f32) -> f32,
    impl Fn(f32) -> f32,
    impl Fn(f32) -> f32,
    impl Fn([f32; 16]) -> glm::Mat4,
    impl Fn(&glm::Mat4, &glm::Mat4) -> glm::Mat4,
> {
    Arithmetic::new(
        0.0,
        1.0,
        |s: f32| -s,
        |a: f32| a.cos(),
        |a: f32| a.sin(),
        |e: [f32; 16]| {
            glm::mat4(
                e[0], e[1], e[2], e[3], e[4], e[5], e[6], e[7], e[8], e[9], e[10], e[11], e[12],
                e[13], e[14], e[15],
            )
        },
        |a: &glm::Mat4, b: &glm::Mat4| a * b,
    )
}

fn is_origin(v: &Vec3<f32>) -> bool {
    v.x == 0.0 && v.y == 0.0 && v.z == 0.0
}

#[test]
fn new_node_is_empty_and_not_drawable() {
    let ops = floats();
    let node = SceneNode::new(&ops);
    assert!(is_origin(&node.position));
    assert!(is_origin(&node.rotation));
    assert!(is_origin(&node.reference_point));
    assert_eq!(node.current_transformation_matrix, unit());
    assert_eq!(node.vao_id, 0);
    assert_eq!(node.index_count, 0);
    assert_eq!(node.children.len(), 0);
    assert_eq!(node.get_n_children(), 0);
    assert!(!node.is_drawable());
}

#[test]
fn node_from_mesh_is_bound_to_the_mesh() {
    let ops = floats();
    let node = SceneNode::from_mesh(7, 36, &ops);
    assert_eq!(node.vao_id, 7);
    assert_eq!(node.index_count, 36);
    assert!(node.is_drawable());
    assert!(is_origin(&node.position));
    assert!(is_origin(&node.rotation));
    assert!(is_origin(&node.reference_point));
    assert_eq!(node.current_transformation_matrix, unit());
    assert_eq!(node.get_n_children(), 0);
}

#[test]
fn node_is_drawable_only_with_a_positive_index_count() {
    let ops = floats();
    assert!(SceneNode::from_mesh(1, 1, &ops).is_drawable());
    assert!(SceneNode::from_mesh(1, i32::MAX, &ops).is_drawable());
    assert!(!SceneNode::from_mesh(1, 0, &ops).is_drawable());
    assert!(!SceneNode::from_mesh(1, -1, &ops).is_drawable());
    assert!(!SceneNode::from_mesh(1, i32::MIN, &ops).is_drawable());
}

#[test]
fn add_child_appends_in_order() {
    let ops = floats();
    let mut root = SceneNode::new(&ops);
    root.add_child(SceneNode::from_mesh(1, 3, &ops));
    root.add_child(SceneNode::from_mesh(2, 6, &ops));
    root.add_child(SceneNode::new(&ops));
    assert_eq!(root.get_n_children(), 3);
    assert_eq!(root.children[0].vao_id, 1);
    assert_eq!(root.children[1].vao_id, 2);
    assert_eq!(root.children[2].index_count, 0);
    assert_eq!(root.vao_id, 0);
    assert_eq!(root.index_count, 0);
    assert!(is_origin(&root.position));
}

#[test]
fn add_child_takes_the_whole_subtree() {
    let ops = floats();
    let mut leaf = SceneNode::from_mesh(9, 12, &ops);
    leaf.position = Vec3::new(1.0, 2.0, 3.0);
    let mut middle = SceneNode::new(&ops);
    middle.add_child(leaf);
    let mut root = SceneNode::new(&ops);
    root.add_child(middle);
    assert_eq!(root.get_n_children(), 1);
    assert_eq!(root.children[0].get_n_children(), 1);
    assert_eq!(root.children[0].children[0].vao_id, 9);
    assert_eq!(root.children[0].children[0].position.y, 2.0);
}

#[test]
fn vectors_hold_their_components() {
    let v = Vec3::new(1.5f32, -2.0, 4.25);
    assert_eq!((v.x, v.y, v.z), (1.5, -2.0, 4.25));
    let w = Vec3::splat(3i64);
    assert_eq!((w.x, w.y, w.z), (3, 3, 3));
    let c = v.clone();
    assert_eq!((c.x, c.y, c.z), (1.5, -2.0, 4.25));
}
