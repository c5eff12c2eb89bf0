//! A scene graph: a tree of nodes, each placed relative to its parent, with
//! the two passes that a renderer runs over it for every frame.
//!
//! * [`node`] holds the tree.
//! * [`arithmetic`] is what the caller brings: its scalars and matrices, and
//!   the operations on them. [`transform`] builds the elementary matrices of
//!   a node from them and composes its local transformation.
//! * [`update`] walks the tree and gives every node its transformation in
//!   world space; [`draw`] walks it again and lists the draw calls.
//! * [`camera`] composes the view projection, [`layout`] names the slots of
//!   the shader program, and [`input`] keeps the keys that are held down.

pub mod arithmetic;
pub mod camera;
pub mod draw;
pub mod input;
pub mod layout;
pub mod node;
pub mod transform;
pub mod update;
