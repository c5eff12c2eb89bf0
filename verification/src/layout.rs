//! What the mesh uploader, the shader program and the draw pass agree on:
//! the attribute slot of each kind of vertex data, and the uniform slot of
//! each transformation.

use vstd::prelude::*;

verus! {

/// The uniform slot of the shader program that takes the transformation of a
/// draw call to clip space.
pub const CLIP_TRANSFORM_LOCATION: i32 = 3;

/// The uniform slot of the shader program that takes the transformation of a
/// draw call to world space.
pub const MODEL_TRANSFORM_LOCATION: i32 = 4;

/// A kind of data that a mesh holds for each of its vertices.
#[derive(Clone, Copy, Debug, PartialEq, Eq, Structural)]
pub enum VertexAttribute {
    /// Where the vertex is: x, y, z.
    Position,
    /// Its colour: red, green, blue, alpha.
    Color,
    /// Its normal: x, y, z.
    Normal,
}

impl VertexAttribute {
    /// The attribute slot of the shader program that the data is bound to.
    pub open spec fn slot(self) -> u32 {
        match self {
            VertexAttribute::Position => 0,
            VertexAttribute::Color => 1,
            VertexAttribute::Normal => 2,
        }
    }

    /// The number of scalars that one vertex has of the data.
    pub open spec fn width(self) -> i32 {
        match self {
            VertexAttribute::Position => 3,
            VertexAttribute::Color => 4,
            VertexAttribute::Normal => 3,
        }
    }

    /// The attribute slot of the shader program that the data is bound to.
    pub fn location(self) -> (slot: u32)
        ensures
            slot == self.slot(),
    {
        match self {
            VertexAttribute::Position => 0,
            VertexAttribute::Color => 1,
            VertexAttribute::Normal => 2,
        }
    }

    /// The number of scalars that one vertex has of the data.
    pub fn components(self) -> (width: i32)
        ensures
            width == self.width(),
    {
        match self {
            VertexAttribute::Position => 3,
            VertexAttribute::Color => 4,
            VertexAttribute::Normal => 3,
        }
    }
}

} // verus!
