//! The vertex record and how its fields lie in a vertex buffer.

use vstd::prelude::*;

verus! {

/// Bytes taken by one component of an attribute.
pub const COMPONENT_BYTES: u32 = 4;

/// One vertex of a mesh. Each component is a single-precision number held by
/// its IEEE-754 bit pattern.
#[derive(Clone, Copy, Debug, PartialEq, Eq)]
pub struct Vertex {
    /// Position in model space: x, y, z.
    pub position: [u32; 3],
    /// Texture coordinate: u, v.
    pub tex_coord: [u32; 2],
    /// Tint: red, green, blue.
    pub color: [u32; 3],
}

/// One input of the vertex stage: its name in the shader program, where it
/// starts inside a vertex and how many components it has.
#[derive(Clone, Copy, Debug, PartialEq, Eq)]
pub struct Attribute {
    pub name: &'static str,
    pub offset: u32,
    pub components: u32,
}

impl Attribute {
    /// First byte after the attribute.
    pub open spec fn end(self) -> int {
        self.offset + self.components * COMPONENT_BYTES
    }
}

/// The attributes of a vertex, in the order of the fields, and the bytes
/// from one vertex to the next.
#[derive(Clone, Copy, Debug, PartialEq, Eq)]
pub struct VertexLayout {
    pub attributes: [Attribute; 3],
    pub stride: u32,
}

impl VertexLayout {
    /// The attributes follow one another without gaps, starting at byte
    /// zero, and the stride is where the last one ends.
    pub open spec fn packed(self) -> bool {
        &&& self.attributes[0].offset == 0
        &&& self.attributes[1].offset == self.attributes[0].end()
        &&& self.attributes[2].offset == self.attributes[1].end()
        &&& self.stride == self.attributes[2].end()
    }
}

impl Vertex {
    /// The layout of `Vertex`: position, then texture coordinate, then color.
    pub open spec fn layout_spec() -> VertexLayout {
        VertexLayout {
            attributes: [
                Attribute { name: "at_position", offset: 0, components: 3 },
                Attribute { name: "at_tex_coord", offset: 12, components: 2 },
                Attribute { name: "at_color", offset: 20, components: 3 },
            ],
            stride: 32,
        }
    }

    /// The layout that a buffer of `Vertex` has.
    pub fn layout() -> (layout: VertexLayout)
        ensures
            layout == Vertex::layout_spec(),
            layout.packed(),
    {
        VertexLayout {
            attributes: [
                Attribute { name: "at_position", offset: 0, components: 3 },
                Attribute { name: "at_tex_coord", offset: 12, components: 2 },
                Attribute { name: "at_color", offset: 20, components: 3 },
            ],
            stride: 32,
        }
    }
}

} // verus!
