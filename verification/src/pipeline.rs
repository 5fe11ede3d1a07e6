//! The fixed description of the graphics pipeline: what the shader program
//! reads and writes, and how primitives are assembled and tested.

use vstd::prelude::*;
use crate::vertex::{Vertex, VertexLayout};

verus! {

/// How consecutive vertices are assembled into primitives.
#[derive(Clone, Copy, Debug, PartialEq, Eq)]
pub enum Primitive {
    PointList,
    LineList,
    LineStrip,
    TriangleList,
    TriangleStrip,
}

/// Which winding order marks the front of a triangle.
#[derive(Clone, Copy, Debug, PartialEq, Eq)]
pub enum FrontFace {
    Clockwise,
    CounterClockwise,
}

/// Which side of a triangle is dropped before rasterization.
#[derive(Clone, Copy, Debug, PartialEq, Eq)]
pub enum CullFace {
    Nothing,
    Front,
    Back,
}

/// How a primitive is turned into fragments.
#[derive(Clone, Copy, Debug, PartialEq, Eq)]
pub enum RasterMethod {
    Point,
    Line(i32),
    Fill,
}

/// Rasterizer state.
#[derive(Clone, Copy, Debug, PartialEq, Eq)]
pub struct Rasterizer {
    pub front_face: FrontFace,
    pub cull_face: CullFace,
    pub method: RasterMethod,
}

/// A comparison between an incoming value and the stored one.
#[derive(Clone, Copy, Debug, PartialEq, Eq)]
pub enum Comparison {
    Never,
    Less,
    LessEqual,
    Equal,
    GreaterEqual,
    Greater,
    NotEqual,
    Always,
}

/// Depth test state: the comparison a fragment must pass, and whether a
/// passing fragment overwrites the stored depth.
#[derive(Clone, Copy, Debug, PartialEq, Eq)]
pub struct DepthState {
    pub fun: Comparison,
    pub write: bool,
}

/// Source text of the vertex stage. It places each vertex at
/// `u_projection * u_view * (at_position, 1)` and hands the texture
/// coordinate and the color on unchanged.
pub const VERTEX_SHADER: &'static str = "
    #version 150 core
    uniform mat4 u_projection, u_view;
    in vec2 at_tex_coord;
    in vec3 at_color, at_position;
    out vec2 v_tex_coord;
    out vec3 v_color;
    void main() {
        v_tex_coord = at_tex_coord;
        v_color = at_color;
        gl_Position = u_projection * u_view * vec4(at_position, 1.0);
    }
";

/// Source text of the fragment stage. It samples the texture, drops the
/// fragment when the sampled alpha is exactly zero, and otherwise writes the
/// sampled color tinted by the vertex color.
pub const FRAGMENT_SHADER: &'static str = "
    #version 150 core
    out vec4 out_color;
    uniform sampler2D s_texture;
    in vec2 v_tex_coord;
    in vec3 v_color;
    void main() {
        vec4 tex_color = texture(s_texture, v_tex_coord);
        if(tex_color.a == 0.0) // Discard transparent pixels.
            discard;
        out_color = tex_color * vec4(v_color, 1.0);
    }
";

/// Everything the pipeline binds, fixed when the pipeline is built: one
/// vertex buffer input, two matrix uniforms, one texture with its sampler, one
/// color target and one depth target.
#[derive(Clone, Copy, Debug, PartialEq, Eq)]
pub struct PipelineDescriptor {
    /// Source of the vertex stage.
    pub vertex_shader: &'static str,
    /// Source of the fragment stage.
    pub fragment_shader: &'static str,
    /// How the vertices of the buffer input are assembled.
    pub primitive: Primitive,
    /// Rasterizer state.
    pub rasterizer: Rasterizer,
    /// Layout of the vertex buffer input.
    pub vbuf: VertexLayout,
    /// Name of the projection matrix uniform.
    pub projection: &'static str,
    /// Name of the view matrix uniform.
    pub view: &'static str,
    /// Name of the combined texture and sampler slot.
    pub texture: &'static str,
    /// Name of the color output.
    pub out_color: &'static str,
    /// Depth test applied at the depth target.
    pub out_depth: DepthState,
}

impl PipelineDescriptor {
    /// The one pipeline of this renderer: a list of filled triangles, front
    /// faces clockwise, back faces culled, depth test less-or-equal with
    /// depth writes.
    pub open spec fn standard() -> PipelineDescriptor {
        PipelineDescriptor {
            vertex_shader: VERTEX_SHADER,
            fragment_shader: FRAGMENT_SHADER,
            primitive: Primitive::TriangleList,
            rasterizer: Rasterizer {
                front_face: FrontFace::Clockwise,
                cull_face: CullFace::Back,
                method: RasterMethod::Fill,
            },
            vbuf: Vertex::layout_spec(),
            projection: "u_projection",
            view: "u_view",
            texture: "s_texture",
            out_color: "out_color",
            out_depth: DepthState { fun: Comparison::LessEqual, write: true },
        }
    }

    /// Builds the descriptor of the renderer's pipeline.
    pub fn new() -> (descriptor: PipelineDescriptor)
        ensures
            descriptor == PipelineDescriptor::standard(),
    {
        PipelineDescriptor {
            vertex_shader: VERTEX_SHADER,
            fragment_shader: FRAGMENT_SHADER,
            primitive: Primitive::TriangleList,
            rasterizer: Rasterizer {
                front_face: FrontFace::Clockwise,
                cull_face: CullFace::Back,
                method: RasterMethod::Fill,
            },
            vbuf: Vertex::layout(),
            projection: "u_projection",
            view: "u_view",
            texture: "s_texture",
            out_color: "out_color",
            out_depth: DepthState { fun: Comparison::LessEqual, write: true },
        }
    }
}

} // verus!
