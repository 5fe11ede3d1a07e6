//! The renderer: it keeps the bound resources, records clear and draw
//! commands, and hands the recorded commands over once per frame.

use vstd::prelude::*;
use crate::command::{Command, DrawRange};
use crate::matrix::Matrix4;
use crate::pipeline::PipelineDescriptor;
use crate::resource::{BoundResources, BufferHandle, ColorTarget, DepthTarget, Texture, TextureBinding};
use crate::state::{RendererState, CLEAR_COLOR, CLEAR_DEPTH, CLEAR_STENCIL};
use crate::vertex::Vertex;

verus! {

/// What a renderer holds besides the recorded commands.
struct Bindings {
    pipe: PipelineDescriptor,
    data: BoundResources,
    clear_color: [u32; 4],
    clear_depth: u32,
    clear_stencil: u8,
    slice: DrawRange,
    next_buffer: u64,
}

impl Bindings {
    spec fn with_pending(self, pending: Seq<Command>) -> RendererState {
        RendererState {
            pipeline: self.pipe,
            data: self.data,
            pending,
            clear_color: self.clear_color,
            clear_depth: self.clear_depth,
            clear_stencil: self.clear_stencil,
            range: self.slice,
            next_buffer: self.next_buffer,
        }
    }

    #[verifier::type_invariant]
    spec fn inv(self) -> bool {
        self.with_pending(Seq::empty()).wf()
    }
}

/// Records the commands of a frame for one pipeline and one set of targets.
pub struct Renderer {
    bound: Bindings,
    encoder: Vec<Command>,
}

impl View for Renderer {
    type V = RendererState;

    closed spec fn view(&self) -> RendererState {
        self.bound.with_pending(self.encoder@)
    }
}

impl Renderer {

    /// Makes a renderer for the given targets and texture. Nothing is
    /// recorded yet; both matrices are the identity; an empty vertex buffer
    /// is bound.
    pub fn new(target: ColorTarget, depth: DepthTarget, tex: Texture) -> (renderer: Renderer)
        ensures
            renderer@ == RendererState::initial(target, depth, tex),
            renderer@.wf(),
    {
        Renderer {
            bound: Bindings {
                pipe: PipelineDescriptor::new(),
                data: BoundResources {
                    vbuf: BufferHandle { id: 0, len: 0 },
                    projection: Matrix4::identity(),
                    view: Matrix4::identity(),
                    texture: TextureBinding::new(tex),
                    out_color: target,
                    out_depth: depth,
                },
                clear_color: CLEAR_COLOR,
                clear_depth: CLEAR_DEPTH,
                clear_stencil: CLEAR_STENCIL,
                slice: DrawRange { start: 0, end: 0 },
                next_buffer: 1,
            },
            encoder: Vec::new(),
        }
    }

    /// Replaces the projection matrix. Nothing is recorded: the next draw
    /// picks the matrix up.
    pub fn set_projection(&mut self, proj_mat: Matrix4)
        ensures
            final(self)@ == old(self)@.set_projection(proj_mat),
            old(self)@.wf(),
            final(self)@.wf(),
    {
        proof {
            use_type_invariant(&self.bound);
        }
        self.bound.data.projection = proj_mat;
    }

    /// Replaces the view matrix. Nothing is recorded: the next draw picks
    /// the matrix up.
    pub fn set_view(&mut self, view_mat: Matrix4)
        ensures
            final(self)@ == old(self)@.set_view(view_mat),
            old(self)@.wf(),
            final(self)@.wf(),
    {
        proof {
            use_type_invariant(&self.bound);
        }
        self.bound.data.view = view_mat;
    }

    /// Records three commands behind what is pending: clear the color target
    /// to the clear color, clear the depth to the far plane, clear the
    /// stencil to zero.
    pub fn clear(&mut self)
        ensures
            final(self)@ == old(self)@.clear(),
            old(self)@.wf(),
            final(self)@.wf(),
    {
        proof {
            use_type_invariant(&self.bound);
        }
        self.encoder.push(
            Command::ClearColor { target: self.bound.data.out_color, value: self.bound.clear_color },
        );
        self.encoder.push(
            Command::ClearDepth { target: self.bound.data.out_depth, depth: self.bound.clear_depth },
        );
        self.encoder.push(
            Command::ClearStencil {
                target: self.bound.data.out_depth,
                stencil: self.bound.clear_stencil,
            },
        );
    }

    /// Hands over the commands recorded since the last flush, oldest first,
    /// and starts again with none pending.
    pub fn flush(&mut self) -> (submitted: Vec<Command>)
        ensures
            submitted@ == old(self)@.pending,
            final(self)@ == old(self)@.flush(),
            old(self)@.wf(),
            final(self)@.wf(),
    {
        proof {
            use_type_invariant(&self.bound);
        }
        let mut submitted: Vec<Command> = Vec::new();
        core::mem::swap(&mut self.encoder, &mut submitted);
        submitted
    }

    /// Gives the vertices a new buffer, binds it in place of the buffer that
    /// was bound, and makes the range to draw cover it. Nothing is recorded.
    pub fn create_buffer(&mut self, data: &[Vertex]) -> (buffer: BufferHandle)
        ensures
            buffer == old(self)@.fresh_buffer(data@.len() as usize),
            final(self)@ == old(self)@.create_buffer(data@.len() as usize),
            old(self)@.wf(),
            final(self)@.wf(),
    {
        proof {
            use_type_invariant(&self.bound);
        }
        let len: usize = data.len();
        let buffer = BufferHandle { id: self.bound.next_buffer, len };
        self.bound = Bindings {
            data: BoundResources { vbuf: buffer, ..self.bound.data },
            slice: DrawRange { start: 0, end: #[verifier::truncate] (len as u32) },
            next_buffer: self.bound.next_buffer.wrapping_add(1),
            ..self.bound
        };
        buffer
    }

    /// Binds `buffer`, ends the range to draw at its length and records one
    /// draw of that range behind what is pending.
    pub fn render(&mut self, buffer: &mut BufferHandle)
        ensures
            final(self)@ == old(self)@.render(*old(buffer)),
            old(self)@.wf(),
            final(self)@.wf(),
            *final(buffer) == *old(buffer),
    {
        proof {
            use_type_invariant(&self.bound);
        }
        self.bound = Bindings {
            data: BoundResources { vbuf: *buffer, ..self.bound.data },
            slice: DrawRange {
                start: self.bound.slice.start,
                end: #[verifier::truncate] (buffer.len as u32),
            },
            ..self.bound
        };
        self.encoder.push(Command::Draw { range: self.bound.slice, data: self.bound.data });
    }

    /// Replaces the color that later clears fill the color target with: red,
    /// green, blue, alpha, each a single-precision bit pattern. Clears that
    /// are already recorded keep their color.
    pub fn set_clear_color(&mut self, color: [u32; 4])
        ensures
            final(self)@ == old(self)@.set_clear_color(color),
            old(self)@.wf(),
            final(self)@.wf(),
    {
        proof {
            use_type_invariant(&self.bound);
        }
        self.bound.clear_color = color;
    }

    /// The pipeline that every draw of this renderer runs.
    pub fn pipeline(&self) -> (descriptor: PipelineDescriptor)
        ensures
            descriptor == self@.pipeline,
            descriptor == PipelineDescriptor::standard(),
    {
        proof {
            use_type_invariant(&self.bound);
        }
        self.bound.pipe
    }

    /// The resources bound for the next draw.
    pub fn data(&self) -> (data: BoundResources)
        ensures
            data == self@.data,
            data.texture == TextureBinding::of(data.texture.texture),
    {
        proof {
            use_type_invariant(&self.bound);
        }
        self.bound.data
    }

    /// The vertices that the next draw covers: the whole of the bound
    /// buffer.
    pub fn slice(&self) -> (range: DrawRange)
        ensures
            range == self@.range,
            range.start == 0,
            range.end == self@.data.vbuf.len as u32,
    {
        proof {
            use_type_invariant(&self.bound);
        }
        self.bound.slice
    }

    /// The color that the next clear fills the color target with.
    pub fn clear_color(&self) -> (color: [u32; 4])
        ensures
            color == self@.clear_color,
    {
        self.bound.clear_color
    }

    /// The commands recorded since the last flush, oldest first.
    pub fn pending(&self) -> (commands: &Vec<Command>)
        ensures
            commands@ == self@.pending,
    {
        &self.encoder
    }
}

} // verus!
