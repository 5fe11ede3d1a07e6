//! The renderer as a mathematical state, and what each operation does to it.

use vstd::prelude::*;
use crate::command::{Command, DrawRange};
use crate::matrix::{Matrix4, ONE};
use crate::pipeline::PipelineDescriptor;
use crate::resource::{BoundResources, BufferHandle, ColorTarget, DepthTarget, Texture, TextureBinding};
use crate::vertex::Vertex;

verus! {

/// The color that a new renderer clears to: red, green, blue, alpha, each a
/// single-precision bit pattern (0.81, 0.8, 1.0, 1.0).
pub const CLEAR_COLOR: [u32; 4] = [0x3F4F_5C29, 0x3F4C_CCCD, 0x3F80_0000, 0x3F80_0000];

/// The depth that every renderer clears to: the bit pattern of 1.0, the far
/// plane.
pub const CLEAR_DEPTH: u32 = ONE;

/// The stencil value that every renderer clears to.
pub const CLEAR_STENCIL: u8 = 0;

/// What a renderer is, seen from outside.
#[verifier::ext_equal]
pub struct RendererState {
    /// The pipeline that every draw runs.
    pub pipeline: PipelineDescriptor,
    /// The resources bound for the next draw.
    pub data: BoundResources,
    /// The commands recorded since the last flush, oldest first.
    pub pending: Seq<Command>,
    /// The color that `clear` fills the color target with.
    pub clear_color: [u32; 4],
    /// The depth that `clear` fills the depth target with.
    pub clear_depth: u32,
    /// The stencil value that `clear` fills the depth target with.
    pub clear_stencil: u8,
    /// The vertices that the next draw covers.
    pub range: DrawRange,
    /// The identifier that the next vertex buffer gets.
    pub next_buffer: u64,
}

impl RendererState {
    /// What holds of a renderer for as long as it lives: the pipeline is the
    /// standard one, the texture is bound at its base level with an
    /// unfiltered tiling sampler, depth is cleared to the far plane, stencil
    /// to zero, and the range to draw is the whole of the bound buffer: it
    /// starts at the first vertex and ends at the length of the buffer, as
    /// far as 32 bits can count.
    pub open spec fn wf(self) -> bool {
        &&& self.pipeline == PipelineDescriptor::standard()
        &&& self.data.texture == TextureBinding::of(self.data.texture.texture)
        &&& self.clear_depth == CLEAR_DEPTH
        &&& self.clear_stencil == CLEAR_STENCIL
        &&& self.range.start == 0
        &&& self.range.end == self.data.vbuf.len as u32
    }

    /// The state of a new renderer: nothing recorded, both matrices the
    /// identity, an empty vertex buffer bound and an empty range to draw.
    pub open spec fn initial(target: ColorTarget, depth: DepthTarget, tex: Texture) -> RendererState {
        RendererState {
            pipeline: PipelineDescriptor::standard(),
            data: BoundResources {
                vbuf: BufferHandle { id: 0, len: 0 },
                projection: Matrix4::identity_spec(),
                view: Matrix4::identity_spec(),
                texture: TextureBinding::of(tex),
                out_color: target,
                out_depth: depth,
            },
            pending: Seq::empty(),
            clear_color: CLEAR_COLOR,
            clear_depth: CLEAR_DEPTH,
            clear_stencil: CLEAR_STENCIL,
            range: DrawRange { start: 0, end: 0 },
            next_buffer: 1,
        }
    }

    /// The state after the projection matrix is replaced by `m`.
    pub open spec fn set_projection(self, m: Matrix4) -> RendererState {
        RendererState { data: BoundResources { projection: m, ..self.data }, ..self }
    }

    /// The state after the view matrix is replaced by `m`.
    pub open spec fn set_view(self, m: Matrix4) -> RendererState {
        RendererState { data: BoundResources { view: m, ..self.data }, ..self }
    }

    /// The state after the clear color is replaced by `color`.
    pub open spec fn set_clear_color(self, color: [u32; 4]) -> RendererState {
        RendererState { clear_color: color, ..self }
    }

    /// The three commands of one clear: color, then depth, then stencil,
    /// each with the stored clear value, on the bound targets.
    pub open spec fn clear_commands(self) -> Seq<Command> {
        seq![
            Command::ClearColor { target: self.data.out_color, value: self.clear_color },
            Command::ClearDepth { target: self.data.out_depth, depth: self.clear_depth },
            Command::ClearStencil { target: self.data.out_depth, stencil: self.clear_stencil },
        ]
    }

    /// The state after one clear is recorded.
    pub open spec fn clear(self) -> RendererState {
        RendererState { pending: self.pending + self.clear_commands(), ..self }
    }

    /// The handle that the next vertex buffer of `len` vertices gets.
    pub open spec fn fresh_buffer(self, len: usize) -> BufferHandle {
        BufferHandle { id: self.next_buffer, len }
    }

    /// The state after a vertex buffer of `len` vertices is created: the
    /// new buffer takes the place of the bound one, the range to draw covers
    /// it, as far as 32 bits can count, and the next buffer gets the next
    /// identifier. Nothing is recorded.
    pub open spec fn create_buffer(self, len: usize) -> RendererState {
        RendererState {
            data: self.bind(self.fresh_buffer(len)),
            range: DrawRange { start: 0, end: len as u32 },
            next_buffer: if self.next_buffer == u64::MAX {
                0
            } else {
                (self.next_buffer + 1) as u64
            },
            ..self
        }
    }

    /// The resources bound once `buffer` is the vertex buffer input.
    pub open spec fn bind(self, buffer: BufferHandle) -> BoundResources {
        BoundResources { vbuf: buffer, ..self.data }
    }

    /// The range drawn for `buffer`: from where the range started up to the
    /// length of the buffer, as far as 32 bits can count.
    pub open spec fn range_of(self, buffer: BufferHandle) -> DrawRange {
        DrawRange { start: self.range.start, end: buffer.len as u32 }
    }

    /// The state after `buffer` is drawn: it is bound, the range ends at its
    /// length, and one draw with these is recorded behind what was pending.
    pub open spec fn render(self, buffer: BufferHandle) -> RendererState {
        RendererState {
            data: self.bind(buffer),
            range: self.range_of(buffer),
            pending: self.pending.push(
                Command::Draw { range: self.range_of(buffer), data: self.bind(buffer) },
            ),
            ..self
        }
    }

    /// The state after a flush: nothing is pending, all else stays.
    pub open spec fn flush(self) -> RendererState {
        RendererState { pending: Seq::empty(), ..self }
    }
}

/// A new buffer takes the place of the bound one at once, and the range to
/// draw is the whole of it: after a buffer is created, the bound buffer is
/// the new one, whatever was bound before, the range starts at its first
/// vertex and ends at its length as far as 32 bits can count, and nothing
/// was recorded.
pub proof fn lemma_created_buffer_is_current(s: RendererState, vertices: Seq<Vertex>)
    requires
        vertices.len() <= usize::MAX,
    ensures
        ({
            let len = vertices.len() as usize;
            let after = s.create_buffer(len);
            &&& after.data.vbuf == s.fresh_buffer(len)
            &&& after.data.vbuf.len == vertices.len()
            &&& after.range == DrawRange { start: 0, end: after.data.vbuf.len as u32 }
            &&& vertices.len() <= u32::MAX ==> after.range.count() == vertices.len()
            &&& after.pending == s.pending
            &&& after.data == s.bind(s.fresh_buffer(len))
        }),
{
}

/// A buffer drawn right after it was created is drawn whole: the draw that
/// is recorded reads the new buffer, starts at its first vertex and counts as
/// many vertices as were uploaded. For no vertices it counts none. This holds
/// for as many vertices as 32 bits can count.
pub proof fn lemma_created_buffer_is_drawn_whole(s: RendererState, vertices: Seq<Vertex>)
    requires
        vertices.len() <= u32::MAX,
    ensures
        ({
            let len = vertices.len() as usize;
            let buffer = s.fresh_buffer(len);
            let after = s.create_buffer(len).render(buffer);
            &&& buffer.len == vertices.len()
            &&& after.data.vbuf == buffer
            &&& after.pending == s.pending.push(
                Command::Draw {
                    range: DrawRange { start: 0, end: len as u32 },
                    data: s.bind(buffer),
                },
            )
            &&& after.range.count() == vertices.len()
            &&& vertices.len() == 0 ==> after.range.count() == 0
        }),
{
}

/// A frame without draws hands over its three clears and nothing else:
/// after both matrices are set and one clear is recorded, what a flush hands
/// over is what was pending before, then the clear of the color target, of
/// the depth and of the stencil, in this order. None of the three is a draw,
/// and an encoder that was empty before holds these three alone.
pub proof fn lemma_frame_without_draws(s: RendererState, projection: Matrix4, view: Matrix4)
    ensures
        ({
            let recorded = s.set_projection(projection).set_view(view).clear();
            let clears = s.clear_commands();
            &&& recorded.pending == s.pending + clears
            &&& clears.len() == 3
            &&& clears[0] == Command::ClearColor { target: s.data.out_color, value: s.clear_color }
            &&& clears[1] == Command::ClearDepth { target: s.data.out_depth, depth: s.clear_depth }
            &&& clears[2] == Command::ClearStencil {
                target: s.data.out_depth,
                stencil: s.clear_stencil,
            }
            &&& forall|i: int| 0 <= i < 3 ==> (#[trigger] clears[i]).is_clear() && !clears[i].is_draw()
            &&& s.pending.len() == 0 ==> recorded.pending == clears
            &&& recorded.flush().pending.len() == 0
            &&& recorded.data.projection == projection
            &&& recorded.data.view == view
        }),
{
    let recorded = s.set_projection(projection).set_view(view).clear();
    let clears = s.clear_commands();
    assert(recorded.pending == s.pending + clears);
    if s.pending.len() == 0 {
        assert(s.pending + clears =~= clears);
    }
}

/// Draws are recorded one by one, in the order of the calls: after two
/// buffers are rendered, what is pending is what was pending before, then
/// a draw that reads the first buffer, then a draw that reads the second.
/// Each draw carries the matrices, the texture and the targets as they were
/// bound at its call.
pub proof fn lemma_draws_keep_call_order(s: RendererState, first: BufferHandle, second: BufferHandle)
    ensures
        ({
            let after = s.render(first).render(second);
            let n = s.pending.len() as int;
            &&& after.pending.len() == n + 2
            &&& after.pending.subrange(0, n) == s.pending
            &&& after.pending[n] == Command::Draw { range: s.range_of(first), data: s.bind(first) }
            &&& after.pending[n + 1] == Command::Draw {
                range: s.range_of(second),
                data: s.bind(second),
            }
            &&& after.pending[n].is_draw() && after.pending[n + 1].is_draw()
            &&& s.bind(first).vbuf == first && s.bind(second).vbuf == second
            &&& after.flush().pending.len() == 0
        }),
{
    let after = s.render(first).render(second);
    let n = s.pending.len() as int;
    assert(after.pending.subrange(0, n) =~= s.pending);
}

/// Whatever is done to a renderer, but a flush, what was recorded stays as
/// it was and stays in front. Only a render records a draw: setting a
/// matrix or the clear color and creating a buffer record nothing, and what
/// a clear records are clears.
pub proof fn lemma_recorded_commands_stay(s: RendererState, m: Matrix4, color: [u32; 4], len: usize, buffer: BufferHandle)
    ensures
        s.set_projection(m).pending == s.pending,
        s.set_view(m).pending == s.pending,
        s.set_clear_color(color).pending == s.pending,
        s.create_buffer(len).pending == s.pending,
        s.pending.is_prefix_of(s.clear().pending),
        s.pending.is_prefix_of(s.render(buffer).pending),
        forall|i: int|
            s.pending.len() <= i < s.clear().pending.len() ==> (#[trigger] s.clear().pending[i]).is_clear()
                && !s.clear().pending[i].is_draw(),
{
}

/// Every operation keeps a well-formed renderer well-formed.
pub proof fn lemma_operations_keep_wf(s: RendererState, m: Matrix4, color: [u32; 4], len: usize, buffer: BufferHandle)
    requires
        s.wf(),
    ensures
        s.set_projection(m).wf(),
        s.set_view(m).wf(),
        s.set_clear_color(color).wf(),
        s.clear().wf(),
        s.create_buffer(len).wf(),
        s.render(buffer).wf(),
        s.flush().wf(),
{
}

} // verus!
