//! A renderer for textured triangles that records the commands of a frame
//! and hands them over to whoever drives the graphics device.

pub mod command;
pub mod matrix;
pub mod pipeline;
pub mod renderer;
pub mod resource;
pub mod state;
pub mod vertex;

pub use command::{Command, DrawRange};
pub use matrix::Matrix4;
pub use pipeline::PipelineDescriptor;
pub use renderer::Renderer;
pub use resource::{BoundResources, BufferHandle, ColorTarget, DepthTarget, Texture};
pub use vertex::Vertex;
