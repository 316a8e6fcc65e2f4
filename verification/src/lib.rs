//! A verified core for a type-safe layer over WebGL 2.
//!
//! WebGL is stateful: every call acts on whatever is bound to a slot of the
//! device at that moment. This library keeps track of what is bound, leaves
//! out the binds that would change nothing, lays out vertex attributes, and
//! ties every native object to an owner that releases it once.
//!
//! The library never talks to a device. An operation decides which device
//! calls it needs and records them, in order, in the [`GlContext`] it is
//! given; the caller makes them on the real context. What the device has to
//! be asked (whether a shader compiled, where a program has an attribute)
//! the caller asks, and hands the answer in. So every decision is a function
//! of plain values, and its contract says exactly which calls are recorded
//! and what the cache holds afterwards.
//!
//! - [`command`]: the device calls, and the handles that name native objects
//! - [`context`]: the binding cache and the recording context
//! - [`device`]: what the device has bound after the recorded calls, and the
//!   proof that the cache never contradicts it
//! - [`surface`], [`framebuffer`], [`texture`], [`program`], [`uniforms`]:
//!   the resources
//! - [`vertex`], [`mesh`]: vertex schemas and layouts, mesh data, and the
//!   draw dispatch
//! - [`rect`], [`ids`], [`gl`], [`error`]: geometry, identities, the
//!   device's enumerants, and what can go wrong

pub mod command;
pub mod context;
pub mod device;
pub mod error;
pub mod framebuffer;
pub mod gl;
pub mod ids;
pub mod mesh;
pub mod program;
pub mod rect;
pub mod surface;
pub mod texture;
pub mod uniforms;
pub mod vertex;

pub use crate::command::{GlCommand, Handle};
pub use crate::context::{GlContext, GlContextCache, GlFlag};
pub use crate::error::{CapacityExceeded, CreationFailed, FailureReason, ResourceKind, SchemaError};
pub use crate::framebuffer::{Framebuffer, FramebufferAttachment, PendingFramebuffer, Renderbuffer};
pub use crate::ids::{FramebufferId, MeshId, ProgramId, TextureId};
pub use crate::mesh::{
    setup_vertex_attrib, setup_vertex_attribs, DrawMode, Lines, Mesh, MeshBuilder, MeshIndex,
    MeshUsage, Points, Primitive, Triangles,
};
pub use crate::program::{load_shader, GlProgram, PendingProgram, PendingShader, Shader, ShaderType};
pub use crate::rect::{Point2, Rect, Vector2};
pub use crate::surface::{ClearBuffer, ScreenSurface, Surface};
pub use crate::texture::{MagFilter, MinFilter, Texture2d, TextureFormat, WrapMode};
pub use crate::uniforms::{GlUniforms, Uniforms};
pub use crate::vertex::{Attribute, AttributeSlot, Attributes, VertexData, VertexLayout};
