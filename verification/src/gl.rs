//! The numeric values of the WebGL 2 enumerants that the library passes to the
//! device. They are part of the WebGL 2 interface and the same on every device.

use vstd::prelude::*;

verus! {

// Capabilities that `enable` and `disable` switch.
pub const BLEND: u32 = 0x0BE2;

pub const CULL_FACE: u32 = 0x0B44;

pub const DEPTH_TEST: u32 = 0x0B71;

// Blend factors.
pub const ONE: u32 = 0x0001;

pub const ONE_MINUS_SRC_ALPHA: u32 = 0x0303;

// Pixel-store parameters.
pub const UNPACK_ALIGNMENT: u32 = 0x0CF5;

// Buffer binding points.
pub const ARRAY_BUFFER: u32 = 0x8892;

pub const ELEMENT_ARRAY_BUFFER: u32 = 0x8893;

// Buffer usage hints.
pub const STREAM_DRAW: u32 = 0x88E0;

pub const STATIC_DRAW: u32 = 0x88E4;

pub const DYNAMIC_DRAW: u32 = 0x88E8;

// Primitive kinds.
pub const POINTS: u32 = 0x0000;

pub const LINES: u32 = 0x0001;

pub const TRIANGLES: u32 = 0x0004;

// Component types.
pub const UNSIGNED_BYTE: u32 = 0x1401;

pub const UNSIGNED_SHORT: u32 = 0x1403;

pub const FLOAT: u32 = 0x1406;

// Shader stages.
pub const FRAGMENT_SHADER: u32 = 0x8B30;

pub const VERTEX_SHADER: u32 = 0x8B31;

// Texture targets and units.
pub const TEXTURE_2D: u32 = 0x0DE1;

pub const TEXTURE0: u32 = 0x84C0;

// Texture parameters and their values.
pub const TEXTURE_MAG_FILTER: u32 = 0x2800;

pub const TEXTURE_MIN_FILTER: u32 = 0x2801;

pub const TEXTURE_WRAP_S: u32 = 0x2802;

pub const TEXTURE_WRAP_T: u32 = 0x2803;

pub const NEAREST: u32 = 0x2600;

pub const LINEAR: u32 = 0x2601;

pub const NEAREST_MIPMAP_NEAREST: u32 = 0x2700;

pub const LINEAR_MIPMAP_NEAREST: u32 = 0x2701;

pub const NEAREST_MIPMAP_LINEAR: u32 = 0x2702;

pub const LINEAR_MIPMAP_LINEAR: u32 = 0x2703;

pub const REPEAT: u32 = 0x2901;

pub const CLAMP_TO_EDGE: u32 = 0x812F;

// Pixel formats.
pub const RED: u32 = 0x1903;

pub const RGB: u32 = 0x1907;

pub const RGBA: u32 = 0x1908;

// Sized internal formats.
pub const R8: u32 = 0x8229;

pub const RGB8: u32 = 0x8051;

pub const RGBA8: u32 = 0x8058;

pub const SRGB8: u32 = 0x8C41;

pub const SRGB8_ALPHA8: u32 = 0x8C43;

// Renderbuffer and framebuffer targets.
pub const RENDERBUFFER: u32 = 0x8D41;

pub const FRAMEBUFFER: u32 = 0x8D40;

pub const READ_FRAMEBUFFER: u32 = 0x8CA8;

pub const DRAW_FRAMEBUFFER: u32 = 0x8CA9;

pub const COLOR_ATTACHMENT0: u32 = 0x8CE0;

// Results of a framebuffer completeness check.
pub const FRAMEBUFFER_COMPLETE: u32 = 0x8CD5;

pub const FRAMEBUFFER_INCOMPLETE_ATTACHMENT: u32 = 0x8CD6;

pub const FRAMEBUFFER_INCOMPLETE_MISSING_ATTACHMENT: u32 = 0x8CD7;

pub const FRAMEBUFFER_UNSUPPORTED: u32 = 0x8CDD;

// Buffers that `clear` and `blit_framebuffer` select.
pub const DEPTH_BUFFER_BIT: u32 = 0x0100;

pub const COLOR_BUFFER_BIT: u32 = 0x4000;

/// Number of texture units whose binding the cache tracks.
pub const TEXTURE_UNITS: u32 = 32;

} // verus!
