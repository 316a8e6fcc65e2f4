//! The device calls that the library decides on.
//!
//! An operation of the library never reaches a device. It appends the calls it
//! has decided on to the [`GlContext`](crate::context::GlContext) it is given,
//! as [`GlCommand`] values, in the order in which they are to be made. The
//! caller replays them on the real context.
//!
//! Native objects are named by a [`Handle`] that the caller chose when it
//! created them. A 32-bit float travels as its IEEE-754 bit pattern.

use vstd::prelude::*;

verus! {

/// Name of one native object (buffer, texture, shader, uniform location, ...).
#[derive(Clone, Copy, Debug, PartialEq, Eq, Hash, Structural)]
pub struct Handle(pub u32);

/// One device call with its arguments.
#[derive(Clone, Debug, PartialEq, Eq)]
pub enum GlCommand {
    // Capabilities, fixed-function state and clears.
    /// `enable(capability)`
    Enable(u32),
    /// `disable(capability)`
    Disable(u32),
    /// `blendFunc(sfactor, dfactor)`
    BlendFunc { sfactor: u32, dfactor: u32 },
    /// `pixelStorei(pname, param)`
    PixelStorei { pname: u32, param: i32 },
    /// `viewport(x, y, width, height)`
    Viewport { x: i32, y: i32, width: i32, height: i32 },
    /// Sets the width and height of the canvas behind the context.
    ResizeCanvas { width: u32, height: u32 },
    /// `clearColor(red, green, blue, alpha)`, each an `f32` bit pattern.
    ClearColor { red: u32, green: u32, blue: u32, alpha: u32 },
    /// `clear(mask)`
    Clear(u32),
    // Vertex arrays, buffers and draws.
    /// `bindVertexArray(array)`
    BindVertexArray(Option<Handle>),
    /// `bindBuffer(target, buffer)`
    BindBuffer { target: u32, buffer: Option<Handle> },
    /// `bufferData(target, data, usage)` with `data` an array of `f32` bit patterns.
    BufferDataF32 { target: u32, data: Vec<u32>, usage: u32 },
    /// `bufferData(target, data, usage)` with `data` an array of 16-bit indices.
    BufferDataU16 { target: u32, data: Vec<u16>, usage: u32 },
    /// `enableVertexAttribArray(index)`
    EnableVertexAttribArray(u32),
    /// `vertexAttribPointer(index, size, type, normalized, stride, offset)`, stride and offset in bytes.
    VertexAttribPointer { index: u32, size: i32, data_type: u32, normalized: bool, stride: i32, offset: i32 },
    /// `vertexAttribDivisor(index, divisor)`
    VertexAttribDivisor { index: u32, divisor: u32 },
    /// `drawElements(mode, count, type, offset)`
    DrawElements { mode: u32, count: i32, index_type: u32, offset: i32 },
    /// `drawElementsInstanced(mode, count, type, offset, instanceCount)`
    DrawElementsInstanced { mode: u32, count: i32, index_type: u32, offset: i32, instance_count: i32 },
    /// `deleteVertexArray(array)`
    DeleteVertexArray(Handle),
    /// `deleteBuffer(buffer)`
    DeleteBuffer(Handle),
    // Shaders, programs and uniforms.
    /// `shaderSource(shader, source)`
    ShaderSource { shader: Handle, source: String },
    /// `compileShader(shader)`
    CompileShader(Handle),
    /// `attachShader(program, shader)`
    AttachShader { program: Handle, shader: Handle },
    /// `linkProgram(program)`
    LinkProgram(Handle),
    /// `useProgram(program)`
    UseProgram(Option<Handle>),
    /// `deleteShader(shader)`
    DeleteShader(Handle),
    /// `deleteProgram(program)`
    DeleteProgram(Handle),
    /// `uniform1i(location, value)`
    Uniform1i { location: Handle, value: i32 },
    /// `uniform2f(location, x, y)`, each an `f32` bit pattern.
    Uniform2f { location: Handle, x: u32, y: u32 },
    /// `uniform3f(location, x, y, z)`, each an `f32` bit pattern.
    Uniform3f { location: Handle, x: u32, y: u32, z: u32 },
    /// `uniform4f(location, x, y, z, w)`, each an `f32` bit pattern.
    Uniform4f { location: Handle, x: u32, y: u32, z: u32, w: u32 },
    /// `uniformMatrix4fv(location, transpose, data)` with `data` sixteen `f32` bit patterns.
    UniformMatrix4fv { location: Handle, transpose: bool, data: [u32; 16] },
    // Textures.
    /// `activeTexture(unit)`
    ActiveTexture(u32),
    /// `bindTexture(target, texture)`
    BindTexture { target: u32, texture: Option<Handle> },
    /// `texImage2D(target, level, internalformat, width, height, border, format, type, pixels)`
    TexImage2d { target: u32, level: i32, internal_format: i32, width: i32, height: i32, border: i32, format: u32, data_type: u32, pixels: Option<Vec<u8>> },
    /// `texImage2D(target, level, internalformat, format, type, image)` with a decoded image.
    TexImage2dFromImage { target: u32, level: i32, internal_format: i32, format: u32, data_type: u32, image: Handle },
    /// `texSubImage2D(target, level, xoffset, yoffset, width, height, format, type, pixels)`
    TexSubImage2d { target: u32, level: i32, xoffset: i32, yoffset: i32, width: i32, height: i32, format: u32, data_type: u32, pixels: Vec<u8> },
    /// `texParameteri(target, pname, param)`
    TexParameteri { target: u32, pname: u32, param: i32 },
    /// `generateMipmap(target)`
    GenerateMipmap(u32),
    /// `deleteTexture(texture)`
    DeleteTexture(Handle),
    // Renderbuffers and framebuffers.
    /// `bindRenderbuffer(target, renderbuffer)`
    BindRenderbuffer { target: u32, renderbuffer: Option<Handle> },
    /// `renderbufferStorageMultisample(target, samples, internalformat, width, height)`
    RenderbufferStorageMultisample { target: u32, samples: i32, internal_format: u32, width: i32, height: i32 },
    /// `bindFramebuffer(target, framebuffer)`; no framebuffer means the screen.
    BindFramebuffer { target: u32, framebuffer: Option<Handle> },
    /// `framebufferTexture2D(target, attachment, textarget, texture, level)`
    FramebufferTexture2d { target: u32, attachment: u32, texture_target: u32, texture: Option<Handle>, level: i32 },
    /// `framebufferRenderbuffer(target, attachment, renderbuffertarget, renderbuffer)`
    FramebufferRenderbuffer { target: u32, attachment: u32, renderbuffer_target: u32, renderbuffer: Option<Handle> },
    /// `blitFramebuffer(srcX0, srcY0, srcX1, srcY1, dstX0, dstY0, dstX1, dstY1, mask, filter)`
    BlitFramebuffer { src_x0: i32, src_y0: i32, src_x1: i32, src_y1: i32, dst_x0: i32, dst_y0: i32, dst_x1: i32, dst_y1: i32, mask: u32, filter: u32 },
    /// `deleteRenderbuffer(renderbuffer)`
    DeleteRenderbuffer(Handle),
    /// `deleteFramebuffer(framebuffer)`
    DeleteFramebuffer(Handle),
}

/// A [`GlCommand`] as contracts speak of it: the same call, with the data it
/// carries given as sequences.
pub ghost enum GlCall {
    // Capabilities, fixed-function state and clears.
    Enable(u32),
    Disable(u32),
    BlendFunc { sfactor: u32, dfactor: u32 },
    PixelStorei { pname: u32, param: i32 },
    Viewport { x: i32, y: i32, width: i32, height: i32 },
    ResizeCanvas { width: u32, height: u32 },
    ClearColor { red: u32, green: u32, blue: u32, alpha: u32 },
    Clear(u32),
    // Vertex arrays, buffers and draws.
    BindVertexArray(Option<Handle>),
    BindBuffer { target: u32, buffer: Option<Handle> },
    BufferDataF32 { target: u32, data: Seq<u32>, usage: u32 },
    BufferDataU16 { target: u32, data: Seq<u16>, usage: u32 },
    EnableVertexAttribArray(u32),
    VertexAttribPointer { index: u32, size: i32, data_type: u32, normalized: bool, stride: i32, offset: i32 },
    VertexAttribDivisor { index: u32, divisor: u32 },
    DrawElements { mode: u32, count: i32, index_type: u32, offset: i32 },
    DrawElementsInstanced { mode: u32, count: i32, index_type: u32, offset: i32, instance_count: i32 },
    DeleteVertexArray(Handle),
    DeleteBuffer(Handle),
    // Shaders, programs and uniforms.
    ShaderSource { shader: Handle, source: Seq<char> },
    CompileShader(Handle),
    AttachShader { program: Handle, shader: Handle },
    LinkProgram(Handle),
    UseProgram(Option<Handle>),
    DeleteShader(Handle),
    DeleteProgram(Handle),
    Uniform1i { location: Handle, value: i32 },
    Uniform2f { location: Handle, x: u32, y: u32 },
    Uniform3f { location: Handle, x: u32, y: u32, z: u32 },
    Uniform4f { location: Handle, x: u32, y: u32, z: u32, w: u32 },
    UniformMatrix4fv { location: Handle, transpose: bool, data: Seq<u32> },
    // Textures.
    ActiveTexture(u32),
    BindTexture { target: u32, texture: Option<Handle> },
    TexImage2d { target: u32, level: i32, internal_format: i32, width: i32, height: i32, border: i32, format: u32, data_type: u32, pixels: Option<Seq<u8>> },
    TexImage2dFromImage { target: u32, level: i32, internal_format: i32, format: u32, data_type: u32, image: Handle },
    TexSubImage2d { target: u32, level: i32, xoffset: i32, yoffset: i32, width: i32, height: i32, format: u32, data_type: u32, pixels: Seq<u8> },
    TexParameteri { target: u32, pname: u32, param: i32 },
    GenerateMipmap(u32),
    DeleteTexture(Handle),
    // Renderbuffers and framebuffers.
    BindRenderbuffer { target: u32, renderbuffer: Option<Handle> },
    RenderbufferStorageMultisample { target: u32, samples: i32, internal_format: u32, width: i32, height: i32 },
    BindFramebuffer { target: u32, framebuffer: Option<Handle> },
    FramebufferTexture2d { target: u32, attachment: u32, texture_target: u32, texture: Option<Handle>, level: i32 },
    FramebufferRenderbuffer { target: u32, attachment: u32, renderbuffer_target: u32, renderbuffer: Option<Handle> },
    BlitFramebuffer { src_x0: i32, src_y0: i32, src_x1: i32, src_y1: i32, dst_x0: i32, dst_y0: i32, dst_x1: i32, dst_y1: i32, mask: u32, filter: u32 },
    DeleteRenderbuffer(Handle),
    DeleteFramebuffer(Handle),
}

impl View for GlCommand {
    type V = GlCall;

    open spec fn view(&self) -> GlCall {
        match *self {
            GlCommand::Enable(a) => GlCall::Enable(a),
            GlCommand::Disable(a) => GlCall::Disable(a),
            GlCommand::BlendFunc { sfactor, dfactor } => GlCall::BlendFunc { sfactor, dfactor },
            GlCommand::PixelStorei { pname, param } => GlCall::PixelStorei { pname, param },
            GlCommand::Viewport { x, y, width, height } => GlCall::Viewport { x, y, width, height },
            GlCommand::ResizeCanvas { width, height } => GlCall::ResizeCanvas { width, height },
            GlCommand::ClearColor { red, green, blue, alpha } => GlCall::ClearColor { red, green, blue, alpha },
            GlCommand::Clear(a) => GlCall::Clear(a),
            GlCommand::BindVertexArray(a) => GlCall::BindVertexArray(a),
            GlCommand::BindBuffer { target, buffer } => GlCall::BindBuffer { target, buffer },
            GlCommand::BufferDataF32 { target, data, usage } => GlCall::BufferDataF32 { target, data: data@, usage },
            GlCommand::BufferDataU16 { target, data, usage } => GlCall::BufferDataU16 { target, data: data@, usage },
            GlCommand::EnableVertexAttribArray(a) => GlCall::EnableVertexAttribArray(a),
            GlCommand::VertexAttribPointer { index, size, data_type, normalized, stride, offset } => GlCall::VertexAttribPointer { index, size, data_type, normalized, stride, offset },
            GlCommand::VertexAttribDivisor { index, divisor } => GlCall::VertexAttribDivisor { index, divisor },
            GlCommand::DrawElements { mode, count, index_type, offset } => GlCall::DrawElements { mode, count, index_type, offset },
            GlCommand::DrawElementsInstanced { mode, count, index_type, offset, instance_count } => GlCall::DrawElementsInstanced { mode, count, index_type, offset, instance_count },
            GlCommand::DeleteVertexArray(a) => GlCall::DeleteVertexArray(a),
            GlCommand::DeleteBuffer(a) => GlCall::DeleteBuffer(a),
            GlCommand::ShaderSource { shader, source } => GlCall::ShaderSource { shader, source: source@ },
            GlCommand::CompileShader(a) => GlCall::CompileShader(a),
            GlCommand::AttachShader { program, shader } => GlCall::AttachShader { program, shader },
            GlCommand::LinkProgram(a) => GlCall::LinkProgram(a),
            GlCommand::UseProgram(a) => GlCall::UseProgram(a),
            GlCommand::DeleteShader(a) => GlCall::DeleteShader(a),
            GlCommand::DeleteProgram(a) => GlCall::DeleteProgram(a),
            GlCommand::Uniform1i { location, value } => GlCall::Uniform1i { location, value },
            GlCommand::Uniform2f { location, x, y } => GlCall::Uniform2f { location, x, y },
            GlCommand::Uniform3f { location, x, y, z } => GlCall::Uniform3f { location, x, y, z },
            GlCommand::Uniform4f { location, x, y, z, w } => GlCall::Uniform4f { location, x, y, z, w },
            GlCommand::UniformMatrix4fv { location, transpose, data } => GlCall::UniformMatrix4fv { location, transpose, data: data@ },
            GlCommand::ActiveTexture(a) => GlCall::ActiveTexture(a),
            GlCommand::BindTexture { target, texture } => GlCall::BindTexture { target, texture },
            GlCommand::TexImage2d { target, level, internal_format, width, height, border, format, data_type, pixels } => GlCall::TexImage2d { target, level, internal_format, width, height, border, format, data_type, pixels: match pixels {
                    Some(p) => Some(p@),
                    None => None,
                } },
            GlCommand::TexImage2dFromImage { target, level, internal_format, format, data_type, image } => GlCall::TexImage2dFromImage { target, level, internal_format, format, data_type, image },
            GlCommand::TexSubImage2d { target, level, xoffset, yoffset, width, height, format, data_type, pixels } => GlCall::TexSubImage2d { target, level, xoffset, yoffset, width, height, format, data_type, pixels: pixels@ },
            GlCommand::TexParameteri { target, pname, param } => GlCall::TexParameteri { target, pname, param },
            GlCommand::GenerateMipmap(a) => GlCall::GenerateMipmap(a),
            GlCommand::DeleteTexture(a) => GlCall::DeleteTexture(a),
            GlCommand::BindRenderbuffer { target, renderbuffer } => GlCall::BindRenderbuffer { target, renderbuffer },
            GlCommand::RenderbufferStorageMultisample { target, samples, internal_format, width, height } => GlCall::RenderbufferStorageMultisample { target, samples, internal_format, width, height },
            GlCommand::BindFramebuffer { target, framebuffer } => GlCall::BindFramebuffer { target, framebuffer },
            GlCommand::FramebufferTexture2d { target, attachment, texture_target, texture, level } => GlCall::FramebufferTexture2d { target, attachment, texture_target, texture, level },
            GlCommand::FramebufferRenderbuffer { target, attachment, renderbuffer_target, renderbuffer } => GlCall::FramebufferRenderbuffer { target, attachment, renderbuffer_target, renderbuffer },
            GlCommand::BlitFramebuffer { src_x0, src_y0, src_x1, src_y1, dst_x0, dst_y0, dst_x1, dst_y1, mask, filter } => GlCall::BlitFramebuffer { src_x0, src_y0, src_x1, src_y1, dst_x0, dst_y0, dst_x1, dst_y1, mask, filter },
            GlCommand::DeleteRenderbuffer(a) => GlCall::DeleteRenderbuffer(a),
            GlCommand::DeleteFramebuffer(a) => GlCall::DeleteFramebuffer(a),
        }
    }
}

/// The calls that a list of commands stands for, in order.
pub open spec fn calls_of(commands: Seq<GlCommand>) -> Seq<GlCall> {
    commands.map_values(|command: GlCommand| command@)
}

} // verus!
