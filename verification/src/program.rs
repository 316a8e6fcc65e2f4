//! Shaders and programs.
//!
//! The device compiles and links. Whether it succeeded is known only once
//! it has been asked, so a shader and a program are made in two steps: the
//! first decides the calls and gives a pending object, the second takes the
//! device's answer and gives the finished object or the failure.

use vstd::prelude::*;
use std::marker::PhantomData;
use std::rc::Rc;
use crate::command::{GlCall, GlCommand, Handle};
use crate::context::{GlContext, GlState};
use crate::error::{CreationFailed, FailureReason, ResourceKind};
use crate::gl;
use crate::ids::ProgramId;
use crate::uniforms::GlUniforms;

verus! {

/// Another owner of the value that `shared` owns.
///
/// Calls `Rc::clone`, which hands out a pointer to the same allocation and
/// counts one owner more. The value behind both is one and the same.
#[verifier::external_body]
fn share<T>(shared: &Rc<T>) -> (another: Rc<T>)
    ensures
        another == *shared,
{
    Rc::clone(shared)
}

/// The stage of the pipeline that a shader is for.
#[derive(Clone, Copy, Debug, PartialEq, Eq, Structural)]
pub enum ShaderType {
    Vertex,
    Fragment,
}

impl ShaderType {
    /// The device's name for this stage.
    pub open spec fn spec_as_gl(self) -> u32 {
        match self {
            ShaderType::Vertex => gl::VERTEX_SHADER,
            ShaderType::Fragment => gl::FRAGMENT_SHADER,
        }
    }

    /// The device's name for this stage.
    pub fn as_gl(self) -> (name: u32)
        ensures
            name == self.spec_as_gl(),
    {
        match self {
            ShaderType::Vertex => gl::VERTEX_SHADER,
            ShaderType::Fragment => gl::FRAGMENT_SHADER,
        }
    }
}

/// A compiled shader. It owns one native shader, which `release` deletes.
#[derive(Debug)]
pub struct Shader {
    shader: Handle,
    shader_type: ShaderType,
}

/// A shader that has been handed to the compiler and waits for the
/// device's verdict. `complete` turns it into a [`Shader`] or releases it.
#[derive(Debug)]
pub struct PendingShader {
    shader: Handle,
    shader_type: ShaderType,
}

impl Shader {
    /// The native shader.
    pub closed spec fn handle(&self) -> Handle {
        self.shader
    }

    /// The stage that the shader is for.
    pub closed spec fn stage(&self) -> ShaderType {
        self.shader_type
    }

    /// The native shader.
    pub fn native(&self) -> (shader: Handle)
        ensures
            shader == self.handle(),
    {
        self.shader
    }

    /// The stage that the shader is for.
    pub fn shader_type(&self) -> (shader_type: ShaderType)
        ensures
            shader_type == self.stage(),
    {
        self.shader_type
    }

    /// Gives the native shader back to the device. The shader is gone with
    /// this call, so it cannot be released twice or used afterwards.
    pub fn release(self, context: &mut GlContext)
        ensures
            final(context)@ == old(context)@.emit(GlCall::DeleteShader(self.handle())),
    {
        context.emit(GlCommand::DeleteShader(self.shader));
    }
}

impl PendingShader {
    /// The native shader.
    pub closed spec fn handle(&self) -> Handle {
        self.shader
    }

    /// The stage that the shader is for.
    pub closed spec fn stage(&self) -> ShaderType {
        self.shader_type
    }

    /// Ends the construction with the device's answer: whether the shader
    /// compiled, and the log if it did not. A compiled shader is handed
    /// out. Otherwise the native shader is released, and the log is told as
    /// the reason, word for word.
    pub fn complete(self, context: &mut GlContext, compiled: bool, log: String) -> (made: Result<
        Shader,
        CreationFailed,
    >)
        ensures
            compiled ==> {
                &&& made matches Ok(shader)
                &&& shader.handle() == self.handle()
                &&& shader.stage() == self.stage()
                &&& final(context)@ == old(context)@
            },
            !compiled ==> {
                &&& made == Err::<Shader, CreationFailed>(
                    CreationFailed {
                        kind: ResourceKind::Shader,
                        reason: FailureReason::CompileError(log),
                    },
                )
                &&& final(context)@ == old(context)@.emit(GlCall::DeleteShader(self.handle()))
            },
    {
        if !compiled {
            context.emit(GlCommand::DeleteShader(self.shader));
            return Err(
                CreationFailed {
                    kind: ResourceKind::Shader,
                    reason: FailureReason::CompileError(log),
                },
            );
        }
        Ok(Shader { shader: self.shader, shader_type: self.shader_type })
    }
}

/// The state after `load_shader`.
pub open spec fn shader_loaded(state: GlState, shader: Handle, source: Seq<char>) -> GlState {
    state.emit(GlCall::ShaderSource { shader, source }).emit(GlCall::CompileShader(shader))
}

/// Hands `source` to the native shader `shader`, which the caller created
/// for the stage `shader_type`, and has it compiled. The device has to be
/// asked next whether that went well; `complete` takes the answer.
pub fn load_shader(
    context: &mut GlContext,
    shader: Handle,
    shader_type: ShaderType,
    source: &str,
) -> (pending: PendingShader)
    ensures
        pending.handle() == shader,
        pending.stage() == shader_type,
        final(context)@ == shader_loaded(old(context)@, shader, source@),
{
    context.emit(GlCommand::ShaderSource { shader, source: source.to_owned() });
    context.emit(GlCommand::CompileShader(shader));
    PendingShader { shader, shader_type }
}

/// What all holders of one program share.
#[derive(Debug)]
pub struct GlProgramInner<U: GlUniforms> {
    program: Handle,
    gl_uniforms: U,
    id: ProgramId,
    vert_shader: Shader,
    frag_shader: Shader,
}

impl<U: GlUniforms> GlProgramInner<U> {
    /// The native program.
    pub closed spec fn handle(&self) -> Handle {
        self.program
    }

    /// The vertex shader of the program.
    pub closed spec fn vert_shader(&self) -> Shader {
        self.vert_shader
    }

    /// The fragment shader of the program.
    pub closed spec fn frag_shader(&self) -> Shader {
        self.frag_shader
    }
}

/// A linked program, with the locations of its uniforms.
///
/// A program can have many holders, each made from another by `clone`. The
/// native program and its two shaders are deleted when the last holder
/// releases it.
#[derive(Debug)]
pub struct GlProgram<U: GlUniforms> {
    inner: Rc<GlProgramInner<U>>,
}

/// A program that has been handed to the linker and waits for the device's
/// verdict. `complete` turns it into a [`GlProgram`] or releases it.
#[derive(Debug)]
pub struct PendingProgram<U: GlUniforms> {
    program: Handle,
    vert_shader: Shader,
    frag_shader: Shader,
    phantom: PhantomData<U>,
}

impl<U: GlUniforms> Clone for GlProgram<U> {
    /// Another holder of the same program.
    fn clone(&self) -> (another: GlProgram<U>)
        ensures
            another == *self,
    {
        GlProgram { inner: share(&self.inner) }
    }
}

impl<U: GlUniforms> PendingProgram<U> {
    /// The native program.
    pub closed spec fn handle(&self) -> Handle {
        self.program
    }

    /// The vertex shader of the program.
    pub closed spec fn vert_shader(&self) -> Shader {
        self.vert_shader
    }

    /// The fragment shader of the program.
    pub closed spec fn frag_shader(&self) -> Shader {
        self.frag_shader
    }

    /// Ends the construction with the device's answer: whether the program
    /// linked, and the log if it did not. For a linked program the holder
    /// of its uniforms is made from `uniform_locations`, where the caller
    /// found the uniforms named by `U::names`, and the program is handed
    /// out. Otherwise the native program and both shaders are released, and
    /// the log is told as the reason, word for word.
    pub fn complete(
        self,
        context: &mut GlContext,
        linked: bool,
        log: String,
        uniform_locations: &[Handle],
    ) -> (made: Result<GlProgram<U>, CreationFailed>)
        ensures
            linked ==> {
                &&& made matches Ok(program)
                &&& program.handle() == self.handle()
                &&& program.vert_shader() == self.vert_shader()
                &&& program.frag_shader() == self.frag_shader()
                &&& final(context)@ == old(context)@
            },
            !linked ==> {
                &&& made == Err::<GlProgram<U>, CreationFailed>(
                    CreationFailed {
                        kind: ResourceKind::Program,
                        reason: FailureReason::LinkError(log),
                    },
                )
                &&& final(context)@ == old(context)@.emit_all(
                    GlProgram::<U>::release_calls(
                        self.handle(),
                        self.vert_shader().handle(),
                        self.frag_shader().handle(),
                    ),
                )
            },
    {
        if !linked {
            context.emit(GlCommand::DeleteProgram(self.program));
            self.vert_shader.release(context);
            self.frag_shader.release(context);
            assert(context@.calls =~= old(context)@.calls + GlProgram::<U>::release_calls(
                self.handle(),
                self.vert_shader().handle(),
                self.frag_shader().handle(),
            ));
            return Err(
                CreationFailed { kind: ResourceKind::Program, reason: FailureReason::LinkError(log) },
            );
        }
        let gl_uniforms = U::new(uniform_locations);
        Ok(
            GlProgram {
                inner: Rc::new(
                    GlProgramInner {
                        program: self.program,
                        gl_uniforms,
                        id: ProgramId::new(),
                        vert_shader: self.vert_shader,
                        frag_shader: self.frag_shader,
                    },
                ),
            },
        )
    }
}

impl<U: GlUniforms> GlProgram<U> {
    /// The native program.
    pub closed spec fn handle(&self) -> Handle {
        self.inner.program
    }

    /// The identity under which the cache knows the program.
    pub closed spec fn id(&self) -> ProgramId {
        self.inner.id
    }

    /// The holder of the uniform locations.
    pub closed spec fn uniforms(&self) -> U {
        self.inner.gl_uniforms
    }

    /// The vertex shader of the program.
    pub closed spec fn vert_shader(&self) -> Shader {
        self.inner.vert_shader
    }

    /// The fragment shader of the program.
    pub closed spec fn frag_shader(&self) -> Shader {
        self.inner.frag_shader
    }

    /// The state after `new`: both shaders are attached, and the program
    /// is linked.
    pub open spec fn linked(
        state: GlState,
        program: Handle,
        vert_shader: Handle,
        frag_shader: Handle,
    ) -> GlState {
        state.emit(GlCall::AttachShader { program, shader: vert_shader }).emit(
            GlCall::AttachShader { program, shader: frag_shader },
        ).emit(GlCall::LinkProgram(program))
    }

    /// The calls that give a program and its shaders back to the device.
    pub open spec fn release_calls(
        program: Handle,
        vert_shader: Handle,
        frag_shader: Handle,
    ) -> Seq<GlCall> {
        seq![
            GlCall::DeleteProgram(program),
            GlCall::DeleteShader(vert_shader),
            GlCall::DeleteShader(frag_shader),
        ]
    }

    /// The state after `bind`.
    pub open spec fn bound(&self, state: GlState) -> GlState {
        state.use_program(self.id(), self.handle())
    }

    /// Attaches the two compiled shaders to the native program `program`
    /// and has it linked. The device has to be asked next whether that
    /// went well; `complete` takes the answer.
    pub fn new(
        context: &mut GlContext,
        program: Handle,
        vert_shader: Shader,
        frag_shader: Shader,
    ) -> (pending: PendingProgram<U>)
        ensures
            pending.handle() == program,
            pending.vert_shader() == vert_shader,
            pending.frag_shader() == frag_shader,
            final(context)@ == Self::linked(
                old(context)@,
                program,
                vert_shader.handle(),
                frag_shader.handle(),
            ),
    {
        context.emit(GlCommand::AttachShader { program, shader: vert_shader.native() });
        context.emit(GlCommand::AttachShader { program, shader: frag_shader.native() });
        context.emit(GlCommand::LinkProgram(program));
        PendingProgram { program, vert_shader, frag_shader, phantom: PhantomData }
    }

    /// Puts the program to use, unless the cache holds it.
    pub fn bind(&self, context: &mut GlContext)
        ensures
            final(context)@ == self.bound(old(context)@),
    {
        context.use_program(self.inner.id, self.inner.program);
    }

    /// The native program.
    pub fn native(&self) -> (program: Handle)
        ensures
            program == self.handle(),
    {
        self.inner.program
    }

    /// The holder of the uniform locations.
    pub fn gl_uniforms(&self) -> (gl_uniforms: &U)
        ensures
            *gl_uniforms == self.uniforms(),
    {
        &self.inner.gl_uniforms
    }

    /// The state after the last holder has let go of a program: where it
    /// got the program out, the native program and its two shaders are
    /// given back to the device; where it got nothing, because the program
    /// has other holders yet, nothing happens.
    pub open spec fn released(state: GlState, last: Option<GlProgramInner<U>>) -> GlState {
        match last {
            Some(inner) => state.emit_all(
                Self::release_calls(
                    inner.handle(),
                    inner.vert_shader().handle(),
                    inner.frag_shader().handle(),
                ),
            ),
            None => state,
        }
    }

    /// Ends the life of a program, given what came out of its last shared
    /// pointer: deletes the native program and its two shaders if the
    /// program itself came out, and does nothing if nothing came out.
    pub fn release_inner(last: Option<GlProgramInner<U>>, context: &mut GlContext)
        ensures
            final(context)@ == Self::released(old(context)@, last),
    {
        match last {
            Some(inner) => {
                context.emit(GlCommand::DeleteProgram(inner.program));
                inner.vert_shader.release(context);
                inner.frag_shader.release(context);
                assert(context@.calls =~= old(context)@.calls + Self::release_calls(
                    inner.handle(),
                    inner.vert_shader().handle(),
                    inner.frag_shader().handle(),
                ));
            },
            None => {},
        }
    }

    /// Lets go of the program. The last holder to do so gives the native
    /// program and its two shaders back to the device; for every other
    /// holder nothing happens on the device. Which of the two this holder
    /// is depends on the other holders alone: the shared pointer is asked
    /// for the program, and `release_inner` acts on its answer.
    pub fn release(self, context: &mut GlContext)
        ensures
            final(context)@ == old(context)@ || final(context)@ == old(context)@.emit_all(
                Self::release_calls(
                    self.handle(),
                    self.vert_shader().handle(),
                    self.frag_shader().handle(),
                ),
            ),
    {
        Self::release_inner(Rc::into_inner(self.inner), context);
    }
}

} // verus!
