//! The binding cache and the context that records device calls.

use vstd::prelude::*;
use crate::command::{calls_of, GlCall, GlCommand, Handle};
use crate::gl;
use crate::ids::{FramebufferId, MeshId, ProgramId, TextureId};
use crate::mesh::DrawMode;
use crate::rect::{Rect, Vector2};
use crate::surface::{ScreenSurface, Surface};

verus! {

/// What is bound to each slot that the library mediates, as far as known.
///
/// A slot that holds nothing is a slot of which nothing is known: the next
/// bind of anything to it needs a device call.
pub struct GlContextCache {
    pub draw_mode: Option<DrawMode>,
    pub bound_mesh: Option<MeshId>,
    pub bound_program: Option<ProgramId>,
    pub bound_framebuffer: Option<FramebufferId>,
    pub bound_read_framebuffer: Option<FramebufferId>,
    pub bound_textures: [Option<(u32, TextureId)>; 32],
}

/// The slots of a [`GlContextCache`], with the texture units as a sequence.
pub ghost struct Bindings {
    pub draw_mode: Option<DrawMode>,
    pub bound_mesh: Option<MeshId>,
    pub bound_program: Option<ProgramId>,
    pub bound_framebuffer: Option<FramebufferId>,
    pub bound_read_framebuffer: Option<FramebufferId>,
    pub bound_textures: Seq<Option<(u32, TextureId)>>,
}

impl Bindings {
    /// The cache of a new context: nothing is known of any slot.
    pub open spec fn unknown() -> Bindings {
        Bindings {
            draw_mode: None,
            bound_mesh: None,
            bound_program: None,
            bound_framebuffer: None,
            bound_read_framebuffer: None,
            bound_textures: Seq::new(gl::TEXTURE_UNITS as nat, |unit: int| None),
        }
    }

    pub open spec fn with_draw_mode(self, mode: DrawMode) -> Bindings {
        Bindings { draw_mode: Some(mode), ..self }
    }

    pub open spec fn with_mesh(self, id: MeshId) -> Bindings {
        Bindings { bound_mesh: Some(id), ..self }
    }

    /// The cache after a call that rebinds the array buffer behind its
    /// back: it no longer knows which mesh is bound.
    pub open spec fn without_mesh(self) -> Bindings {
        Bindings { bound_mesh: None, ..self }
    }

    pub open spec fn with_program(self, id: ProgramId) -> Bindings {
        Bindings { bound_program: Some(id), ..self }
    }

    pub open spec fn with_draw_target(self, id: FramebufferId) -> Bindings {
        Bindings { bound_framebuffer: Some(id), ..self }
    }

    pub open spec fn with_read_target(self, id: FramebufferId) -> Bindings {
        Bindings { bound_read_framebuffer: Some(id), ..self }
    }

    pub open spec fn with_texture(self, unit: u32, target: u32, id: TextureId) -> Bindings {
        Bindings {
            bound_textures: self.bound_textures.update(unit as int, Some((target, id))),
            ..self
        }
    }

    /// The cache after a call that rebinds both framebuffer targets behind
    /// its back: it no longer knows either.
    pub open spec fn without_targets(self) -> Bindings {
        Bindings { bound_framebuffer: None, bound_read_framebuffer: None, ..self }
    }
}

impl View for GlContextCache {
    type V = Bindings;

    open spec fn view(&self) -> Bindings {
        Bindings {
            draw_mode: self.draw_mode,
            bound_mesh: self.bound_mesh,
            bound_program: self.bound_program,
            bound_framebuffer: self.bound_framebuffer,
            bound_read_framebuffer: self.bound_read_framebuffer,
            bound_textures: self.bound_textures@,
        }
    }
}

impl GlContextCache {
    /// A cache that knows nothing of any slot.
    pub fn new() -> (cache: Self)
        ensures
            cache@ == Bindings::unknown(),
    {
        let cache = GlContextCache {
            draw_mode: None,
            bound_mesh: None,
            bound_program: None,
            bound_framebuffer: None,
            bound_read_framebuffer: None,
            bound_textures: [None;32],
        };
        assert(cache@.bound_textures =~= Bindings::unknown().bound_textures);
        cache
    }

    /// Records `mode` as the raster mode and says whether the device has to
    /// be told.
    pub fn set_draw_mode(&mut self, mode: DrawMode) -> (changed: bool)
        ensures
            changed == (old(self)@.draw_mode != Some(mode)),
            final(self)@ == old(self)@.with_draw_mode(mode),
    {
        let changed = self.draw_mode != Some(mode);
        self.draw_mode = Some(mode);
        changed
    }

    /// Records `id` as the mesh whose vertex array and vertex buffer are
    /// bound and says whether the device has to be told.
    pub fn bind_mesh(&mut self, id: MeshId) -> (changed: bool)
        ensures
            changed == (old(self)@.bound_mesh != Some(id)),
            final(self)@ == old(self)@.with_mesh(id),
    {
        let changed = self.bound_mesh != Some(id);
        self.bound_mesh = Some(id);
        changed
    }

    /// Forgets which mesh is bound.
    pub fn forget_mesh(&mut self)
        ensures
            final(self)@ == old(self)@.without_mesh(),
    {
        self.bound_mesh = None;
    }

    /// Records `id` as the program in use and says whether the device has to
    /// be told.
    pub fn bind_program(&mut self, id: ProgramId) -> (changed: bool)
        ensures
            changed == (old(self)@.bound_program != Some(id)),
            final(self)@ == old(self)@.with_program(id),
    {
        let changed = self.bound_program != Some(id);
        self.bound_program = Some(id);
        changed
    }

    /// Records `id` as the draw target and says whether the device has to be
    /// told.
    pub fn bind_draw_target(&mut self, id: FramebufferId) -> (changed: bool)
        ensures
            changed == (old(self)@.bound_framebuffer != Some(id)),
            final(self)@ == old(self)@.with_draw_target(id),
    {
        let changed = self.bound_framebuffer != Some(id);
        self.bound_framebuffer = Some(id);
        changed
    }

    /// Records `id` as the read target and says whether the device has to be
    /// told.
    pub fn bind_read_target(&mut self, id: FramebufferId) -> (changed: bool)
        ensures
            changed == (old(self)@.bound_read_framebuffer != Some(id)),
            final(self)@ == old(self)@.with_read_target(id),
    {
        let changed = self.bound_read_framebuffer != Some(id);
        self.bound_read_framebuffer = Some(id);
        changed
    }

    /// Records the texture `id` as bound to `target` on texture unit `unit`
    /// and says whether the device has to be told.
    pub fn bind_texture(&mut self, unit: u32, target: u32, id: TextureId) -> (changed: bool)
        requires
            unit < gl::TEXTURE_UNITS,
        ensures
            changed == (old(self)@.bound_textures[unit as int] != Some((target, id))),
            final(self)@ == old(self)@.with_texture(unit, target, id),
    {
        let changed = match self.bound_textures[unit as usize] {
            Some((bound_target, bound_id)) => bound_target != target || bound_id != id,
            None => true,
        };
        self.bound_textures[unit as usize] = Some((target, id));
        changed
    }

    /// Forgets both framebuffer targets.
    pub fn forget_targets(&mut self)
        ensures
            final(self)@ == old(self)@.without_targets(),
    {
        self.bound_framebuffer = None;
        self.bound_read_framebuffer = None;
    }
}

/// A capability that the library switches on and off.
#[derive(Clone, Copy, Debug, PartialEq, Eq, Structural)]
pub enum GlFlag {
    DepthTest,
    CullFace,
}

impl GlFlag {
    /// The device's name for this capability.
    pub open spec fn spec_as_gl(self) -> u32 {
        match self {
            GlFlag::DepthTest => gl::DEPTH_TEST,
            GlFlag::CullFace => gl::CULL_FACE,
        }
    }

    /// The device's name for this capability.
    pub fn as_gl(self) -> (name: u32)
        ensures
            name == self.spec_as_gl(),
    {
        match self {
            GlFlag::DepthTest => gl::DEPTH_TEST,
            GlFlag::CullFace => gl::CULL_FACE,
        }
    }
}

/// A rendering context: the binding cache, and the device calls that have
/// been decided on and not yet taken away.
///
/// Only the operations of the library record calls and touch the cache, so
/// that the cache and the recorded calls cannot come apart.
pub struct GlContext {
    cache: GlContextCache,
    commands: Vec<GlCommand>,
    // The vertex array and the buffer set aside for instanced rendering.
    instanced_vao: Handle,
    instanced_vbo: Handle,
}

/// A [`GlContext`] as contracts speak of it.
pub ghost struct GlState {
    pub bindings: Bindings,
    pub calls: Seq<GlCall>,
    pub instanced_vao: Handle,
    pub instanced_vbo: Handle,
}

impl GlState {
    /// The same state with `call` recorded last.
    pub open spec fn emit(self, call: GlCall) -> GlState {
        GlState { calls: self.calls.push(call), ..self }
    }

    /// The same state with `calls` recorded last, in their order.
    pub open spec fn emit_all(self, calls: Seq<GlCall>) -> GlState {
        GlState { calls: self.calls + calls, ..self }
    }

    /// The same state with another cache.
    pub open spec fn with_bindings(self, bindings: Bindings) -> GlState {
        GlState { bindings, ..self }
    }

    pub open spec fn enable(self, flag: GlFlag) -> GlState {
        self.emit(GlCall::Enable(flag.spec_as_gl()))
    }

    pub open spec fn disable(self, flag: GlFlag) -> GlState {
        self.emit(GlCall::Disable(flag.spec_as_gl()))
    }

    /// The state after the viewport has been set to `rect`.
    pub open spec fn viewport(self, rect: Rect<i32>) -> GlState {
        self.emit(
            GlCall::Viewport {
                x: rect.start.x,
                y: rect.start.y,
                width: (rect.end.x - rect.start.x) as i32,
                height: (rect.end.y - rect.start.y) as i32,
            },
        )
    }

    /// The state after the target `id` has been bound for drawing: nothing
    /// changes where the cache holds `id` already; otherwise the cache takes
    /// `id`, the device binds `framebuffer`, and the viewport follows.
    pub open spec fn bind_draw_target(
        self,
        id: FramebufferId,
        framebuffer: Option<Handle>,
        viewport: Rect<i32>,
    ) -> GlState {
        if self.bindings.bound_framebuffer == Some(id) {
            self
        } else {
            self.with_bindings(self.bindings.with_draw_target(id)).emit(
                GlCall::BindFramebuffer { target: gl::DRAW_FRAMEBUFFER, framebuffer },
            ).viewport(viewport)
        }
    }

    /// The state after the mesh `id` has been bound: nothing changes where
    /// the cache holds `id` already; otherwise the cache takes `id`, the
    /// device uses the vertex array `vao`, and `vbo` becomes the array
    /// buffer.
    pub open spec fn bind_mesh(self, id: MeshId, vao: Handle, vbo: Handle) -> GlState {
        if self.bindings.bound_mesh == Some(id) {
            self
        } else {
            self.with_bindings(self.bindings.with_mesh(id)).emit(
                GlCall::BindVertexArray(Some(vao)),
            ).emit(GlCall::BindBuffer { target: gl::ARRAY_BUFFER, buffer: Some(vbo) })
        }
    }

    /// The state after the program `id` has been put to use: nothing changes
    /// where the cache holds `id` already; otherwise the cache takes `id` and
    /// the device uses `program`.
    pub open spec fn use_program(self, id: ProgramId, program: Handle) -> GlState {
        if self.bindings.bound_program == Some(id) {
            self
        } else {
            self.with_bindings(self.bindings.with_program(id)).emit(
                GlCall::UseProgram(Some(program)),
            )
        }
    }

    /// The state after the texture `id` has been bound to `target` on
    /// texture unit `unit`: nothing changes where the cache holds just that
    /// for the unit; otherwise the cache takes it, and the device selects the
    /// unit and binds `texture`.
    pub open spec fn bind_texture(
        self,
        unit: u32,
        target: u32,
        id: TextureId,
        texture: Handle,
    ) -> GlState {
        if self.bindings.bound_textures[unit as int] == Some((target, id)) {
            self
        } else {
            self.with_bindings(self.bindings.with_texture(unit, target, id)).emit(
                GlCall::ActiveTexture((gl::TEXTURE0 + unit) as u32),
            ).emit(GlCall::BindTexture { target, texture: Some(texture) })
        }
    }

    /// The state after the target `id` has been bound for reading: nothing
    /// changes where the cache holds `id` already; otherwise the cache takes
    /// `id` and the device binds `framebuffer`. The viewport stays.
    pub open spec fn bind_read_target(self, id: FramebufferId, framebuffer: Option<Handle>) -> GlState {
        if self.bindings.bound_read_framebuffer == Some(id) {
            self
        } else {
            self.with_bindings(self.bindings.with_read_target(id)).emit(
                GlCall::BindFramebuffer { target: gl::READ_FRAMEBUFFER, framebuffer },
            )
        }
    }
}

impl View for GlContext {
    type V = GlState;

    closed spec fn view(&self) -> GlState {
        GlState {
            bindings: self.cache@,
            calls: calls_of(self.commands@),
            instanced_vao: self.instanced_vao,
            instanced_vbo: self.instanced_vbo,
        }
    }
}

impl GlContext {
    /// The calls that prepare a new device context: blending with
    /// premultiplied alpha, tightly packed pixel rows, and the vertex array
    /// and buffer for instanced rendering bound.
    pub open spec fn setup_calls(instanced_vao: Handle, instanced_vbo: Handle) -> Seq<GlCall> {
        seq![
            GlCall::Enable(gl::BLEND),
            GlCall::BlendFunc { sfactor: gl::ONE, dfactor: gl::ONE_MINUS_SRC_ALPHA },
            GlCall::PixelStorei { pname: gl::UNPACK_ALIGNMENT, param: 1 },
            GlCall::BindVertexArray(Some(instanced_vao)),
            GlCall::BindBuffer { target: gl::ARRAY_BUFFER, buffer: Some(instanced_vbo) },
        ]
    }

    /// Creates the context for a device context that has just come into
    /// being, and the surface of its canvas.
    ///
    /// `instanced_vao` and `instanced_vbo` name a vertex array and a buffer
    /// that the caller created for instanced rendering; `canvas_size` is the
    /// size of the canvas.
    pub fn new(instanced_vao: Handle, instanced_vbo: Handle, canvas_size: Vector2<u32>) -> (made: (
        GlContext,
        ScreenSurface,
    ))
        requires
            canvas_size.fits_i32(),
        ensures
            made.0@ == (GlState {
                bindings: Bindings::unknown(),
                calls: Self::setup_calls(instanced_vao, instanced_vbo),
                instanced_vao,
                instanced_vbo,
            }),
            made.1.wf(),
            made.1.extent() == canvas_size,
    {
        let mut context = GlContext {
            cache: GlContextCache::new(),
            commands: Vec::new(),
            instanced_vao,
            instanced_vbo,
        };
        assert(context@.calls =~= Seq::<GlCall>::empty());
        context.emit(GlCommand::Enable(gl::BLEND));
        context.emit(GlCommand::BlendFunc { sfactor: gl::ONE, dfactor: gl::ONE_MINUS_SRC_ALPHA });
        context.emit(GlCommand::PixelStorei { pname: gl::UNPACK_ALIGNMENT, param: 1 });
        context.emit(GlCommand::BindVertexArray(Some(instanced_vao)));
        context.emit(GlCommand::BindBuffer { target: gl::ARRAY_BUFFER, buffer: Some(instanced_vbo) });
        assert(context@.calls =~= Self::setup_calls(instanced_vao, instanced_vbo));
        (context, ScreenSurface::new(canvas_size))
    }

    /// The binding cache.
    pub fn cache(&self) -> (cache: &GlContextCache)
        ensures
            cache@ == self@.bindings,
    {
        &self.cache
    }

    /// The calls recorded and not yet taken away, in order.
    pub fn commands(&self) -> (commands: &Vec<GlCommand>)
        ensures
            calls_of(commands@) == self@.calls,
    {
        &self.commands
    }

    /// The vertex array set aside for instanced rendering.
    pub fn instanced_vao(&self) -> (vao: Handle)
        ensures
            vao == self@.instanced_vao,
    {
        self.instanced_vao
    }

    /// The buffer into which instances are streamed.
    pub fn instanced_vbo(&self) -> (vbo: Handle)
        ensures
            vbo == self@.instanced_vbo,
    {
        self.instanced_vbo
    }

    /// Records one device call.
    pub(crate) fn emit(&mut self, command: GlCommand)
        ensures
            final(self)@ == old(self)@.emit(command@),
    {
        self.commands.push(command);
        assert(calls_of(self.commands@) =~= calls_of(old(self).commands@).push(command@));
    }

    /// Hands out the calls recorded so far, in order, and starts afresh. The
    /// cache stays: it describes the device once these calls are made.
    pub fn take_commands(&mut self) -> (commands: Vec<GlCommand>)
        ensures
            calls_of(commands@) == old(self)@.calls,
            final(self)@ == (GlState { calls: Seq::empty(), ..old(self)@ }),
    {
        let mut commands = Vec::new();
        std::mem::swap(&mut self.commands, &mut commands);
        assert(calls_of(self.commands@) =~= Seq::<GlCall>::empty());
        commands
    }

    /// Sets the viewport of the device to `viewport`.
    pub(crate) fn viewport(&mut self, viewport: &Rect<i32>)
        requires
            viewport.has_size(),
        ensures
            final(self)@ == old(self)@.viewport(*viewport),
    {
        self.emit(
            GlCommand::Viewport {
                x: viewport.start.x,
                y: viewport.start.y,
                width: viewport.end.x - viewport.start.x,
                height: viewport.end.y - viewport.start.y,
            },
        );
    }

    pub(crate) fn enable(&mut self, flag: GlFlag)
        ensures
            final(self)@ == old(self)@.enable(flag),
    {
        self.emit(GlCommand::Enable(flag.as_gl()));
    }

    pub(crate) fn disable(&mut self, flag: GlFlag)
        ensures
            final(self)@ == old(self)@.disable(flag),
    {
        self.emit(GlCommand::Disable(flag.as_gl()));
    }

    /// Records `mode` as the raster mode and says whether the device has to
    /// be told.
    pub(crate) fn set_draw_mode(&mut self, mode: DrawMode) -> (changed: bool)
        ensures
            changed == (old(self)@.bindings.draw_mode != Some(mode)),
            final(self)@ == old(self)@.with_bindings(old(self)@.bindings.with_draw_mode(mode)),
    {
        self.cache.set_draw_mode(mode)
    }

    /// Makes the cache forget both framebuffer targets, for a call that
    /// rebinds them behind its back.
    pub(crate) fn forget_targets(&mut self)
        ensures
            final(self)@ == old(self)@.with_bindings(old(self)@.bindings.without_targets()),
    {
        self.cache.forget_targets();
    }

    /// Makes the cache forget which mesh is bound, for a call that rebinds
    /// the array buffer behind its back.
    pub(crate) fn forget_mesh(&mut self)
        ensures
            final(self)@ == old(self)@.with_bindings(old(self)@.bindings.without_mesh()),
    {
        self.cache.forget_mesh();
    }

    /// Makes the target `id` the draw target, unless the cache holds it, and
    /// then moves the viewport to `viewport`.
    pub(crate) fn bind_draw_target(
        &mut self,
        id: FramebufferId,
        framebuffer: Option<Handle>,
        viewport: &Rect<i32>,
    )
        requires
            viewport.has_size(),
        ensures
            final(self)@ == old(self)@.bind_draw_target(id, framebuffer, *viewport),
    {
        if self.cache.bind_draw_target(id) {
            self.emit(GlCommand::BindFramebuffer { target: gl::DRAW_FRAMEBUFFER, framebuffer });
            self.viewport(viewport);
        }
    }

    /// Binds the mesh `id`, unless the cache holds it: puts its vertex
    /// array `vao` to use and makes its vertex buffer `vbo` the array
    /// buffer.
    pub(crate) fn bind_mesh(&mut self, id: MeshId, vao: Handle, vbo: Handle)
        ensures
            final(self)@ == old(self)@.bind_mesh(id, vao, vbo),
    {
        if self.cache.bind_mesh(id) {
            self.emit(GlCommand::BindVertexArray(Some(vao)));
            // The index buffer belongs to the vertex array and comes with
            // it; the array buffer does not.
            self.emit(GlCommand::BindBuffer { target: gl::ARRAY_BUFFER, buffer: Some(vbo) });
        }
    }

    /// Puts the program `id` to use, unless the cache holds it.
    pub(crate) fn use_program(&mut self, id: ProgramId, program: Handle)
        ensures
            final(self)@ == old(self)@.use_program(id, program),
    {
        if self.cache.bind_program(id) {
            self.emit(GlCommand::UseProgram(Some(program)));
        }
    }

    /// Binds the texture `id` to `target` on texture unit `unit`, unless the
    /// cache holds just that for the unit.
    pub(crate) fn bind_texture(&mut self, unit: u32, target: u32, id: TextureId, texture: Handle)
        requires
            unit < gl::TEXTURE_UNITS,
        ensures
            final(self)@ == old(self)@.bind_texture(unit, target, id, texture),
    {
        if self.cache.bind_texture(unit, target, id) {
            self.emit(GlCommand::ActiveTexture(gl::TEXTURE0 + unit));
            self.emit(GlCommand::BindTexture { target, texture: Some(texture) });
        } else {
            assert(self.cache@.bound_textures =~= old(self).cache@.bound_textures);
        }
    }

    /// Makes the target `id` the read target, unless the cache holds it.
    pub(crate) fn bind_read_target(&mut self, id: FramebufferId, framebuffer: Option<Handle>)
        ensures
            final(self)@ == old(self)@.bind_read_target(id, framebuffer),
    {
        if self.cache.bind_read_target(id) {
            self.emit(GlCommand::BindFramebuffer { target: gl::READ_FRAMEBUFFER, framebuffer });
        }
    }
}

} // verus!
