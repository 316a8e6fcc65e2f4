//! A model of what the device has bound, and the proof that the binding
//! cache never contradicts it.
//!
//! The cache is only worth having if it tells the truth: a bind that is
//! left out because the cache holds the object must find the object bound
//! on the device. This module says what the device has bound after a run
//! of calls, says when a cache is truthful about a device, and proves that
//! the bindings of the library keep it so.

use vstd::prelude::*;
use crate::command::{GlCall, Handle};
use crate::context::{Bindings, GlState};
use crate::gl;
use crate::framebuffer::{Framebuffer, FramebufferAttachment};
use crate::ids::{FramebufferId, MeshId, ProgramId, TextureId};
use crate::mesh::{attribute_calls, layout_calls, slot_calls, DrawMode, Mesh, Primitive};
use crate::program::GlProgram;
use crate::rect::{Rect, Vector2};
use crate::surface::{clear_color_calls, clear_mask, ClearBuffer, ScreenSurface, Surface};
use crate::texture::{MagFilter, MinFilter, Texture2d, WrapMode};
use crate::uniforms::{GlUniforms, TextureUniform};
use crate::vertex::{AttributeSlot, Attributes, VertexData};

verus! {

/// What a device has bound to the slots that the library mediates.
pub ghost struct Device {
    /// The vertex array in use.
    pub vertex_array: Option<Handle>,
    /// The buffer bound as array buffer.
    pub array_buffer: Option<Handle>,
    /// The program in use.
    pub program: Option<Handle>,
    /// The framebuffer bound for drawing; none is the screen.
    pub draw_framebuffer: Option<Handle>,
    /// The framebuffer bound for reading; none is the screen.
    pub read_framebuffer: Option<Handle>,
    /// The texture unit that texture calls act on, counted from zero.
    pub active_unit: int,
    /// The texture bound to each target of each texture unit that has one.
    pub textures: Map<(int, u32), Handle>,
    /// Whether face culling is on.
    pub cull_face: bool,
    /// Whether the depth test is on.
    pub depth_test: bool,
}

impl Device {
    /// The texture bound to `target` on texture unit `unit`.
    pub open spec fn texture_at(self, unit: int, target: u32) -> Option<Handle> {
        if self.textures.contains_key((unit, target)) {
            Some(self.textures[(unit, target)])
        } else {
            None
        }
    }

    /// The device with the capability `capability` switched to `on`.
    pub open spec fn switched(self, capability: u32, on: bool) -> Device {
        if capability == gl::CULL_FACE {
            Device { cull_face: on, ..self }
        } else if capability == gl::DEPTH_TEST {
            Device { depth_test: on, ..self }
        } else {
            self
        }
    }

    /// The device after one call. A call that binds puts its object into
    /// the slot; binding to the combined framebuffer target fills both
    /// framebuffer slots. Deleting an object takes it out of the slots
    /// that hold it, which fall back to nothing, and to the screen in the
    /// case of a framebuffer; a program that is deleted stays in use until
    /// another takes its place. Every other call leaves the slots alone.
    pub open spec fn step(self, call: GlCall) -> Device {
        match call {
            GlCall::BindVertexArray(vertex_array) => Device { vertex_array, ..self },
            GlCall::BindBuffer { target, buffer } => {
                if target == gl::ARRAY_BUFFER {
                    Device { array_buffer: buffer, ..self }
                } else {
                    self
                }
            },
            GlCall::DeleteVertexArray(vertex_array) => {
                if self.vertex_array == Some(vertex_array) {
                    Device { vertex_array: None, ..self }
                } else {
                    self
                }
            },
            GlCall::DeleteBuffer(buffer) => {
                if self.array_buffer == Some(buffer) {
                    Device { array_buffer: None, ..self }
                } else {
                    self
                }
            },
            GlCall::UseProgram(program) => Device { program, ..self },
            GlCall::BindFramebuffer { target, framebuffer } => {
                if target == gl::FRAMEBUFFER {
                    Device { draw_framebuffer: framebuffer, read_framebuffer: framebuffer, ..self }
                } else if target == gl::DRAW_FRAMEBUFFER {
                    Device { draw_framebuffer: framebuffer, ..self }
                } else if target == gl::READ_FRAMEBUFFER {
                    Device { read_framebuffer: framebuffer, ..self }
                } else {
                    self
                }
            },
            GlCall::ActiveTexture(unit) => Device { active_unit: unit - gl::TEXTURE0, ..self },
            GlCall::BindTexture { target, texture } => match texture {
                Some(texture) => Device {
                    textures: self.textures.insert((self.active_unit, target), texture),
                    ..self
                },
                None => Device { textures: self.textures.remove((self.active_unit, target)), ..self },
            },
            GlCall::Enable(capability) => self.switched(capability, true),
            GlCall::Disable(capability) => self.switched(capability, false),
            GlCall::DeleteFramebuffer(framebuffer) => Device {
                draw_framebuffer: if self.draw_framebuffer == Some(framebuffer) {
                    None
                } else {
                    self.draw_framebuffer
                },
                read_framebuffer: if self.read_framebuffer == Some(framebuffer) {
                    None
                } else {
                    self.read_framebuffer
                },
                ..self
            },
            GlCall::DeleteTexture(texture) => Device {
                textures: Map::new(
                    |slot: (int, u32)| self.textures.contains_key(slot) && self.textures[slot] != texture,
                    |slot: (int, u32)| self.textures[slot],
                ),
                ..self
            },
            _ => self,
        }
    }

    /// The device after `calls`, in their order.
    pub open spec fn run(self, calls: Seq<GlCall>) -> Device
        decreases calls.len(),
    {
        if calls.len() == 0 {
            self
        } else {
            self.run(calls.drop_last()).step(calls.last())
        }
    }

    /// The device after the calls that `after` has recorded beyond those of
    /// `before`.
    pub open spec fn follow(self, before: GlState, after: GlState) -> Device {
        self.run(after.calls.skip(before.calls.len() as int))
    }
}

/// Whether `call` is of a kind that leaves every slot of every device
/// alone.
pub open spec fn is_inert(call: GlCall) -> bool {
    &&& !(call is UseProgram || call is BindFramebuffer || call is ActiveTexture
        || call is BindTexture || call is Enable || call is Disable || call is DeleteFramebuffer
        || call is DeleteTexture || call is BindVertexArray || call is DeleteVertexArray
        || call is DeleteBuffer)
    &&& call matches GlCall::BindBuffer { target, .. } ==> target != gl::ARRAY_BUFFER
}

/// The resources that are alive, each identity with its native object.
pub ghost struct Live {
    /// Each mesh with its vertex array and its vertex buffer.
    pub meshes: Map<MeshId, (Handle, Handle)>,
    pub programs: Map<ProgramId, Handle>,
    /// The screen is a target without a native framebuffer.
    pub targets: Map<FramebufferId, Option<Handle>>,
    pub textures: Map<TextureId, Handle>,
}

/// Whether `cache` tells the truth about `device`: whatever it holds of a
/// live resource, the device has bound, and the raster mode it holds is
/// the one the device is in. A slot of which the cache knows nothing, or
/// which holds a resource that is gone, claims nothing.
pub open spec fn truthful(cache: Bindings, device: Device, live: Live) -> bool {
    &&& cache.bound_textures.len() == gl::TEXTURE_UNITS
    &&& cache.bound_mesh matches Some(id) ==> (live.meshes.contains_key(id) ==> device.vertex_array
        == Some(live.meshes[id].0) && device.array_buffer == Some(live.meshes[id].1))
    &&& cache.bound_program matches Some(id) ==> (live.programs.contains_key(id)
        ==> device.program == Some(live.programs[id]))
    &&& cache.bound_framebuffer matches Some(id) ==> (live.targets.contains_key(id)
        ==> device.draw_framebuffer == live.targets[id])
    &&& cache.bound_read_framebuffer matches Some(id) ==> (live.targets.contains_key(id)
        ==> device.read_framebuffer == live.targets[id])
    &&& forall|unit: int|
        0 <= unit < gl::TEXTURE_UNITS ==> (#[trigger] cache.bound_textures[unit] matches Some(
            (target, id),
        ) ==> (live.textures.contains_key(id) ==> device.texture_at(unit, target) == Some(
            live.textures[id],
        )))
    &&& cache.draw_mode == Some(DrawMode::Draw2D) ==> !device.cull_face && !device.depth_test
    &&& cache.draw_mode == Some(DrawMode::Draw3D) ==> device.cull_face && device.depth_test
}

/// Running no calls changes nothing, and running one call more is one
/// step more.
pub proof fn lemma_run_push(device: Device, calls: Seq<GlCall>, call: GlCall)
    ensures
        device.run(Seq::empty()) == device,
        device.run(calls.push(call)) == device.run(calls).step(call),
{
    assert(calls.push(call).drop_last() =~= calls);
}

/// Running two runs of calls one after the other is running them as one.
pub proof fn lemma_run_concat(device: Device, first: Seq<GlCall>, second: Seq<GlCall>)
    ensures
        device.run(first + second) == device.run(first).run(second),
    decreases second.len(),
{
    if second.len() == 0 {
        assert(first + second =~= first);
    } else {
        lemma_run_concat(device, first, second.drop_last());
        assert((first + second).drop_last() =~= first + second.drop_last());
        assert((first + second).last() == second.last());
    }
}

/// Inert calls leave the device as it is.
pub proof fn lemma_run_inert(device: Device, calls: Seq<GlCall>)
    requires
        forall|i: int| 0 <= i < calls.len() ==> is_inert(#[trigger] calls[i]),
    ensures
        device.run(calls) == device,
    decreases calls.len(),
{
    if calls.len() > 0 {
        assert forall|i: int| 0 <= i < calls.drop_last().len() implies is_inert(
            #[trigger] calls.drop_last()[i],
        ) by {
            assert(calls.drop_last()[i] == calls[i]);
        }
        lemma_run_inert(device, calls.drop_last());
        assert(is_inert(calls[calls.len() - 1]));
    }
}

/// A state that records nothing beyond an earlier one leaves the device
/// as it is.
pub proof fn lemma_follow_nothing(device: Device, before: GlState, after: GlState)
    requires
        after.calls == before.calls,
    ensures
        device.follow(before, after) == device,
{
    assert(after.calls.skip(before.calls.len() as int) =~= Seq::<GlCall>::empty());
}

/// What a state records beyond an earlier one is what was emitted since.
pub proof fn lemma_follow_emit(device: Device, before: GlState, after: GlState, call: GlCall)
    requires
        before.calls.len() <= after.calls.len(),
    ensures
        device.follow(before, after.emit(call)) == device.follow(before, after).step(call),
{
    let n = before.calls.len() as int;
    assert(after.emit(call).calls.skip(n) =~= after.calls.skip(n).push(call));
    lemma_run_push(device, after.calls.skip(n), call);
}

/// Binding a live target for drawing keeps the cache truthful.
pub proof fn lemma_bind_draw_target_truthful(
    state: GlState,
    device: Device,
    live: Live,
    id: FramebufferId,
    framebuffer: Option<Handle>,
    viewport: Rect<i32>,
)
    requires
        truthful(state.bindings, device, live),
        live.targets.contains_key(id),
        live.targets[id] == framebuffer,
    ensures
        truthful(
            state.bind_draw_target(id, framebuffer, viewport).bindings,
            device.follow(state, state.bind_draw_target(id, framebuffer, viewport)),
            live,
        ),
{
    let after = state.bind_draw_target(id, framebuffer, viewport);
    if state.bindings.bound_framebuffer == Some(id) {
        lemma_follow_nothing(device, state, state);
    } else {
        let marked = state.with_bindings(state.bindings.with_draw_target(id));
        let bind = GlCall::BindFramebuffer { target: gl::DRAW_FRAMEBUFFER, framebuffer };
        lemma_follow_emit(device, state, marked, bind);
        lemma_follow_emit(device, state, marked.emit(bind), after.calls.last());
        assert(after == marked.emit(bind).emit(after.calls.last()));
        lemma_follow_nothing(device, state, marked);
        assert(device.follow(state, after).textures == device.textures);
    }
}

/// Binding a live target for reading keeps the cache truthful.
pub proof fn lemma_bind_read_target_truthful(
    state: GlState,
    device: Device,
    live: Live,
    id: FramebufferId,
    framebuffer: Option<Handle>,
)
    requires
        truthful(state.bindings, device, live),
        live.targets.contains_key(id),
        live.targets[id] == framebuffer,
    ensures
        truthful(
            state.bind_read_target(id, framebuffer).bindings,
            device.follow(state, state.bind_read_target(id, framebuffer)),
            live,
        ),
{
    if state.bindings.bound_read_framebuffer == Some(id) {
        lemma_follow_nothing(device, state, state);
    } else {
        let marked = state.with_bindings(state.bindings.with_read_target(id));
        let bind = GlCall::BindFramebuffer { target: gl::READ_FRAMEBUFFER, framebuffer };
        lemma_follow_emit(device, state, marked, bind);
        lemma_follow_nothing(device, state, marked);
        assert(device.follow(state, marked.emit(bind)).textures == device.textures);
    }
}

/// Binding a live mesh keeps the cache truthful.
pub proof fn lemma_bind_mesh_truthful(
    state: GlState,
    device: Device,
    live: Live,
    id: MeshId,
    vao: Handle,
    vbo: Handle,
)
    requires
        truthful(state.bindings, device, live),
        live.meshes.contains_key(id),
        live.meshes[id] == (vao, vbo),
    ensures
        truthful(
            state.bind_mesh(id, vao, vbo).bindings,
            device.follow(state, state.bind_mesh(id, vao, vbo)),
            live,
        ),
{
    if state.bindings.bound_mesh == Some(id) {
        lemma_follow_nothing(device, state, state);
    } else {
        let marked = state.with_bindings(state.bindings.with_mesh(id));
        let array = GlCall::BindVertexArray(Some(vao));
        let buffer = GlCall::BindBuffer { target: gl::ARRAY_BUFFER, buffer: Some(vbo) };
        lemma_follow_nothing(device, state, marked);
        lemma_follow_emit(device, state, marked, array);
        lemma_follow_emit(device, state, marked.emit(array), buffer);
        assert(device.follow(state, marked.emit(array).emit(buffer)).textures == device.textures);
    }
}

/// A bind of the array buffer that goes past the cache keeps it truthful,
/// because the cache forgets the mesh with it.
pub proof fn lemma_forgetful_array_bind_truthful(
    state: GlState,
    device: Device,
    live: Live,
    buffer: Option<Handle>,
)
    requires
        truthful(state.bindings, device, live),
    ensures
        truthful(
            state.bindings.without_mesh(),
            device.step(GlCall::BindBuffer { target: gl::ARRAY_BUFFER, buffer }),
            live,
        ),
{
    let bound = device.step(GlCall::BindBuffer { target: gl::ARRAY_BUFFER, buffer });
    assert(bound.textures == device.textures);
}

/// Putting a live program to use keeps the cache truthful.
pub proof fn lemma_use_program_truthful(
    state: GlState,
    device: Device,
    live: Live,
    id: ProgramId,
    program: Handle,
)
    requires
        truthful(state.bindings, device, live),
        live.programs.contains_key(id),
        live.programs[id] == program,
    ensures
        truthful(
            state.use_program(id, program).bindings,
            device.follow(state, state.use_program(id, program)),
            live,
        ),
{
    if state.bindings.bound_program == Some(id) {
        lemma_follow_nothing(device, state, state);
    } else {
        let marked = state.with_bindings(state.bindings.with_program(id));
        let bind = GlCall::UseProgram(Some(program));
        lemma_follow_emit(device, state, marked, bind);
        lemma_follow_nothing(device, state, marked);
        assert(device.follow(state, marked.emit(bind)).textures == device.textures);
    }
}

/// Binding a live texture to a texture unit keeps the cache truthful.
pub proof fn lemma_bind_texture_truthful(
    state: GlState,
    device: Device,
    live: Live,
    unit: u32,
    target: u32,
    id: TextureId,
    texture: Handle,
)
    requires
        truthful(state.bindings, device, live),
        unit < gl::TEXTURE_UNITS,
        live.textures.contains_key(id),
        live.textures[id] == texture,
    ensures
        truthful(
            state.bind_texture(unit, target, id, texture).bindings,
            device.follow(state, state.bind_texture(unit, target, id, texture)),
            live,
        ),
{
    let after = state.bind_texture(unit, target, id, texture);
    if state.bindings.bound_textures[unit as int] == Some((target, id)) {
        lemma_follow_nothing(device, state, state);
    } else {
        let marked = state.with_bindings(state.bindings.with_texture(unit, target, id));
        let select = GlCall::ActiveTexture((gl::TEXTURE0 + unit) as u32);
        let bind = GlCall::BindTexture { target, texture: Some(texture) };
        lemma_follow_nothing(device, state, marked);
        lemma_follow_emit(device, state, marked, select);
        lemma_follow_emit(device, state, marked.emit(select), bind);
        let bound = device.follow(state, after);
        assert(bound.textures == device.textures.insert((unit as int, target), texture));
        assert forall|other: int| 0 <= other < gl::TEXTURE_UNITS implies (
        #[trigger] after.bindings.bound_textures[other] matches Some((t, i)) ==> (
        live.textures.contains_key(i) ==> bound.texture_at(other, t) == Some(live.textures[i]))) by {
            if other != unit {
                assert(after.bindings.bound_textures[other] == state.bindings.bound_textures[other]);
            }
        }
    }
}

/// Switching the raster mode keeps the cache truthful.
pub proof fn lemma_draw_mode_truthful(state: GlState, device: Device, live: Live, mode: DrawMode)
    requires
        truthful(state.bindings, device, live),
    ensures
        truthful(mode.bound(state).bindings, device.follow(state, mode.bound(state)), live),
{
    if state.bindings.draw_mode == Some(mode) {
        lemma_follow_nothing(device, state, state);
    } else {
        let marked = state.with_bindings(state.bindings.with_draw_mode(mode));
        let after = mode.bound(state);
        let first = after.calls[after.calls.len() - 2];
        let second = after.calls.last();
        lemma_follow_nothing(device, state, marked);
        lemma_follow_emit(device, state, marked, first);
        lemma_follow_emit(device, state, marked.emit(first), second);
        assert(after == marked.emit(first).emit(second));
        assert(device.follow(state, after).textures == device.textures);
    }
}

/// Recording calls that leave the slots alone keeps the cache truthful.
pub proof fn lemma_inert_calls_truthful(
    state: GlState,
    device: Device,
    live: Live,
    calls: Seq<GlCall>,
)
    requires
        truthful(state.bindings, device, live),
        forall|i: int| 0 <= i < calls.len() ==> is_inert(#[trigger] calls[i]),
    ensures
        truthful(state.emit_all(calls).bindings, device.follow(state, state.emit_all(calls)), live),
{
    assert(state.emit_all(calls).calls.skip(state.calls.len() as int) =~= calls);
    lemma_run_inert(device, calls);
}

/// A bind of both framebuffer targets that goes past the cache keeps it
/// truthful, because the cache forgets both targets with it.
pub proof fn lemma_forgetful_bind_truthful(
    state: GlState,
    device: Device,
    live: Live,
    framebuffer: Handle,
)
    requires
        truthful(state.bindings, device, live),
    ensures
        truthful(
            state.bindings.without_targets(),
            device.step(GlCall::BindFramebuffer { target: gl::FRAMEBUFFER, framebuffer: Some(framebuffer) }),
            live,
        ),
{
    let bound = device.step(
        GlCall::BindFramebuffer { target: gl::FRAMEBUFFER, framebuffer: Some(framebuffer) },
    );
    assert(bound.textures == device.textures);
}

/// Deleting the native texture of a resource keeps the cache truthful
/// about the resources that stay, as long as none of them shares the
/// native texture.
pub proof fn lemma_delete_texture_truthful(
    state: GlState,
    device: Device,
    live: Live,
    id: TextureId,
)
    requires
        truthful(state.bindings, device, live),
        live.textures.contains_key(id),
        forall|other: TextureId|
            live.textures.contains_key(other) && other != id ==> #[trigger] live.textures[other]
                != live.textures[id],
    ensures
        truthful(
            state.bindings,
            device.step(GlCall::DeleteTexture(live.textures[id])),
            Live { textures: live.textures.remove(id), ..live },
        ),
{
    let gone = device.step(GlCall::DeleteTexture(live.textures[id]));
    let rest = Live { textures: live.textures.remove(id), ..live };
    assert forall|unit: int| 0 <= unit < gl::TEXTURE_UNITS implies (
    #[trigger] state.bindings.bound_textures[unit] matches Some((t, i)) ==> (
    rest.textures.contains_key(i) ==> gone.texture_at(unit, t) == Some(rest.textures[i]))) by {
        match state.bindings.bound_textures[unit] {
            Some((t, i)) => {
                if rest.textures.contains_key(i) {
                    assert(live.textures.contains_key(i) && i != id);
                    assert(device.texture_at(unit, t) == Some(live.textures[i]));
                    assert(live.textures[i] != live.textures[id]);
                }
            },
            None => {},
        }
    }
}

/// Deleting the native framebuffer of a target keeps the cache truthful
/// about the targets that stay, as long as none of them shares the native
/// framebuffer.
pub proof fn lemma_delete_framebuffer_truthful(
    state: GlState,
    device: Device,
    live: Live,
    id: FramebufferId,
    framebuffer: Handle,
)
    requires
        truthful(state.bindings, device, live),
        live.targets.contains_key(id),
        live.targets[id] == Some(framebuffer),
        forall|other: FramebufferId|
            live.targets.contains_key(other) && other != id ==> #[trigger] live.targets[other]
                != Some(framebuffer),
    ensures
        truthful(
            state.bindings,
            device.step(GlCall::DeleteFramebuffer(framebuffer)),
            Live { targets: live.targets.remove(id), ..live },
        ),
{
    let gone = device.step(GlCall::DeleteFramebuffer(framebuffer));
    assert(gone.textures == device.textures);
}

/// Deleting the native objects of a mesh keeps the cache truthful about
/// the meshes that stay, as long as none of them shares a native object
/// with it.
pub proof fn lemma_delete_mesh_truthful(
    state: GlState,
    device: Device,
    live: Live,
    id: MeshId,
    ibo: Handle,
)
    requires
        truthful(state.bindings, device, live),
        live.meshes.contains_key(id),
        forall|other: MeshId|
            live.meshes.contains_key(other) && other != id ==> (#[trigger] live.meshes[other]).0
                != live.meshes[id].0 && live.meshes[other].1 != live.meshes[id].1
                && live.meshes[other].1 != ibo,
    ensures
        truthful(
            state.bindings,
            device.step(GlCall::DeleteVertexArray(live.meshes[id].0)).step(
                GlCall::DeleteBuffer(live.meshes[id].1),
            ).step(GlCall::DeleteBuffer(ibo)),
            Live { meshes: live.meshes.remove(id), ..live },
        ),
{
    let gone = device.step(GlCall::DeleteVertexArray(live.meshes[id].0)).step(
        GlCall::DeleteBuffer(live.meshes[id].1),
    ).step(GlCall::DeleteBuffer(ibo));
    assert(gone.textures == device.textures);
}

/// A mesh that comes to life keeps the cache truthful if the cache does
/// not hold its identity yet, which is what makes an identity fresh.
pub proof fn lemma_new_mesh_truthful(
    state: GlState,
    device: Device,
    live: Live,
    id: MeshId,
    vao: Handle,
    vbo: Handle,
)
    requires
        truthful(state.bindings, device, live),
        state.bindings.bound_mesh != Some(id),
    ensures
        truthful(state.bindings, device, Live { meshes: live.meshes.insert(id, (vao, vbo)), ..live }),
{
}

/// A program that comes to life keeps the cache truthful if the cache
/// does not hold its identity yet.
pub proof fn lemma_new_program_truthful(
    state: GlState,
    device: Device,
    live: Live,
    id: ProgramId,
    program: Handle,
)
    requires
        truthful(state.bindings, device, live),
        state.bindings.bound_program != Some(id),
    ensures
        truthful(
            state.bindings,
            device,
            Live { programs: live.programs.insert(id, program), ..live },
        ),
{
}

/// A target that comes to life keeps the cache truthful if the cache does
/// not hold its identity yet.
pub proof fn lemma_new_target_truthful(
    state: GlState,
    device: Device,
    live: Live,
    id: FramebufferId,
    framebuffer: Option<Handle>,
)
    requires
        truthful(state.bindings, device, live),
        state.bindings.bound_framebuffer != Some(id),
        state.bindings.bound_read_framebuffer != Some(id),
    ensures
        truthful(state.bindings, device, Live { targets: live.targets.insert(id, framebuffer), ..live }),
{
}

/// A texture that comes to life keeps the cache truthful if the cache
/// does not hold its identity yet.
pub proof fn lemma_new_texture_truthful(
    state: GlState,
    device: Device,
    live: Live,
    id: TextureId,
    texture: Handle,
)
    requires
        truthful(state.bindings, device, live),
        forall|unit: int|
            0 <= unit < gl::TEXTURE_UNITS ==> (#[trigger] state.bindings.bound_textures[unit] matches Some(
                (_, held),
            ) ==> held != id),
    ensures
        truthful(
            state.bindings,
            device,
            Live { textures: live.textures.insert(id, texture), ..live },
        ),
{
}

/// A cache that knows nothing is truthful about every device.
pub proof fn lemma_unknown_truthful(device: Device, live: Live)
    ensures
        truthful(Bindings::unknown(), device, live),
{
}

/// What a state records beyond an earlier one can be followed in two legs.
pub proof fn lemma_follow_compose(device: Device, before: GlState, middle: GlState, after: GlState)
    requires
        before.calls.is_prefix_of(middle.calls),
        middle.calls.is_prefix_of(after.calls),
    ensures
        before.calls.is_prefix_of(after.calls),
        device.follow(before, after) == device.follow(before, middle).follow(middle, after),
{
    let b = before.calls.len() as int;
    let m = middle.calls.len() as int;
    assert(after.calls.skip(b) =~= middle.calls.skip(b) + after.calls.skip(m));
    lemma_run_concat(device, middle.calls.skip(b), after.calls.skip(m));
}

/// The calls that lay out vertex attributes leave the slots alone.
pub proof fn lemma_layout_calls_inert(slots: Seq<AttributeSlot>, stride: i32)
    ensures
        forall|i: int|
            0 <= i < layout_calls(slots, stride).len() ==> is_inert(
                #[trigger] layout_calls(slots, stride)[i],
            ),
    decreases slots.len(),
{
    if slots.len() > 0 {
        lemma_layout_calls_inert(slots.drop_last(), stride);
        let front = layout_calls(slots.drop_last(), stride);
        let last = slot_calls(slots.last(), stride);
        assert forall|i: int| 0 <= i < layout_calls(slots, stride).len() implies is_inert(
            #[trigger] layout_calls(slots, stride)[i],
        ) by {
            if i < front.len() {
                assert(layout_calls(slots, stride)[i] == front[i]);
            } else {
                assert(layout_calls(slots, stride)[i] == last[i - front.len()]);
            }
        }
    }
}

/// Recording one call that leaves the slots alone keeps the cache
/// truthful.
pub proof fn lemma_inert_call_truthful(state: GlState, device: Device, live: Live, call: GlCall)
    requires
        truthful(state.bindings, device, live),
        is_inert(call),
    ensures
        truthful(state.emit(call).bindings, device.follow(state, state.emit(call)), live),
        device.follow(state, state.emit(call)) == device,
{
    lemma_follow_emit(device, state, state, call);
}

/// Making a texture keeps the cache truthful: the new texture reaches
/// texture unit 0 through the cache.
pub proof fn lemma_texture_created_truthful(
    state: GlState,
    device: Device,
    live: Live,
    id: TextureId,
    texture: Handle,
    upload: GlCall,
    min_filter: MinFilter,
    mag_filter: MagFilter,
    wrap_mode: WrapMode,
)
    requires
        truthful(state.bindings, device, live),
        live.textures.contains_key(id),
        live.textures[id] == texture,
        upload is TexImage2d || upload is TexImage2dFromImage,
    ensures
        truthful(
            Texture2d::created(state, id, texture, upload, min_filter, mag_filter, wrap_mode).bindings,
            device.follow(
                state,
                Texture2d::created(state, id, texture, upload, min_filter, mag_filter, wrap_mode),
            ),
            live,
        ),
{
    let bound = state.bind_texture(0, gl::TEXTURE_2D, id, texture);
    let parameters = Texture2d::tex_parameter_calls(min_filter, mag_filter, wrap_mode);
    let after = Texture2d::created(state, id, texture, upload, min_filter, mag_filter, wrap_mode);
    lemma_bind_texture_truthful(state, device, live, 0, gl::TEXTURE_2D, id, texture);
    let inert = seq![upload] + parameters;
    assert(after.calls =~= bound.emit_all(inert).calls);
    lemma_inert_calls_truthful(bound, device.follow(state, bound), live, inert);
    lemma_follow_compose(device, state, bound, after);
}

/// Replacing the image of a live texture keeps the cache truthful.
pub proof fn lemma_texture_contents_truthful(
    state: GlState,
    device: Device,
    live: Live,
    texture: Texture2d,
    format: crate::texture::TextureFormat,
    data: Seq<u8>,
)
    requires
        truthful(state.bindings, device, live),
        live.textures.contains_key(texture.id()),
        live.textures[texture.id()] == texture.handle(),
    ensures
        truthful(
            texture.with_contents(state, format, data).bindings,
            device.follow(state, texture.with_contents(state, format, data)),
            live,
        ),
{
    let bound = texture.bound(state, 0);
    let after = texture.with_contents(state, format, data);
    lemma_bind_texture_truthful(
        state,
        device,
        live,
        0,
        gl::TEXTURE_2D,
        texture.id(),
        texture.handle(),
    );
    lemma_inert_call_truthful(bound, device.follow(state, bound), live, after.calls.last());
    lemma_follow_compose(device, state, bound, after);
}

/// Pointing a texture uniform at a live texture keeps the cache truthful.
pub proof fn lemma_texture_uniform_truthful(
    state: GlState,
    device: Device,
    live: Live,
    uniform: TextureUniform,
    texture: Texture2d,
    texture_unit: u32,
)
    requires
        truthful(state.bindings, device, live),
        texture_unit < gl::TEXTURE_UNITS,
        live.textures.contains_key(texture.id()),
        live.textures[texture.id()] == texture.handle(),
    ensures
        truthful(
            uniform.applied(state, &texture, texture_unit).bindings,
            device.follow(state, uniform.applied(state, &texture, texture_unit)),
            live,
        ),
{
    let set = state.emit(
        GlCall::Uniform1i { location: uniform.location(), value: texture_unit as i32 },
    );
    let after = uniform.applied(state, &texture, texture_unit);
    lemma_inert_call_truthful(state, device, live, set.calls.last());
    lemma_bind_texture_truthful(
        set,
        device,
        live,
        texture_unit,
        gl::TEXTURE_2D,
        texture.id(),
        texture.handle(),
    );
    lemma_follow_compose(device, state, set, after);
}

/// Starting a framebuffer keeps the cache truthful, whatever was bound:
/// the cache forgets the two targets that the device rebinds.
pub proof fn lemma_framebuffer_attached_truthful<A: FramebufferAttachment>(
    state: GlState,
    device: Device,
    live: Live,
    framebuffer: Handle,
    attachment: A,
)
    requires
        truthful(state.bindings, device, live),
        is_inert(attachment.attach_call()),
    ensures
        truthful(
            Framebuffer::<A>::attached_state(state, framebuffer, attachment).bindings,
            device.follow(state, Framebuffer::<A>::attached_state(state, framebuffer, attachment)),
            live,
        ),
{
    let bind = GlCall::BindFramebuffer { target: gl::FRAMEBUFFER, framebuffer: Some(framebuffer) };
    let forgotten = state.with_bindings(state.bindings.without_targets());
    let after = Framebuffer::<A>::attached_state(state, framebuffer, attachment);
    lemma_forgetful_bind_truthful(state, device, live, framebuffer);
    lemma_follow_nothing(device, state, forgotten);
    lemma_follow_emit(device, state, forgotten, bind);
    lemma_follow_emit(device, state, forgotten.emit(bind), attachment.attach_call());
}

/// Drawing a mesh on a live surface keeps the cache truthful from the
/// state in which the uniforms left it.
pub proof fn lemma_drawn_truthful<U: GlUniforms, P: Primitive, S: Surface>(
    state: GlState,
    device: Device,
    live: Live,
    mesh: Mesh<U, P>,
    surface: S,
)
    requires
        truthful(state.bindings, device, live),
        live.targets.contains_key(surface.target_id()),
        live.targets[surface.target_id()] == surface.framebuffer(),
    ensures
        truthful(
            mesh.drawn(state, &surface).bindings,
            device.follow(state, mesh.drawn(state, &surface)),
            live,
        ),
{
    let target = state.bind_draw_target(
        surface.target_id(),
        surface.framebuffer(),
        surface.viewport(),
    );
    let moded = mesh.targeted(state, &surface);
    let after = mesh.drawn(state, &surface);
    lemma_bind_draw_target_truthful(
        state,
        device,
        live,
        surface.target_id(),
        surface.framebuffer(),
        surface.viewport(),
    );
    lemma_draw_mode_truthful(target, device.follow(state, target), live, mesh.draw_mode());
    lemma_follow_compose(device, state, target, moded);
    lemma_inert_call_truthful(moded, device.follow(state, moded), live, after.calls.last());
    lemma_follow_compose(device, state, moded, after);
}

/// Drawing the instances of a mesh on a live surface keeps the cache
/// truthful from the state in which the uniforms left it.
pub proof fn lemma_drawn_instanced_truthful<U: GlUniforms, P: Primitive, S: Surface>(
    state: GlState,
    device: Device,
    live: Live,
    mesh: Mesh<U, P>,
    surface: S,
    instances: VertexData,
    locations: Seq<u32>,
)
    requires
        truthful(state.bindings, device, live),
        live.targets.contains_key(surface.target_id()),
        live.targets[surface.target_id()] == surface.framebuffer(),
    ensures
        truthful(
            mesh.drawn_instanced(state, &surface, &instances, locations).bindings,
            device.follow(state, mesh.drawn_instanced(state, &surface, &instances, locations)),
            live,
        ),
{
    let target = state.bind_draw_target(
        surface.target_id(),
        surface.framebuffer(),
        surface.viewport(),
    );
    let moded = mesh.targeted(state, &surface);
    let after = mesh.drawn_instanced(state, &surface, &instances, locations);
    lemma_bind_draw_target_truthful(
        state,
        device,
        live,
        surface.target_id(),
        surface.framebuffer(),
        surface.viewport(),
    );
    lemma_draw_mode_truthful(target, device.follow(state, target), live, mesh.draw_mode());
    lemma_follow_compose(device, state, target, moded);
    let bind = GlCall::BindBuffer { target: gl::ARRAY_BUFFER, buffer: Some(state.instanced_vbo) };
    let forgotten = moded.with_bindings(moded.bindings.without_mesh());
    let streaming = forgotten.emit(bind);
    lemma_forgetful_array_bind_truthful(
        moded,
        device.follow(state, moded),
        live,
        Some(state.instanced_vbo),
    );
    assert(device.follow(state, forgotten) == device.follow(state, moded)) by {
        assert(forgotten.calls == moded.calls);
    }
    lemma_follow_emit(device, state, forgotten, bind);
    let layout = attribute_calls(&instances.attributes(), locations, true);
    let tail = layout + seq![after.calls[after.calls.len() - 2], after.calls.last()];
    assert(after.calls =~= streaming.emit_all(tail).calls);
    assert forall|i: int| 0 <= i < tail.len() implies is_inert(#[trigger] tail[i]) by {
        lemma_layout_calls_inert(
            crate::vertex::VertexLayout::slots_of(instances.attributes()@, locations, true),
            (4 * instances.attributes().spec_stride()) as i32,
        );
        if i < layout.len() {
            assert(tail[i] == layout[i]);
        }
    }
    lemma_inert_calls_truthful(streaming, device.follow(state, streaming), live, tail);
    lemma_follow_compose(device, state, streaming, after);
}

/// Copying a live framebuffer to a live surface keeps the cache truthful.
pub proof fn lemma_blitted_truthful<A: FramebufferAttachment, S: Surface>(
    state: GlState,
    device: Device,
    live: Live,
    source: Framebuffer<A>,
    surface: S,
)
    requires
        truthful(state.bindings, device, live),
        live.targets.contains_key(source.id()),
        live.targets[source.id()] == Some(source.handle()),
        live.targets.contains_key(surface.target_id()),
        live.targets[surface.target_id()] == surface.framebuffer(),
    ensures
        truthful(
            source.blitted(state, &surface).bindings,
            device.follow(state, source.blitted(state, &surface)),
            live,
        ),
{
    let read = state.bind_read_target(source.id(), Some(source.handle()));
    let drawn = read.bind_draw_target(
        surface.target_id(),
        surface.framebuffer(),
        surface.viewport(),
    );
    let after = source.blitted(state, &surface);
    lemma_bind_read_target_truthful(state, device, live, source.id(), Some(source.handle()));
    lemma_bind_draw_target_truthful(
        read,
        device.follow(state, read),
        live,
        surface.target_id(),
        surface.framebuffer(),
        surface.viewport(),
    );
    lemma_follow_compose(device, state, read, drawn);
    lemma_inert_call_truthful(drawn, device.follow(state, drawn), live, after.calls.last());
    lemma_follow_compose(device, state, drawn, after);
}

/// Preparing a draw with a live mesh and a live program keeps the cache
/// truthful.
pub proof fn lemma_prepared_truthful<U: GlUniforms, P: Primitive>(
    state: GlState,
    device: Device,
    live: Live,
    mesh: Mesh<U, P>,
)
    requires
        truthful(state.bindings, device, live),
        live.meshes.contains_key(mesh.id()),
        live.meshes[mesh.id()] == (mesh.vao(), mesh.vbo()),
        live.programs.contains_key(mesh.program().id()),
        live.programs[mesh.program().id()] == mesh.program().handle(),
    ensures
        truthful(
            mesh.prepared(state).bindings,
            device.follow(state, mesh.prepared(state)),
            live,
        ),
{
    let bound = mesh.bound(state);
    let after = mesh.prepared(state);
    lemma_bind_mesh_truthful(state, device, live, mesh.id(), mesh.vao(), mesh.vbo());
    lemma_use_program_truthful(
        bound,
        device.follow(state, bound),
        live,
        mesh.program().id(),
        mesh.program().handle(),
    );
    lemma_follow_compose(device, state, bound, after);
}

/// Bringing the data of a builder to a live mesh keeps the cache truthful.
pub proof fn lemma_uploaded_truthful<U: GlUniforms, P: Primitive>(
    state: GlState,
    device: Device,
    live: Live,
    mesh: Mesh<U, P>,
    builder: crate::mesh::MeshBuilder<P>,
    usage: crate::mesh::MeshUsage,
    locations: Seq<u32>,
)
    requires
        truthful(state.bindings, device, live),
        live.meshes.contains_key(mesh.id()),
        live.meshes[mesh.id()] == (mesh.vao(), mesh.vbo()),
    ensures
        truthful(
            mesh.uploaded(state, &builder, usage, locations).bindings,
            device.follow(state, mesh.uploaded(state, &builder, usage, locations)),
            live,
        ),
{
    let bound = mesh.bound(state);
    let after = mesh.uploaded(state, &builder, usage, locations);
    lemma_bind_mesh_truthful(state, device, live, mesh.id(), mesh.vao(), mesh.vbo());
    let layout = attribute_calls(&builder.vertices().attributes(), locations, false);
    let tail = layout + seq![after.calls[after.calls.len() - 2], after.calls.last()];
    assert(after.calls =~= bound.emit_all(tail).calls);
    assert forall|i: int| 0 <= i < tail.len() implies is_inert(#[trigger] tail[i]) by {
        lemma_layout_calls_inert(
            crate::vertex::VertexLayout::slots_of(
                builder.vertices().attributes()@,
                locations,
                false,
            ),
            (4 * builder.vertices().attributes().spec_stride()) as i32,
        );
        if i < layout.len() {
            assert(tail[i] == layout[i]);
        }
    }
    lemma_inert_calls_truthful(bound, device.follow(state, bound), live, tail);
    lemma_follow_compose(device, state, bound, after);
}

/// Making a mesh keeps the cache truthful: the new mesh is bound through
/// the cache.
pub proof fn lemma_mesh_created_truthful<U: GlUniforms, P: Primitive>(
    state: GlState,
    device: Device,
    live: Live,
    id: MeshId,
    vao: Handle,
    vbo: Handle,
    ibo: Handle,
)
    requires
        truthful(state.bindings, device, live),
        live.meshes.contains_key(id),
        live.meshes[id] == (vao, vbo),
    ensures
        truthful(
            Mesh::<U, P>::created(state, id, vao, vbo, ibo).bindings,
            device.follow(state, Mesh::<U, P>::created(state, id, vao, vbo, ibo)),
            live,
        ),
{
    let bound = state.bind_mesh(id, vao, vbo);
    let after = Mesh::<U, P>::created(state, id, vao, vbo, ibo);
    lemma_bind_mesh_truthful(state, device, live, id, vao, vbo);
    lemma_inert_call_truthful(bound, device.follow(state, bound), live, after.calls.last());
    lemma_follow_compose(device, state, bound, after);
}

/// The calls that set clear colors leave the slots alone.
pub proof fn lemma_clear_color_calls_inert(buffers: Seq<ClearBuffer>)
    ensures
        forall|i: int|
            0 <= i < clear_color_calls(buffers).len() ==> is_inert(
                #[trigger] clear_color_calls(buffers)[i],
            ),
    decreases buffers.len(),
{
    if buffers.len() > 0 {
        lemma_clear_color_calls_inert(buffers.drop_last());
        let front = clear_color_calls(buffers.drop_last());
        assert forall|i: int| 0 <= i < clear_color_calls(buffers).len() implies is_inert(
            #[trigger] clear_color_calls(buffers)[i],
        ) by {
            if i < front.len() {
                assert(clear_color_calls(buffers)[i] == front[i]);
            }
        }
    }
}

/// Clearing a live surface keeps the cache truthful.
pub proof fn lemma_cleared_truthful<S: Surface>(
    state: GlState,
    device: Device,
    live: Live,
    surface: S,
    buffers: Seq<ClearBuffer>,
)
    requires
        truthful(state.bindings, device, live),
        live.targets.contains_key(surface.target_id()),
        live.targets[surface.target_id()] == surface.framebuffer(),
    ensures
        truthful(
            state.bind_draw_target(
                surface.target_id(),
                surface.framebuffer(),
                surface.viewport(),
            ).emit_all(clear_color_calls(buffers)).emit(GlCall::Clear(clear_mask(buffers))).bindings,
            device.follow(
                state,
                state.bind_draw_target(
                    surface.target_id(),
                    surface.framebuffer(),
                    surface.viewport(),
                ).emit_all(clear_color_calls(buffers)).emit(GlCall::Clear(clear_mask(buffers))),
            ),
            live,
        ),
{
    let bound = state.bind_draw_target(
        surface.target_id(),
        surface.framebuffer(),
        surface.viewport(),
    );
    let after = bound.emit_all(clear_color_calls(buffers)).emit(GlCall::Clear(clear_mask(buffers)));
    lemma_bind_draw_target_truthful(
        state,
        device,
        live,
        surface.target_id(),
        surface.framebuffer(),
        surface.viewport(),
    );
    let tail = clear_color_calls(buffers).push(GlCall::Clear(clear_mask(buffers)));
    assert(after.calls =~= bound.emit_all(tail).calls);
    assert forall|i: int| 0 <= i < tail.len() implies is_inert(#[trigger] tail[i]) by {
        lemma_clear_color_calls_inert(buffers);
        if i < clear_color_calls(buffers).len() {
            assert(tail[i] == clear_color_calls(buffers)[i]);
        }
    }
    lemma_inert_calls_truthful(bound, device.follow(state, bound), live, tail);
    lemma_follow_compose(device, state, bound, after);
}

/// Resizing the screen keeps the cache truthful.
pub proof fn lemma_resized_truthful(
    state: GlState,
    device: Device,
    live: Live,
    screen: ScreenSurface,
    new_size: Vector2<u32>,
)
    requires
        truthful(state.bindings, device, live),
    ensures
        truthful(
            screen.resized(state, new_size).bindings,
            device.follow(state, screen.resized(state, new_size)),
            live,
        ),
{
    let resized = state.emit(GlCall::ResizeCanvas { width: new_size.x, height: new_size.y });
    let after = screen.resized(state, new_size);
    lemma_inert_call_truthful(state, device, live, resized.calls.last());
    if state.bindings.bound_framebuffer == Some(screen.target_id()) {
        lemma_inert_call_truthful(resized, device.follow(state, resized), live, after.calls.last());
        lemma_follow_compose(device, state, resized, after);
    }
}

} // verus!
