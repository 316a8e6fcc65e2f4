//! Things that can be rendered to: the screen and framebuffers.

use vstd::prelude::*;
use crate::command::{GlCall, GlCommand, Handle};
use crate::context::{GlContext, GlState};
use crate::gl;
use crate::ids::FramebufferId;
use crate::rect::{Point2, Rect, Vector2};

verus! {

/// One buffer of a surface that `clear` is to reset.
#[derive(Clone, Copy, Debug, PartialEq, Eq)]
pub enum ClearBuffer {
    /// The color buffer, to the given red, green, blue and alpha, each an
    /// `f32` bit pattern.
    Color([u32; 4]),
    /// The depth buffer.
    Depth,
}

impl ClearBuffer {
    /// The bit by which the device selects this buffer.
    pub open spec fn spec_as_gl(self) -> u32 {
        match self {
            ClearBuffer::Color(_) => gl::COLOR_BUFFER_BIT,
            ClearBuffer::Depth => gl::DEPTH_BUFFER_BIT,
        }
    }

    /// The bit by which the device selects this buffer.
    pub fn as_gl(&self) -> (bit: u32)
        ensures
            bit == self.spec_as_gl(),
    {
        match self {
            ClearBuffer::Color(_) => gl::COLOR_BUFFER_BIT,
            ClearBuffer::Depth => gl::DEPTH_BUFFER_BIT,
        }
    }

    /// The color to clear to, where this is the color buffer.
    pub fn color(&self) -> (color: Option<[u32; 4]>)
        ensures
            color == match *self {
                ClearBuffer::Color(c) => Some(c),
                ClearBuffer::Depth => None,
            },
    {
        match self {
            ClearBuffer::Color(color) => Some(*color),
            _ => None,
        }
    }
}

/// The mask of one combined clear of `buffers`: the color bit if a color
/// buffer is among them, and the depth bit if the depth buffer is.
pub open spec fn clear_mask(buffers: Seq<ClearBuffer>) -> u32 {
    let color: u32 = if exists|i: int| 0 <= i < buffers.len() && #[trigger] buffers[i] is Color {
        gl::COLOR_BUFFER_BIT
    } else {
        0
    };
    let depth: u32 = if exists|i: int| 0 <= i < buffers.len() && #[trigger] buffers[i] is Depth {
        gl::DEPTH_BUFFER_BIT
    } else {
        0
    };
    (color + depth) as u32
}

/// The calls that set the clear color: one for each color buffer among
/// `buffers`, in their order.
pub open spec fn clear_color_calls(buffers: Seq<ClearBuffer>) -> Seq<GlCall>
    decreases buffers.len(),
{
    if buffers.len() == 0 {
        Seq::empty()
    } else {
        let before = clear_color_calls(buffers.drop_last());
        match buffers.last() {
            ClearBuffer::Color(c) => before.push(
                GlCall::ClearColor { red: c[0], green: c[1], blue: c[2], alpha: c[3] },
            ),
            ClearBuffer::Depth => before,
        }
    }
}

/// Adding the bit of one buffer to a mask of color and depth bits sets
/// that bit and keeps the other.
proof fn lemma_mask_step(bits: u32, bit: u32)
    by (bit_vector)
    requires
        bits == 0 || bits == 0x100 || bits == 0x4000 || bits == 0x4100,
        bit == 0x100 || bit == 0x4000,
    ensures
        bits | bit == (if bit == 0x100 {
            if bits == 0 || bits == 0x100 {
                0x100u32
            } else {
                0x4100u32
            }
        } else {
            if bits == 0 || bits == 0x4000 {
                0x4000u32
            } else {
                0x4100u32
            }
        }),
{
}

/// A render target with an extent: it can be bound for drawing and for
/// reading, and cleared.
pub trait Surface {
    /// The identity under which the cache knows this surface.
    spec fn target_id(&self) -> FramebufferId;

    /// The native framebuffer behind this surface; the screen has none.
    spec fn framebuffer(&self) -> Option<Handle>;

    /// The extent of this surface.
    spec fn extent(&self) -> Vector2<u32>;

    /// The viewport that covers this surface.
    spec fn viewport(&self) -> Rect<i32>;

    /// Whether the viewport is the one of the extent, and the device can
    /// take it.
    spec fn wf(&self) -> bool;

    /// Binds the surface for drawing and sets the viewport to cover it,
    /// unless it is the draw target already.
    fn bind(&self, context: &mut GlContext)
        requires
            self.wf(),
        ensures
            final(context)@ == old(context)@.bind_draw_target(
                self.target_id(),
                self.framebuffer(),
                self.viewport(),
            ),
    ;

    /// Binds the surface for reading, unless it is the read target already.
    /// Does not touch the viewport.
    fn bind_read(&self, context: &mut GlContext)
        ensures
            final(context)@ == old(context)@.bind_read_target(
                self.target_id(),
                self.framebuffer(),
            ),
    ;

    /// Clears one or more buffers of the surface with one combined clear,
    /// after binding the surface for drawing.
    fn clear(&self, context: &mut GlContext, buffers: &[ClearBuffer])
        requires
            self.wf(),
            buffers@.len() > 0,
        ensures
            final(context)@ == old(context)@.bind_draw_target(
                self.target_id(),
                self.framebuffer(),
                self.viewport(),
            ).emit_all(clear_color_calls(buffers@)).emit(GlCall::Clear(clear_mask(buffers@))),
    {
        self.bind(context);
        let ghost bound = context@;
        let mut bits: u32 = 0;
        let mut i: usize = 0;
        while i < buffers.len()
            invariant
                0 <= i <= buffers@.len(),
                bits == clear_mask(buffers@.take(i as int)),
                context@ == bound.emit_all(clear_color_calls(buffers@.take(i as int))),
            decreases buffers@.len() - i,
        {
            let buffer = &buffers[i];
            let ghost seen = buffers@.take(i as int);
            let ghost now = buffers@.take(i + 1);
            proof {
                assert(now.drop_last() =~= seen);
                assert(now.last() == *buffer);
                assert(bits == 0 || bits == 0x100 || bits == 0x4000 || bits == 0x4100);
                lemma_mask_step(bits, buffer.spec_as_gl());
                assert forall|k: int| 0 <= k < seen.len() implies seen[k] == now[k] by {}
                if exists|k: int| 0 <= k < seen.len() && #[trigger] seen[k] is Color {
                    let k = choose|k: int| 0 <= k < seen.len() && #[trigger] seen[k] is Color;
                    assert(now[k] is Color);
                }
                if exists|k: int| 0 <= k < seen.len() && #[trigger] seen[k] is Depth {
                    let k = choose|k: int| 0 <= k < seen.len() && #[trigger] seen[k] is Depth;
                    assert(now[k] is Depth);
                }
                assert(now[i as int] == *buffer);
            }
            bits |= buffer.as_gl();
            if let Some(color) = buffer.color() {
                context.emit(
                    GlCommand::ClearColor {
                        red: color[0],
                        green: color[1],
                        blue: color[2],
                        alpha: color[3],
                    },
                );
            }
            assert(context@.calls =~= bound.emit_all(clear_color_calls(now)).calls);
            i += 1;
        }
        assert(buffers@.take(i as int) =~= buffers@);
        context.emit(GlCommand::Clear(bits));
    }

    /// Returns the size of the surface.
    fn size(&self) -> (size: Vector2<u32>)
        ensures
            size == self.extent(),
    ;
}

/// The surface that stands for the screen: the default framebuffer of the
/// context, as large as its canvas.
pub struct ScreenSurface {
    viewport: Rect<i32>,
    size: Vector2<u32>,
    id: FramebufferId,
}

impl ScreenSurface {
    /// The state after `set_size`: the canvas is resized, and the viewport
    /// follows at once where the screen is the draw target.
    pub open spec fn resized(&self, state: GlState, new_size: Vector2<u32>) -> GlState {
        let resized = state.emit(
            GlCall::ResizeCanvas { width: new_size.x, height: new_size.y },
        );
        if state.bindings.bound_framebuffer == Some(self.target_id()) {
            resized.viewport(Rect::from_extent(new_size))
        } else {
            resized
        }
    }

    /// The surface of a canvas of the given size.
    pub(crate) fn new(size: Vector2<u32>) -> (screen: Self)
        requires
            size.fits_i32(),
        ensures
            screen.wf(),
            screen.extent() == size,
            screen.target_id().value() != 0,
    {
        let extent = size.cast().unwrap();
        let viewport = Rect::new(Point2::origin(), Point2::from_vec(extent));
        ScreenSurface { viewport, size, id: FramebufferId::new() }
    }

    /// Resizes the canvas. Where the screen is the draw target, the viewport
    /// is set to the new size right away.
    pub fn set_size(&mut self, context: &mut GlContext, new_size: Vector2<u32>)
        requires
            new_size.fits_i32(),
        ensures
            final(self).wf(),
            final(self).extent() == new_size,
            final(self).target_id() == old(self).target_id(),
            final(context)@ == old(self).resized(old(context)@, new_size),
    {
        context.emit(GlCommand::ResizeCanvas { width: new_size.x, height: new_size.y });
        let extent = new_size.cast().unwrap();
        self.viewport = Rect::new(Point2::origin(), Point2::from_vec(extent));
        self.size = new_size;
        // Resizing requires that the viewport changes to match.
        if context.cache().bound_framebuffer == Some(self.id) {
            context.viewport(&self.viewport);
        }
    }
}

impl Surface for ScreenSurface {
    closed spec fn target_id(&self) -> FramebufferId {
        self.id
    }

    open spec fn framebuffer(&self) -> Option<Handle> {
        None
    }

    closed spec fn extent(&self) -> Vector2<u32> {
        self.size
    }

    closed spec fn viewport(&self) -> Rect<i32> {
        self.viewport
    }

    open spec fn wf(&self) -> bool {
        &&& self.extent().fits_i32()
        &&& self.viewport() == Rect::from_extent(self.extent())
    }

    fn bind(&self, context: &mut GlContext) {
        context.bind_draw_target(self.id, None, &self.viewport);
    }

    fn bind_read(&self, context: &mut GlContext) {
        context.bind_read_target(self.id, None);
    }

    fn size(&self) -> (size: Vector2<u32>) {
        self.size
    }
}

/// A draw target as binding sees it: its identity, the native framebuffer
/// behind it, and the viewport that covers it.
pub ghost struct Target {
    pub id: FramebufferId,
    pub framebuffer: Option<Handle>,
    pub viewport: Rect<i32>,
}

/// The state after each of `targets` has been bound for drawing, in order.
pub open spec fn bind_each(state: GlState, targets: Seq<Target>) -> GlState
    decreases targets.len(),
{
    if targets.len() == 0 {
        state
    } else {
        let target = targets.last();
        bind_each(state, targets.drop_last()).bind_draw_target(
            target.id,
            target.framebuffer,
            target.viewport,
        )
    }
}

/// The identity that the cache holds as draw target after `targets` have
/// been bound in a state whose cache held `bound`: that of the last, or
/// `bound` where there is none.
pub open spec fn last_bound(bound: Option<FramebufferId>, targets: Seq<Target>) -> Option<
    FramebufferId,
> {
    if targets.len() == 0 {
        bound
    } else {
        Some(targets.last().id)
    }
}

/// The number of targets in `targets` whose identity differs from that of
/// the one before it, where the one before the first is `bound`. With
/// nothing bound at first this is the number of runs of one identity.
pub open spec fn count_changes(bound: Option<FramebufferId>, targets: Seq<Target>) -> nat
    decreases targets.len(),
{
    if targets.len() == 0 {
        0
    } else {
        let before = targets.drop_last();
        count_changes(bound, before) + if last_bound(bound, before) != Some(targets.last().id) {
            1nat
        } else {
            0nat
        }
    }
}

/// Whether `call` binds a framebuffer as the draw target.
pub open spec fn is_draw_bind(call: GlCall) -> bool {
    call matches GlCall::BindFramebuffer { target, .. } && target == gl::DRAW_FRAMEBUFFER
}

/// The number of calls in `calls` that bind a draw target.
pub open spec fn count_draw_binds(calls: Seq<GlCall>) -> nat
    decreases calls.len(),
{
    if calls.len() == 0 {
        0
    } else {
        count_draw_binds(calls.drop_last()) + if is_draw_bind(calls.last()) {
            1nat
        } else {
            0nat
        }
    }
}

/// The number of calls in `calls` that set the viewport.
pub open spec fn count_viewports(calls: Seq<GlCall>) -> nat
    decreases calls.len(),
{
    if calls.len() == 0 {
        0
    } else {
        count_viewports(calls.drop_last()) + if calls.last() is Viewport {
            1nat
        } else {
            0nat
        }
    }
}

/// Binding a sequence of draw targets costs one device bind, and one
/// viewport update, for each target that differs from the one bound just
/// before it: runs of one target collapse into one call. Afterwards the
/// cache holds the last target.
pub proof fn lemma_binds_collapse_runs(state: GlState, targets: Seq<Target>)
    ensures
        count_draw_binds(bind_each(state, targets).calls) == count_draw_binds(state.calls)
            + count_changes(state.bindings.bound_framebuffer, targets),
        count_viewports(bind_each(state, targets).calls) == count_viewports(state.calls)
            + count_changes(state.bindings.bound_framebuffer, targets),
        bind_each(state, targets).bindings.bound_framebuffer == last_bound(
            state.bindings.bound_framebuffer,
            targets,
        ),
    decreases targets.len(),
{
    if targets.len() > 0 {
        let before = bind_each(state, targets.drop_last());
        let target = targets.last();
        lemma_binds_collapse_runs(state, targets.drop_last());
        if before.bindings.bound_framebuffer != Some(target.id) {
            let bind = GlCall::BindFramebuffer {
                target: gl::DRAW_FRAMEBUFFER,
                framebuffer: target.framebuffer,
            };
            let bound = before.calls.push(bind);
            let after = bind_each(state, targets).calls;
            assert(bound.drop_last() =~= before.calls);
            assert(count_draw_binds(bound) == count_draw_binds(before.calls) + 1);
            assert(after.drop_last() =~= bound);
            assert(count_viewports(after) == count_viewports(bound) + 1);
        }
    }
}

/// Resizing the screen while it is the draw target sets the viewport to
/// the new size at once: it is the last thing the device is told, and it
/// covers the screen from the origin.
pub proof fn lemma_resize_moves_viewport(screen: ScreenSurface, state: GlState, new_size: Vector2<u32>)
    requires
        state.bindings.bound_framebuffer == Some(screen.target_id()),
    ensures
        screen.resized(state, new_size).calls.last() == (GlCall::Viewport {
            x: 0,
            y: 0,
            width: new_size.x as i32,
            height: new_size.y as i32,
        }),
        screen.resized(state, new_size).bindings == state.bindings,
{
}

} // verus!
