//! Renderbuffers, framebuffers, and what a framebuffer renders into.

use vstd::prelude::*;
use crate::command::{GlCall, GlCommand, Handle};
use crate::context::{GlContext, GlState};
use crate::error::{CreationFailed, FailureReason, ResourceKind};
use crate::gl;
use crate::ids::FramebufferId;
use crate::rect::{Point2, Rect, Vector2};
use crate::surface::Surface;
use crate::texture::{MagFilter, MinFilter, Texture2d, TextureFormat, WrapMode};

verus! {

/// A renderbuffer. It owns one native renderbuffer, which `release`
/// deletes.
#[derive(Debug)]
pub struct Renderbuffer {
    renderbuffer: Handle,
    size: Vector2<u32>,
}

impl Renderbuffer {
    /// The native renderbuffer.
    pub closed spec fn handle(&self) -> Handle {
        self.renderbuffer
    }

    /// The width and height in pixels.
    pub closed spec fn extent(&self) -> Vector2<u32> {
        self.size
    }

    /// The state after `new`: the renderbuffer is bound and given
    /// multisampled storage.
    pub open spec fn created(
        state: GlState,
        renderbuffer: Handle,
        size: Vector2<u32>,
        format: TextureFormat,
        max_samples: i32,
    ) -> GlState {
        state.emit(
            GlCall::BindRenderbuffer { target: gl::RENDERBUFFER, renderbuffer: Some(renderbuffer) },
        ).emit(
            GlCall::RenderbufferStorageMultisample {
                target: gl::RENDERBUFFER,
                samples: max_samples,
                internal_format: format.spec_to_gl_internal_format(),
                width: size.x as i32,
                height: size.y as i32,
            },
        )
    }

    /// Creates a renderbuffer on the native renderbuffer `renderbuffer`,
    /// with as many samples as the device allows: `max_samples` is what it
    /// reports as its limit.
    pub fn new(
        context: &mut GlContext,
        renderbuffer: Handle,
        size: Vector2<u32>,
        format: TextureFormat,
        max_samples: i32,
    ) -> (made: Self)
        requires
            size.fits_i32(),
        ensures
            made.handle() == renderbuffer,
            made.extent() == size,
            final(context)@ == Self::created(old(context)@, renderbuffer, size, format, max_samples),
    {
        context.emit(
            GlCommand::BindRenderbuffer { target: gl::RENDERBUFFER, renderbuffer: Some(renderbuffer) },
        );
        let samples = max_samples;
        context.emit(
            GlCommand::RenderbufferStorageMultisample {
                target: gl::RENDERBUFFER,
                samples,
                internal_format: format.to_gl_internal_format(),
                width: size.x as i32,
                height: size.y as i32,
            },
        );
        Renderbuffer { renderbuffer, size }
    }

    /// The native renderbuffer.
    pub fn native(&self) -> (renderbuffer: Handle)
        ensures
            renderbuffer == self.handle(),
    {
        self.renderbuffer
    }

    /// Gives the native renderbuffer back to the device. The renderbuffer
    /// is gone with this call, so it cannot be released twice or used
    /// afterwards.
    pub fn release(self, context: &mut GlContext)
        ensures
            final(context)@ == old(context)@.emit(GlCall::DeleteRenderbuffer(self.handle())),
    {
        context.emit(GlCommand::DeleteRenderbuffer(self.renderbuffer));
    }
}

/// A framebuffer attachment; either a texture or a renderbuffer.
pub trait FramebufferAttachment: Sized {
    /// The width and height of the attachment in pixels.
    spec fn attachment_extent(&self) -> Vector2<u32>;

    /// The call that attaches this to the framebuffer bound for drawing
    /// and reading, as its first color attachment.
    spec fn attach_call(&self) -> GlCall;

    /// The call that gives the native object of the attachment back.
    spec fn release_call(&self) -> GlCall;

    fn size(&self) -> (size: Vector2<u32>)
        ensures
            size == self.attachment_extent(),
    ;

    fn attach_to_framebuffer(&self, context: &mut GlContext)
        ensures
            final(context)@ == old(context)@.emit(self.attach_call()),
    ;

    fn release_attachment(self, context: &mut GlContext)
        ensures
            final(context)@ == old(context)@.emit(self.release_call()),
    ;
}

impl FramebufferAttachment for Texture2d {
    open spec fn attachment_extent(&self) -> Vector2<u32> {
        self.extent()
    }

    open spec fn attach_call(&self) -> GlCall {
        GlCall::FramebufferTexture2d {
            target: gl::FRAMEBUFFER,
            attachment: gl::COLOR_ATTACHMENT0,
            texture_target: gl::TEXTURE_2D,
            texture: Some(self.handle()),
            level: 0,
        }
    }

    open spec fn release_call(&self) -> GlCall {
        GlCall::DeleteTexture(self.handle())
    }

    fn size(&self) -> (size: Vector2<u32>) {
        Texture2d::size(self)
    }

    fn attach_to_framebuffer(&self, context: &mut GlContext) {
        context.emit(
            GlCommand::FramebufferTexture2d {
                target: gl::FRAMEBUFFER,
                attachment: gl::COLOR_ATTACHMENT0,
                texture_target: gl::TEXTURE_2D,
                texture: Some(self.native()),
                level: 0,
            },
        );
    }

    fn release_attachment(self, context: &mut GlContext) {
        self.release(context);
    }
}

impl FramebufferAttachment for Renderbuffer {
    open spec fn attachment_extent(&self) -> Vector2<u32> {
        self.extent()
    }

    open spec fn attach_call(&self) -> GlCall {
        GlCall::FramebufferRenderbuffer {
            target: gl::FRAMEBUFFER,
            attachment: gl::COLOR_ATTACHMENT0,
            renderbuffer_target: gl::RENDERBUFFER,
            renderbuffer: Some(self.handle()),
        }
    }

    open spec fn release_call(&self) -> GlCall {
        GlCall::DeleteRenderbuffer(self.handle())
    }

    fn size(&self) -> (size: Vector2<u32>) {
        self.size
    }

    fn attach_to_framebuffer(&self, context: &mut GlContext) {
        context.emit(
            GlCommand::FramebufferRenderbuffer {
                target: gl::FRAMEBUFFER,
                attachment: gl::COLOR_ATTACHMENT0,
                renderbuffer_target: gl::RENDERBUFFER,
                renderbuffer: Some(self.renderbuffer),
            },
        );
    }

    fn release_attachment(self, context: &mut GlContext) {
        self.release(context);
    }
}

/// What the device's verdict on a framebuffer means: nothing is wrong with
/// a complete one, and every other status is a reason to fail.
pub open spec fn spec_classify_status(status: u32) -> Option<FailureReason> {
    if status == gl::FRAMEBUFFER_COMPLETE {
        None
    } else if status == gl::FRAMEBUFFER_INCOMPLETE_ATTACHMENT {
        Some(FailureReason::IncompleteAttachment)
    } else if status == gl::FRAMEBUFFER_INCOMPLETE_MISSING_ATTACHMENT {
        Some(FailureReason::IncompleteMissingAttachment)
    } else if status == gl::FRAMEBUFFER_UNSUPPORTED {
        Some(FailureReason::Unsupported)
    } else {
        Some(FailureReason::Unknown)
    }
}

/// Classifies the status that the device reports for a framebuffer.
pub fn classify_status(status: u32) -> (reason: Option<FailureReason>)
    ensures
        reason == spec_classify_status(status),
{
    if status == gl::FRAMEBUFFER_COMPLETE {
        None
    } else if status == gl::FRAMEBUFFER_INCOMPLETE_ATTACHMENT {
        Some(FailureReason::IncompleteAttachment)
    } else if status == gl::FRAMEBUFFER_INCOMPLETE_MISSING_ATTACHMENT {
        Some(FailureReason::IncompleteMissingAttachment)
    } else if status == gl::FRAMEBUFFER_UNSUPPORTED {
        Some(FailureReason::Unsupported)
    } else {
        Some(FailureReason::Unknown)
    }
}

/// A framebuffer.
///
/// Framebuffers have one attachment, either a texture or a renderbuffer,
/// which they own: it goes when the framebuffer goes.
#[derive(Debug)]
pub struct Framebuffer<A: FramebufferAttachment> {
    framebuffer: Handle,
    attachment: A,
    viewport: Rect<i32>,
    id: FramebufferId,
}

/// A framebuffer that has its attachment and waits for the device's verdict
/// on it. `complete` turns it into a [`Framebuffer`] or releases it.
#[derive(Debug)]
pub struct PendingFramebuffer<A: FramebufferAttachment> {
    framebuffer: Handle,
    attachment: A,
}

impl<A: FramebufferAttachment> PendingFramebuffer<A> {
    /// The native framebuffer.
    pub closed spec fn handle(&self) -> Handle {
        self.framebuffer
    }

    /// What is attached.
    pub closed spec fn attached(&self) -> A {
        self.attachment
    }

    /// The state after a pending framebuffer has been given up: the native
    /// framebuffer and then the attachment are handed back.
    pub open spec fn abandoned(&self, state: GlState) -> GlState {
        state.emit(GlCall::DeleteFramebuffer(self.handle())).emit(self.attached().release_call())
    }

    /// Ends the construction with the status that the device reports for
    /// the framebuffer, which must still be the one bound. A complete
    /// framebuffer is handed out. For any other status the framebuffer and
    /// its attachment are released, and the status is told as the reason.
    pub fn complete(self, context: &mut GlContext, status: u32) -> (made: Result<
        Framebuffer<A>,
        CreationFailed,
    >)
        requires
            self.attached().attachment_extent().fits_i32(),
        ensures
            match spec_classify_status(status) {
                None => {
                    &&& made matches Ok(framebuffer)
                    &&& framebuffer.wf()
                    &&& framebuffer.handle() == self.handle()
                    &&& framebuffer.attached() == self.attached()
                    &&& final(context)@ == old(context)@
                },
                Some(reason) => {
                    &&& made == Err::<Framebuffer<A>, CreationFailed>(
                        CreationFailed { kind: ResourceKind::Framebuffer, reason },
                    )
                    &&& final(context)@ == self.abandoned(old(context)@)
                },
            },
    {
        match classify_status(status) {
            Some(reason) => {
                context.emit(GlCommand::DeleteFramebuffer(self.framebuffer));
                self.attachment.release_attachment(context);
                Err(CreationFailed { kind: ResourceKind::Framebuffer, reason })
            },
            None => {
                let extent = self.attachment.size().cast().unwrap();
                let viewport = Rect::new(Point2::origin(), Point2::from_vec(extent));
                Ok(
                    Framebuffer {
                        framebuffer: self.framebuffer,
                        attachment: self.attachment,
                        viewport,
                        id: FramebufferId::new(),
                    },
                )
            },
        }
    }
}

impl Framebuffer<Texture2d> {
    /// Starts a framebuffer on the native framebuffer `framebuffer` that
    /// renders into a new, empty texture on the native texture `texture`.
    pub fn new_with_texture(
        context: &mut GlContext,
        framebuffer: Handle,
        texture: Handle,
        size: Vector2<u32>,
        format: TextureFormat,
        min_filter: MinFilter,
        mag_filter: MagFilter,
        wrap_mode: WrapMode,
    ) -> (pending: PendingFramebuffer<Texture2d>)
        requires
            size.fits_i32(),
            !min_filter.spec_has_mipmap(),
        ensures
            pending.handle() == framebuffer,
            pending.attached().handle() == texture,
            pending.attached().extent() == size,
            pending.attached().spec_is_srgb() == format.spec_is_srgb(),
            final(context)@ == Self::attached_state(
                Texture2d::created(
                    old(context)@,
                    pending.attached().id(),
                    texture,
                    Texture2d::image_call(size, format, None),
                    min_filter,
                    mag_filter,
                    wrap_mode,
                ),
                framebuffer,
                pending.attached(),
            ),
    {
        let texture = Texture2d::empty(
            context,
            texture,
            size,
            format,
            min_filter,
            mag_filter,
            wrap_mode,
        );
        Self::new(context, framebuffer, texture)
    }
}

impl Framebuffer<Renderbuffer> {
    /// Starts a framebuffer on the native framebuffer `framebuffer` that
    /// renders into a new renderbuffer on the native renderbuffer
    /// `renderbuffer`. `max_samples` is the device's limit on samples.
    pub fn new_with_renderbuffer(
        context: &mut GlContext,
        framebuffer: Handle,
        renderbuffer: Handle,
        size: Vector2<u32>,
        format: TextureFormat,
        max_samples: i32,
    ) -> (pending: PendingFramebuffer<Renderbuffer>)
        requires
            size.fits_i32(),
        ensures
            pending.handle() == framebuffer,
            pending.attached().handle() == renderbuffer,
            pending.attached().extent() == size,
            final(context)@ == Self::attached_state(
                Renderbuffer::created(old(context)@, renderbuffer, size, format, max_samples),
                framebuffer,
                pending.attached(),
            ),
    {
        let renderbuffer = Renderbuffer::new(context, renderbuffer, size, format, max_samples);
        Self::new(context, framebuffer, renderbuffer)
    }
}

impl<A: FramebufferAttachment> Framebuffer<A> {
    /// The native framebuffer.
    pub closed spec fn handle(&self) -> Handle {
        self.framebuffer
    }

    /// What the framebuffer renders into.
    pub closed spec fn attached(&self) -> A {
        self.attachment
    }

    /// The identity under which the cache knows the framebuffer.
    pub closed spec fn id(&self) -> FramebufferId {
        self.id
    }

    /// The viewport that covers the framebuffer.
    pub closed spec fn spec_viewport(&self) -> Rect<i32> {
        self.viewport
    }

    /// The state after `new`: the device binds the framebuffer for drawing
    /// and reading alike and takes the attachment. That bind goes past the
    /// cache, which therefore forgets both targets.
    pub open spec fn attached_state(state: GlState, framebuffer: Handle, attachment: A) -> GlState {
        state.with_bindings(state.bindings.without_targets()).emit(
            GlCall::BindFramebuffer { target: gl::FRAMEBUFFER, framebuffer: Some(framebuffer) },
        ).emit(attachment.attach_call())
    }

    /// The state after `blit_to`.
    pub open spec fn blitted<S: Surface>(&self, state: GlState, surface: &S) -> GlState {
        let extent = self.attached().attachment_extent();
        state.bind_read_target(self.id(), Some(self.handle())).bind_draw_target(
            surface.target_id(),
            surface.framebuffer(),
            surface.viewport(),
        ).emit(
            GlCall::BlitFramebuffer {
                src_x0: 0,
                src_y0: 0,
                src_x1: extent.x as i32,
                src_y1: extent.y as i32,
                dst_x0: 0,
                dst_y0: 0,
                dst_x1: extent.x as i32,
                dst_y1: extent.y as i32,
                mask: gl::COLOR_BUFFER_BIT,
                filter: gl::NEAREST,
            },
        )
    }

    /// Starts a framebuffer on the native framebuffer `framebuffer` with
    /// the given attachment. The device has to be asked for the status of
    /// the framebuffer next; `complete` takes the answer.
    pub fn new(context: &mut GlContext, framebuffer: Handle, attachment: A) -> (pending:
        PendingFramebuffer<A>)
        ensures
            pending.handle() == framebuffer,
            pending.attached() == attachment,
            final(context)@ == Self::attached_state(old(context)@, framebuffer, attachment),
    {
        context.forget_targets();
        context.emit(
            GlCommand::BindFramebuffer { target: gl::FRAMEBUFFER, framebuffer: Some(framebuffer) },
        );
        attachment.attach_to_framebuffer(context);
        PendingFramebuffer { framebuffer, attachment }
    }

    /// Copies the color buffer of this framebuffer to `surface`, at the
    /// same place and size. The destination must not be multisampled.
    pub fn blit_to<S: Surface>(&self, context: &mut GlContext, surface: &S)
        requires
            self.wf(),
            surface.wf(),
        ensures
            final(context)@ == self.blitted(old(context)@, surface),
    {
        self.bind_read(context);
        surface.bind(context);
        let size = self.attachment.size().cast().unwrap();
        context.emit(
            GlCommand::BlitFramebuffer {
                src_x0: 0,
                src_y0: 0,
                src_x1: size.x,
                src_y1: size.y,
                dst_x0: 0,
                dst_y0: 0,
                dst_x1: size.x,
                dst_y1: size.y,
                mask: gl::COLOR_BUFFER_BIT,
                filter: gl::NEAREST,
            },
        );
    }

    /// The native framebuffer.
    pub fn native(&self) -> (framebuffer: Handle)
        ensures
            framebuffer == self.handle(),
    {
        self.framebuffer
    }

    /// What the framebuffer renders into.
    pub fn attachment(&self) -> (attachment: &A)
        ensures
            *attachment == self.attached(),
    {
        &self.attachment
    }

    /// Gives the native framebuffer back to the device, and then the
    /// attachment. The framebuffer is gone with this call, so it cannot be
    /// released twice or used afterwards.
    pub fn release(self, context: &mut GlContext)
        ensures
            final(context)@ == old(context)@.emit(GlCall::DeleteFramebuffer(self.handle())).emit(
                self.attached().release_call(),
            ),
    {
        context.emit(GlCommand::DeleteFramebuffer(self.framebuffer));
        self.attachment.release_attachment(context);
    }
}

impl<A: FramebufferAttachment> Surface for Framebuffer<A> {
    open spec fn target_id(&self) -> FramebufferId {
        self.id()
    }

    open spec fn framebuffer(&self) -> Option<Handle> {
        Some(self.handle())
    }

    open spec fn extent(&self) -> Vector2<u32> {
        self.attached().attachment_extent()
    }

    open spec fn viewport(&self) -> Rect<i32> {
        self.spec_viewport()
    }

    open spec fn wf(&self) -> bool {
        &&& self.extent().fits_i32()
        &&& self.viewport() == Rect::from_extent(self.extent())
    }

    fn bind(&self, context: &mut GlContext) {
        context.bind_draw_target(self.id, Some(self.framebuffer), &self.viewport);
    }

    fn bind_read(&self, context: &mut GlContext) {
        context.bind_read_target(self.id, Some(self.framebuffer));
    }

    fn size(&self) -> (size: Vector2<u32>) {
        self.attachment.size()
    }
}

} // verus!
