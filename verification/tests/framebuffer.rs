use webgl_wrapper::framebuffer::classify_status;
use webgl_wrapper::gl;
use webgl_wrapper::{
    CreationFailed, FailureReason, Framebuffer, FramebufferAttachment, FramebufferId, GlCommand,
    GlContext, Handle, MagFilter, MinFilter, Renderbuffer, ResourceKind, ScreenSurface, Surface,
    Texture2d, TextureFormat, Vector2, WrapMode,
};

fn fresh_context() -> (GlContext, ScreenSurface) {
    let (mut context, screen) = GlContext::new(Handle(1), Handle(2), Vector2 { x: 100, y: 50 });
    context.take_commands();
    (context, screen)
}

#[test]
fn renderbuffer_gets_multisampled_storage() {
    let (mut context, _screen) = fresh_context();
    let renderbuffer =
        Renderbuffer::new(&mut context, Handle(30), Vector2 { x: 64, y: 48 }, TextureFormat::RGBA, 4);
    assert_eq!(
        *context.commands(),
        vec![
            GlCommand::BindRenderbuffer { target: 0x8D41, renderbuffer: Some(Handle(30)) },
            GlCommand::RenderbufferStorageMultisample {
                target: 0x8D41,
                samples: 4,
                internal_format: 0x8058,
                width: 64,
                height: 48,
            },
        ]
    );
    assert_eq!(renderbuffer.size(), Vector2 { x: 64, y: 48 });
    assert_eq!(renderbuffer.native(), Handle(30));
}

#[test]
fn framebuffer_with_renderbuffer_attaches_it() {
    let (mut context, _screen) = fresh_context();
    let pending = Framebuffer::new_with_renderbuffer(
        &mut context,
        Handle(40),
        Handle(30),
        Vector2 { x: 64, y: 48 },
        TextureFormat::SRGBA,
        8,
    );
    assert_eq!(
        *context.commands(),
        vec![
            GlCommand::BindRenderbuffer { target: 0x8D41, renderbuffer: Some(Handle(30)) },
            GlCommand::RenderbufferStorageMultisample {
                target: 0x8D41,
                samples: 8,
                internal_format: 0x8C43,
                width: 64,
                height: 48,
            },
            GlCommand::BindFramebuffer { target: 0x8D40, framebuffer: Some(Handle(40)) },
            GlCommand::FramebufferRenderbuffer {
                target: 0x8D40,
                attachment: 0x8CE0,
                renderbuffer_target: 0x8D41,
                renderbuffer: Some(Handle(30)),
            },
        ]
    );
    context.take_commands();
    let framebuffer = pending.complete(&mut context, gl::FRAMEBUFFER_COMPLETE).unwrap();
    assert!(context.commands().is_empty());
    assert_eq!(framebuffer.native(), Handle(40));
    assert_eq!(framebuffer.size(), Vector2 { x: 64, y: 48 });
    assert_eq!(framebuffer.attachment().native(), Handle(30));
}

#[test]
fn framebuffer_with_texture_makes_the_texture_first() {
    let (mut context, _screen) = fresh_context();
    let pending = Framebuffer::new_with_texture(
        &mut context,
        Handle(40),
        Handle(5),
        Vector2 { x: 8, y: 4 },
        TextureFormat::RGB,
        MinFilter::Nearest,
        MagFilter::Nearest,
        WrapMode::ClampToEdge,
    );
    assert_eq!(
        *context.commands(),
        vec![
            GlCommand::ActiveTexture(0x84C0),
            GlCommand::BindTexture { target: 0x0DE1, texture: Some(Handle(5)) },
            GlCommand::TexImage2d {
                target: 0x0DE1,
                level: 0,
                internal_format: 0x8051,
                width: 8,
                height: 4,
                border: 0,
                format: 0x1907,
                data_type: 0x1401,
                pixels: None,
            },
            GlCommand::TexParameteri { target: 0x0DE1, pname: 0x2801, param: 0x2600 },
            GlCommand::TexParameteri { target: 0x0DE1, pname: 0x2800, param: 0x2600 },
            GlCommand::TexParameteri { target: 0x0DE1, pname: 0x2802, param: 0x812F },
            GlCommand::TexParameteri { target: 0x0DE1, pname: 0x2803, param: 0x812F },
            GlCommand::BindFramebuffer { target: 0x8D40, framebuffer: Some(Handle(40)) },
            GlCommand::FramebufferTexture2d {
                target: 0x8D40,
                attachment: 0x8CE0,
                texture_target: 0x0DE1,
                texture: Some(Handle(5)),
                level: 0,
            },
        ]
    );
    let framebuffer = pending.complete(&mut context, 0x8CD5).unwrap();
    assert_eq!(framebuffer.attachment().native(), Handle(5));
    assert_eq!(framebuffer.attachment().size(), Vector2 { x: 8, y: 4 });
}

#[test]
fn framebuffer_new_takes_any_attachment() {
    let (mut context, _screen) = fresh_context();
    let texture = Texture2d::empty(
        &mut context,
        Handle(5),
        Vector2 { x: 8, y: 4 },
        TextureFormat::RGBA,
        MinFilter::Linear,
        MagFilter::Linear,
        WrapMode::Repeat,
    );
    context.take_commands();
    let pending = Framebuffer::new(&mut context, Handle(41), texture);
    assert_eq!(
        *context.commands(),
        vec![
            GlCommand::BindFramebuffer { target: 0x8D40, framebuffer: Some(Handle(41)) },
            GlCommand::FramebufferTexture2d {
                target: 0x8D40,
                attachment: 0x8CE0,
                texture_target: 0x0DE1,
                texture: Some(Handle(5)),
                level: 0,
            },
        ]
    );
    assert!(pending.complete(&mut context, gl::FRAMEBUFFER_COMPLETE).is_ok());
}

fn failed_with(status: u32) -> (Vec<GlCommand>, CreationFailed) {
    let (mut context, _screen) = fresh_context();
    let pending = Framebuffer::new_with_renderbuffer(
        &mut context,
        Handle(40),
        Handle(30),
        Vector2 { x: 64, y: 48 },
        TextureFormat::Red,
        4,
    );
    context.take_commands();
    let failure = pending.complete(&mut context, status).unwrap_err();
    (context.take_commands(), failure)
}

#[test]
fn unsupported_framebuffer_fails_and_is_released() {
    let (commands, failure) = failed_with(gl::FRAMEBUFFER_UNSUPPORTED);
    assert_eq!(
        failure,
        CreationFailed { kind: ResourceKind::Framebuffer, reason: FailureReason::Unsupported }
    );
    assert_eq!(
        commands,
        vec![GlCommand::DeleteFramebuffer(Handle(40)), GlCommand::DeleteRenderbuffer(Handle(30))]
    );
}

#[test]
fn incomplete_attachment_fails() {
    let (commands, failure) = failed_with(gl::FRAMEBUFFER_INCOMPLETE_ATTACHMENT);
    assert_eq!(
        failure,
        CreationFailed {
            kind: ResourceKind::Framebuffer,
            reason: FailureReason::IncompleteAttachment
        }
    );
    assert_eq!(commands.len(), 2);
}

#[test]
fn missing_attachment_fails() {
    let (_commands, failure) = failed_with(gl::FRAMEBUFFER_INCOMPLETE_MISSING_ATTACHMENT);
    assert_eq!(
        failure,
        CreationFailed {
            kind: ResourceKind::Framebuffer,
            reason: FailureReason::IncompleteMissingAttachment
        }
    );
}

#[test]
fn any_other_status_is_an_unknown_failure() {
    for status in [0u32, 1, 0x8CD9, 0x8D56, u32::MAX] {
        let (_commands, failure) = failed_with(status);
        assert_eq!(
            failure,
            CreationFailed { kind: ResourceKind::Framebuffer, reason: FailureReason::Unknown }
        );
    }
}

#[test]
fn failed_texture_framebuffer_releases_the_texture() {
    let (mut context, _screen) = fresh_context();
    let pending = Framebuffer::new_with_texture(
        &mut context,
        Handle(40),
        Handle(5),
        Vector2 { x: 8, y: 4 },
        TextureFormat::RGB,
        MinFilter::Nearest,
        MagFilter::Nearest,
        WrapMode::ClampToEdge,
    );
    context.take_commands();
    let failure = pending.complete(&mut context, gl::FRAMEBUFFER_UNSUPPORTED).unwrap_err();
    assert_eq!(failure.kind, ResourceKind::Framebuffer);
    assert_eq!(failure.reason, FailureReason::Unsupported);
    assert_eq!(
        *context.commands(),
        vec![GlCommand::DeleteFramebuffer(Handle(40)), GlCommand::DeleteTexture(Handle(5))]
    );
}

#[test]
fn statuses_are_classified() {
    assert_eq!(classify_status(0x8CD5), None);
    assert_eq!(classify_status(0x8CD6), Some(FailureReason::IncompleteAttachment));
    assert_eq!(classify_status(0x8CD7), Some(FailureReason::IncompleteMissingAttachment));
    assert_eq!(classify_status(0x8CDD), Some(FailureReason::Unsupported));
    assert_eq!(classify_status(0x8CD9), Some(FailureReason::Unknown));
    assert_eq!(classify_status(0), Some(FailureReason::Unknown));
}

#[test]
fn starting_a_framebuffer_makes_the_cache_forget_both_targets() {
    let (mut context, screen) = fresh_context();
    screen.bind(&mut context);
    screen.bind_read(&mut context);
    assert!(context.cache().bound_framebuffer.is_some());
    assert!(context.cache().bound_read_framebuffer.is_some());
    let pending = Framebuffer::new_with_texture(
        &mut context,
        Handle(40),
        Handle(5),
        Vector2 { x: 64, y: 48 },
        TextureFormat::RGBA,
        MinFilter::Linear,
        MagFilter::Linear,
        WrapMode::Repeat,
    );
    assert_eq!(context.cache().bound_framebuffer, None);
    assert_eq!(context.cache().bound_read_framebuffer, None);
    // The other slots keep what they hold.
    assert!(context.cache().bound_textures[0].is_some());
    let _framebuffer = pending.complete(&mut context, gl::FRAMEBUFFER_COMPLETE).unwrap();
    context.take_commands();
    // The screen has to be bound anew, viewport and all.
    screen.bind(&mut context);
    assert_eq!(
        *context.commands(),
        vec![
            GlCommand::BindFramebuffer { target: gl::DRAW_FRAMEBUFFER, framebuffer: None },
            GlCommand::Viewport { x: 0, y: 0, width: 100, height: 50 },
        ]
    );
}

#[test]
fn blit_binds_source_for_reading_and_destination_for_drawing() {
    let (mut context, screen) = fresh_context();
    let pending = Framebuffer::new_with_renderbuffer(
        &mut context,
        Handle(40),
        Handle(30),
        Vector2 { x: 64, y: 48 },
        TextureFormat::RGBA,
        4,
    );
    let framebuffer = pending.complete(&mut context, gl::FRAMEBUFFER_COMPLETE).unwrap();
    context.take_commands();
    framebuffer.blit_to(&mut context, &screen);
    let blit = GlCommand::BlitFramebuffer {
        src_x0: 0,
        src_y0: 0,
        src_x1: 64,
        src_y1: 48,
        dst_x0: 0,
        dst_y0: 0,
        dst_x1: 64,
        dst_y1: 48,
        mask: 0x4000,
        filter: 0x2600,
    };
    assert_eq!(
        context.take_commands(),
        vec![
            GlCommand::BindFramebuffer { target: 0x8CA8, framebuffer: Some(Handle(40)) },
            GlCommand::BindFramebuffer { target: 0x8CA9, framebuffer: None },
            GlCommand::Viewport { x: 0, y: 0, width: 100, height: 50 },
            blit.clone(),
        ]
    );
    // Both targets are cached now.
    framebuffer.blit_to(&mut context, &screen);
    assert_eq!(
        *context.commands(), vec![blit]);
}

#[test]
fn releasing_a_framebuffer_releases_its_attachment() {
    let (mut context, _screen) = fresh_context();
    let pending = Framebuffer::new_with_renderbuffer(
        &mut context,
        Handle(40),
        Handle(30),
        Vector2 { x: 64, y: 48 },
        TextureFormat::RGBA,
        4,
    );
    let framebuffer = pending.complete(&mut context, gl::FRAMEBUFFER_COMPLETE).unwrap();
    context.take_commands();
    framebuffer.release(&mut context);
    assert_eq!(
        *context.commands(),
        vec![GlCommand::DeleteFramebuffer(Handle(40)), GlCommand::DeleteRenderbuffer(Handle(30))]
    );
}

#[test]
fn releasing_a_renderbuffer_deletes_it() {
    let (mut context, _screen) = fresh_context();
    let renderbuffer =
        Renderbuffer::new(&mut context, Handle(30), Vector2 { x: 1, y: 1 }, TextureFormat::RGB, 0);
    context.take_commands();
    renderbuffer.release(&mut context);
    assert_eq!(
        *context.commands(), vec![GlCommand::DeleteRenderbuffer(Handle(30))]);
}

#[test]
fn two_framebuffers_have_two_identities() {
    let (mut context, _screen) = fresh_context();
    let first = Framebuffer::new_with_renderbuffer(
        &mut context,
        Handle(40),
        Handle(30),
        Vector2 { x: 1, y: 1 },
        TextureFormat::RGBA,
        4,
    )
    .complete(&mut context, gl::FRAMEBUFFER_COMPLETE)
    .unwrap();
    let second = Framebuffer::new_with_renderbuffer(
        &mut context,
        Handle(41),
        Handle(31),
        Vector2 { x: 1, y: 1 },
        TextureFormat::RGBA,
        4,
    )
    .complete(&mut context, gl::FRAMEBUFFER_COMPLETE)
    .unwrap();
    first.bind(&mut context);
    let a: Option<FramebufferId> = context.cache().bound_framebuffer;
    second.bind(&mut context);
    let b: Option<FramebufferId> = context.cache().bound_framebuffer;
    assert!(a.is_some() && b.is_some());
    assert_ne!(a, b);
}
