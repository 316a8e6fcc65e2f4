use webgl_wrapper::gl;
use webgl_wrapper::{
    ClearBuffer, Framebuffer, GlCommand, GlContext, Handle, MagFilter, MinFilter, ScreenSurface,
    Surface, Texture2d, TextureFormat, Vector2, WrapMode,
};

fn fresh_context(width: u32, height: u32) -> (GlContext, ScreenSurface) {
    let (mut context, screen) =
        GlContext::new(Handle(1), Handle(2), Vector2 { x: width, y: height });
    context.take_commands();
    (context, screen)
}

fn framebuffer(
    context: &mut GlContext,
    framebuffer: u32,
    texture: u32,
    width: u32,
    height: u32,
) -> Framebuffer<Texture2d> {
    let pending = Framebuffer::new_with_texture(
        context,
        Handle(framebuffer),
        Handle(texture),
        Vector2 { x: width, y: height },
        TextureFormat::RGBA,
        MinFilter::Linear,
        MagFilter::Linear,
        WrapMode::ClampToEdge,
    );
    let made = pending.complete(context, gl::FRAMEBUFFER_COMPLETE).unwrap();
    context.take_commands();
    made
}

fn count_draw_binds(commands: &[GlCommand]) -> usize {
    commands
        .iter()
        .filter(|c| matches!(c, GlCommand::BindFramebuffer { target, .. } if *target == gl::DRAW_FRAMEBUFFER))
        .count()
}

fn count_viewports(commands: &[GlCommand]) -> usize {
    commands.iter().filter(|c| matches!(c, GlCommand::Viewport { .. })).count()
}

#[test]
fn binding_a_a_b_costs_two_binds_and_two_viewports() {
    let (mut context, a) = fresh_context(800, 600);
    let b = framebuffer(&mut context, 10, 11, 64, 32);

    a.bind(&mut context);
    assert_eq!(
        *context.commands(),
        vec![
            GlCommand::BindFramebuffer { target: gl::DRAW_FRAMEBUFFER, framebuffer: None },
            GlCommand::Viewport { x: 0, y: 0, width: 800, height: 600 },
        ]
    );
    a.bind(&mut context);
    assert_eq!(context.commands().len(), 2);
    b.bind(&mut context);
    assert_eq!(
        context.commands()[2..],
        [
            GlCommand::BindFramebuffer {
                target: gl::DRAW_FRAMEBUFFER,
                framebuffer: Some(Handle(10))
            },
            GlCommand::Viewport { x: 0, y: 0, width: 64, height: 32 },
        ]
    );
    assert_eq!(count_draw_binds(context.commands()), 2);
    assert_eq!(count_viewports(context.commands()), 2);
}

#[test]
fn runs_of_one_target_collapse_into_one_bind() {
    let (mut context, a) = fresh_context(8, 8);
    let b = framebuffer(&mut context, 10, 11, 4, 4);
    let c = framebuffer(&mut context, 12, 13, 2, 2);
    // A A B B B A C C A: five runs.
    a.bind(&mut context);
    a.bind(&mut context);
    b.bind(&mut context);
    b.bind(&mut context);
    b.bind(&mut context);
    a.bind(&mut context);
    c.bind(&mut context);
    c.bind(&mut context);
    a.bind(&mut context);
    assert_eq!(count_draw_binds(context.commands()), 5);
    assert_eq!(count_viewports(context.commands()), 5);
    assert_eq!(context.commands().len(), 10);
}

#[test]
fn binding_the_screen_again_after_a_framebuffer_is_not_elided() {
    let (mut context, screen) = fresh_context(8, 8);
    let other = framebuffer(&mut context, 10, 11, 4, 4);
    screen.bind(&mut context);
    other.bind(&mut context);
    context.take_commands();
    screen.bind(&mut context);
    assert_eq!(
        *context.commands(),
        vec![
            GlCommand::BindFramebuffer { target: gl::DRAW_FRAMEBUFFER, framebuffer: None },
            GlCommand::Viewport { x: 0, y: 0, width: 8, height: 8 },
        ]
    );
}

#[test]
fn bind_read_is_elided_too_and_leaves_the_viewport() {
    let (mut context, screen) = fresh_context(8, 8);
    let other = framebuffer(&mut context, 10, 11, 4, 4);
    screen.bind_read(&mut context);
    screen.bind_read(&mut context);
    other.bind_read(&mut context);
    other.bind_read(&mut context);
    assert_eq!(
        *context.commands(),
        vec![
            GlCommand::BindFramebuffer { target: gl::READ_FRAMEBUFFER, framebuffer: None },
            GlCommand::BindFramebuffer {
                target: gl::READ_FRAMEBUFFER,
                framebuffer: Some(Handle(10))
            },
        ]
    );
    assert_eq!(count_viewports(context.commands()), 0);
}

#[test]
fn draw_and_read_targets_are_cached_apart() {
    let (mut context, screen) = fresh_context(8, 8);
    screen.bind(&mut context);
    context.take_commands();
    screen.bind_read(&mut context);
    assert_eq!(
        *context.commands(),
        vec![GlCommand::BindFramebuffer { target: gl::READ_FRAMEBUFFER, framebuffer: None }]
    );
    context.take_commands();
    screen.bind(&mut context);
    screen.bind_read(&mut context);
    assert!(context.commands().is_empty());
}

#[test]
fn clear_binds_then_clears_once() {
    let (mut context, screen) = fresh_context(10, 20);
    let red = [1.0f32.to_bits(), 0.0f32.to_bits(), 0.0f32.to_bits(), 1.0f32.to_bits()];
    screen.clear(&mut context, &[ClearBuffer::Color(red), ClearBuffer::Depth]);
    assert_eq!(
        *context.commands(),
        vec![
            GlCommand::BindFramebuffer { target: gl::DRAW_FRAMEBUFFER, framebuffer: None },
            GlCommand::Viewport { x: 0, y: 0, width: 10, height: 20 },
            GlCommand::ClearColor { red: red[0], green: red[1], blue: red[2], alpha: red[3] },
            GlCommand::Clear(0x4100),
        ]
    );
}

#[test]
fn clear_of_depth_alone_sets_no_color() {
    let (mut context, screen) = fresh_context(10, 20);
    screen.bind(&mut context);
    context.take_commands();
    screen.clear(&mut context, &[ClearBuffer::Depth]);
    assert_eq!(
        *context.commands(), vec![GlCommand::Clear(0x100)]);
}

#[test]
fn clear_of_color_alone() {
    let (mut context, screen) = fresh_context(10, 20);
    screen.bind(&mut context);
    context.take_commands();
    screen.clear(&mut context, &[ClearBuffer::Color([9, 8, 7, 6])]);
    assert_eq!(
        *context.commands(),
        vec![
            GlCommand::ClearColor { red: 9, green: 8, blue: 7, alpha: 6 },
            GlCommand::Clear(0x4000),
        ]
    );
}

#[test]
fn clear_sets_each_color_in_turn_and_clears_once() {
    let (mut context, screen) = fresh_context(10, 20);
    screen.bind(&mut context);
    context.take_commands();
    screen.clear(
        &mut context,
        &[
            ClearBuffer::Depth,
            ClearBuffer::Color([1, 1, 1, 1]),
            ClearBuffer::Depth,
            ClearBuffer::Color([2, 2, 2, 2]),
        ],
    );
    assert_eq!(
        *context.commands(),
        vec![
            GlCommand::ClearColor { red: 1, green: 1, blue: 1, alpha: 1 },
            GlCommand::ClearColor { red: 2, green: 2, blue: 2, alpha: 2 },
            GlCommand::Clear(0x4100),
        ]
    );
}

#[test]
fn clear_of_a_framebuffer_binds_it() {
    let (mut context, _screen) = fresh_context(10, 20);
    let target = framebuffer(&mut context, 10, 11, 4, 6);
    target.clear(&mut context, &[ClearBuffer::Depth]);
    assert_eq!(
        *context.commands(),
        vec![
            GlCommand::BindFramebuffer {
                target: gl::DRAW_FRAMEBUFFER,
                framebuffer: Some(Handle(10))
            },
            GlCommand::Viewport { x: 0, y: 0, width: 4, height: 6 },
            GlCommand::Clear(0x100),
        ]
    );
}

#[test]
fn resizing_the_bound_screen_moves_the_viewport_at_once() {
    let (mut context, mut screen) = fresh_context(800, 600);
    screen.bind(&mut context);
    context.take_commands();
    screen.set_size(&mut context, Vector2 { x: 1024, y: 768 });
    assert_eq!(screen.size(), Vector2 { x: 1024, y: 768 });
    assert_eq!(
        *context.commands(),
        vec![
            GlCommand::ResizeCanvas { width: 1024, height: 768 },
            GlCommand::Viewport { x: 0, y: 0, width: 1024, height: 768 },
        ]
    );
    // The screen is still the draw target: nothing more to do.
    context.take_commands();
    screen.bind(&mut context);
    assert!(context.commands().is_empty());
}

#[test]
fn resizing_the_unbound_screen_waits_for_the_next_bind() {
    let (mut context, mut screen) = fresh_context(800, 600);
    let other = framebuffer(&mut context, 10, 11, 4, 4);
    screen.bind(&mut context);
    other.bind(&mut context);
    context.take_commands();
    screen.set_size(&mut context, Vector2 { x: 300, y: 200 });
    assert_eq!(screen.size(), Vector2 { x: 300, y: 200 });
    assert_eq!(
        *context.commands(), vec![GlCommand::ResizeCanvas { width: 300, height: 200 }]);
    context.take_commands();
    screen.bind(&mut context);
    assert_eq!(
        *context.commands(),
        vec![
            GlCommand::BindFramebuffer { target: gl::DRAW_FRAMEBUFFER, framebuffer: None },
            GlCommand::Viewport { x: 0, y: 0, width: 300, height: 200 },
        ]
    );
}

#[test]
fn resizing_before_any_bind_sets_no_viewport() {
    let (mut context, mut screen) = fresh_context(800, 600);
    screen.set_size(&mut context, Vector2 { x: 0, y: 0 });
    assert_eq!(
        *context.commands(), vec![GlCommand::ResizeCanvas { width: 0, height: 0 }]);
    assert_eq!(screen.size(), Vector2 { x: 0, y: 0 });
}

#[test]
fn resizing_to_the_largest_extent() {
    let (mut context, mut screen) = fresh_context(1, 1);
    screen.bind(&mut context);
    context.take_commands();
    screen.set_size(&mut context, Vector2 { x: 2147483647, y: 2147483647 });
    assert_eq!(
        context.commands()[1],
        GlCommand::Viewport { x: 0, y: 0, width: i32::MAX, height: i32::MAX }
    );
}

#[test]
fn framebuffer_size_is_that_of_its_attachment() {
    let (mut context, _screen) = fresh_context(10, 20);
    let target = framebuffer(&mut context, 10, 11, 33, 44);
    assert_eq!(target.size(), Vector2 { x: 33, y: 44 });
}
