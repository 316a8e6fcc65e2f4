use webgl_wrapper::gl;
use webgl_wrapper::{
    DrawMode, FramebufferId, GlCommand, GlContext, GlContextCache, Handle, MeshId, ProgramId,
    ScreenSurface, Surface, TextureId, Vector2,
};

fn fresh_context(width: u32, height: u32) -> (GlContext, ScreenSurface) {
    let (mut context, screen) =
        GlContext::new(Handle(1), Handle(2), Vector2 { x: width, y: height });
    context.take_commands();
    (context, screen)
}

#[test]
fn new_context_prepares_the_device() {
    let (context, screen) = GlContext::new(Handle(7), Handle(8), Vector2 { x: 640, y: 480 });
    assert_eq!(
        *context.commands(),
        vec![
            GlCommand::Enable(0x0BE2),
            GlCommand::BlendFunc { sfactor: 1, dfactor: 0x0303 },
            GlCommand::PixelStorei { pname: 0x0CF5, param: 1 },
            GlCommand::BindVertexArray(Some(Handle(7))),
            GlCommand::BindBuffer { target: 0x8892, buffer: Some(Handle(8)) },
        ]
    );
    assert_eq!(context.instanced_vao(), Handle(7));
    assert_eq!(context.instanced_vbo(), Handle(8));
    assert_eq!(context.cache().bound_mesh, None);
    assert_eq!(context.cache().bound_program, None);
    assert_eq!(context.cache().bound_framebuffer, None);
    assert_eq!(context.cache().bound_read_framebuffer, None);
    assert_eq!(context.cache().draw_mode, None);
    assert!(context.cache().bound_textures.iter().all(|slot| slot.is_none()));
    assert_eq!(screen.size(), Vector2 { x: 640, y: 480 });
}

#[test]
fn new_cache_knows_nothing() {
    let cache = GlContextCache::new();
    assert_eq!(cache.bound_mesh, None);
    assert_eq!(cache.draw_mode, None);
    assert_eq!(cache.bound_program, None);
    assert_eq!(cache.bound_framebuffer, None);
    assert_eq!(cache.bound_read_framebuffer, None);
    assert_eq!(cache.bound_textures.len(), 32);
    assert!(cache.bound_textures.iter().all(|slot| slot.is_none()));
}

#[test]
fn cache_asks_for_a_call_only_on_change() {
    let mut cache = GlContextCache::new();
    let a = ProgramId::new();
    let b = ProgramId::new();
    assert!(cache.bind_program(a));
    assert_eq!(cache.bound_program, Some(a));
    assert!(!cache.bind_program(a));
    assert_eq!(cache.bound_program, Some(a));
    assert!(cache.bind_program(b));
    assert_eq!(cache.bound_program, Some(b));
    assert!(cache.bind_program(a));

    let x = FramebufferId::new();
    let y = FramebufferId::new();
    assert!(cache.bind_draw_target(x));
    assert!(!cache.bind_draw_target(x));
    assert!(cache.bind_read_target(x));
    assert!(!cache.bind_read_target(x));
    assert!(cache.bind_draw_target(y));
    assert_eq!(cache.bound_framebuffer, Some(y));
    assert_eq!(cache.bound_read_framebuffer, Some(x));

    assert!(cache.set_draw_mode(DrawMode::Draw2D));
    assert!(!cache.set_draw_mode(DrawMode::Draw2D));
    assert!(cache.set_draw_mode(DrawMode::Draw3D));
    assert_eq!(cache.draw_mode, Some(DrawMode::Draw3D));

    let m = MeshId::new();
    let n = MeshId::new();
    assert!(cache.bind_mesh(m));
    assert!(!cache.bind_mesh(m));
    assert!(cache.bind_mesh(n));
    assert_eq!(cache.bound_mesh, Some(n));
    cache.forget_mesh();
    assert_eq!(cache.bound_mesh, None);
    assert!(cache.bind_mesh(n));
}

#[test]
fn cache_tracks_each_texture_unit_by_itself() {
    let mut cache = GlContextCache::new();
    let a = TextureId::new();
    let b = TextureId::new();
    assert!(cache.bind_texture(0, gl::TEXTURE_2D, a));
    assert!(!cache.bind_texture(0, gl::TEXTURE_2D, a));
    assert!(cache.bind_texture(31, gl::TEXTURE_2D, a));
    assert!(cache.bind_texture(0, gl::TEXTURE_2D, b));
    assert!(!cache.bind_texture(31, gl::TEXTURE_2D, a));
    assert!(cache.bind_texture(31, 0x8513, a));
    assert_eq!(cache.bound_textures[0], Some((gl::TEXTURE_2D, b)));
    assert_eq!(cache.bound_textures[31], Some((0x8513, a)));
    assert_eq!(cache.bound_textures[1], None);
}

#[test]
fn cache_forgets_both_targets_together() {
    let mut cache = GlContextCache::new();
    let x = FramebufferId::new();
    let p = ProgramId::new();
    cache.bind_draw_target(x);
    cache.bind_read_target(x);
    cache.bind_program(p);
    cache.forget_targets();
    assert_eq!(cache.bound_framebuffer, None);
    assert_eq!(cache.bound_read_framebuffer, None);
    assert_eq!(cache.bound_program, Some(p));
    assert!(cache.bind_draw_target(x));
}

#[test]
fn take_commands_hands_out_what_was_recorded_and_starts_afresh() {
    let (mut context, screen) = fresh_context(4, 4);
    screen.bind(&mut context);
    DrawMode::Draw2D.bind(&mut context);
    let expected = vec![
        GlCommand::BindFramebuffer { target: gl::DRAW_FRAMEBUFFER, framebuffer: None },
        GlCommand::Viewport { x: 0, y: 0, width: 4, height: 4 },
        GlCommand::Disable(gl::CULL_FACE),
        GlCommand::Disable(gl::DEPTH_TEST),
    ];
    assert_eq!(*context.commands(), expected);
    let taken = context.take_commands();
    assert_eq!(taken, expected);
    assert!(context.commands().is_empty());
    DrawMode::Draw3D.bind(&mut context);
    assert_eq!(
        context.take_commands(),
        vec![GlCommand::Enable(gl::CULL_FACE), GlCommand::Enable(gl::DEPTH_TEST)]
    );
    assert!(context.take_commands().is_empty());
}

#[test]
fn taking_commands_keeps_the_cache() {
    let (mut context, screen) = fresh_context(4, 4);
    screen.bind(&mut context);
    let bound = context.cache().bound_framebuffer;
    assert!(bound.is_some());
    context.take_commands();
    assert_eq!(context.cache().bound_framebuffer, bound);
    screen.bind(&mut context);
    assert!(context.commands().is_empty());
}

#[test]
fn draw_mode_switches_both_flags_on_change_only() {
    let (mut context, _screen) = fresh_context(4, 4);
    DrawMode::Draw2D.bind(&mut context);
    assert_eq!(
        context.take_commands(),
        vec![GlCommand::Disable(gl::CULL_FACE), GlCommand::Disable(gl::DEPTH_TEST)]
    );
    DrawMode::Draw2D.bind(&mut context);
    assert!(context.commands().is_empty());
    DrawMode::Draw3D.bind(&mut context);
    assert_eq!(
        context.take_commands(),
        vec![GlCommand::Enable(gl::CULL_FACE), GlCommand::Enable(gl::DEPTH_TEST)]
    );
    DrawMode::Draw3D.bind(&mut context);
    assert!(context.commands().is_empty());
    assert_eq!(context.cache().draw_mode, Some(DrawMode::Draw3D));
}

#[test]
fn ids_are_distinct_and_never_zero() {
    let a = FramebufferId::new();
    let b = FramebufferId::new();
    assert_ne!(a, b);
    assert_ne!(a.get(), 0);
    assert_ne!(b.get(), 0);
    let p = ProgramId::new();
    let q = ProgramId::new();
    assert_ne!(p, q);
    assert_ne!(p.get(), 0);
    let t = TextureId::new();
    let u = TextureId::new();
    assert_ne!(t, u);
    assert_ne!(t.get(), 0);
    let m = MeshId::new();
    let n = MeshId::new();
    assert_ne!(m, n);
    assert_ne!(m.get(), 0);
}
