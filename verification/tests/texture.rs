use webgl_wrapper::gl;
use webgl_wrapper::{
    GlCommand, GlContext, Handle, MagFilter, MinFilter, Texture2d, TextureFormat, Vector2, WrapMode,
};

fn fresh_context() -> GlContext {
    let (mut context, _screen) = GlContext::new(Handle(1), Handle(2), Vector2 { x: 4, y: 4 });
    context.take_commands();
    context
}

fn parameters(min: u32, mag: u32, wrap: u32) -> Vec<GlCommand> {
    vec![
        GlCommand::TexParameteri { target: 0x0DE1, pname: 0x2801, param: min as i32 },
        GlCommand::TexParameteri { target: 0x0DE1, pname: 0x2800, param: mag as i32 },
        GlCommand::TexParameteri { target: 0x0DE1, pname: 0x2802, param: wrap as i32 },
        GlCommand::TexParameteri { target: 0x0DE1, pname: 0x2803, param: wrap as i32 },
    ]
}

#[test]
fn empty_texture_is_bound_sized_and_given_parameters() {
    let mut context = fresh_context();
    let texture = Texture2d::empty(
        &mut context,
        Handle(5),
        Vector2 { x: 16, y: 8 },
        TextureFormat::SRGBA,
        MinFilter::Nearest,
        MagFilter::Linear,
        WrapMode::Repeat,
    );
    let mut expected = vec![
        GlCommand::ActiveTexture(0x84C0),
        GlCommand::BindTexture { target: 0x0DE1, texture: Some(Handle(5)) },
        GlCommand::TexImage2d {
            target: 0x0DE1,
            level: 0,
            internal_format: 0x8C43,
            width: 16,
            height: 8,
            border: 0,
            format: 0x1908,
            data_type: 0x1401,
            pixels: None,
        },
    ];
    expected.extend(parameters(0x2600, 0x2601, 0x2901));
    assert_eq!(
        *context.commands(), expected);
    assert!(texture.is_srgb());
    assert_eq!(texture.native(), Handle(5));
    assert_eq!(texture.size(), Vector2 { x: 16, y: 8 });
    assert!(matches!(context.cache().bound_textures[0], Some((target, _)) if target == gl::TEXTURE_2D));
}

#[test]
fn texture_from_data_uploads_the_pixels() {
    let mut context = fresh_context();
    let pixels = [1u8, 2, 3, 4, 5, 6];
    let texture = Texture2d::from_data(
        &mut context,
        Handle(6),
        Vector2 { x: 2, y: 1 },
        &pixels,
        TextureFormat::RGB,
        MinFilter::Linear,
        MagFilter::Nearest,
        WrapMode::ClampToEdge,
    );
    let mut expected = vec![
        GlCommand::ActiveTexture(0x84C0),
        GlCommand::BindTexture { target: 0x0DE1, texture: Some(Handle(6)) },
        GlCommand::TexImage2d {
            target: 0x0DE1,
            level: 0,
            internal_format: 0x8051,
            width: 2,
            height: 1,
            border: 0,
            format: 0x1907,
            data_type: 0x1401,
            pixels: Some(vec![1, 2, 3, 4, 5, 6]),
        },
    ];
    expected.extend(parameters(0x2601, 0x2600, 0x812F));
    assert_eq!(
        *context.commands(), expected);
    assert!(!texture.is_srgb());
}

#[test]
fn texture_with_mipmap_filter_generates_mipmaps_last() {
    let mut context = fresh_context();
    Texture2d::from_data(
        &mut context,
        Handle(6),
        Vector2 { x: 1, y: 1 },
        &[255],
        TextureFormat::Red,
        MinFilter::LinearMipmapLinear,
        MagFilter::Linear,
        WrapMode::Repeat,
    );
    assert_eq!(context.commands().len(), 8);
    assert_eq!(
        context.commands()[2],
        GlCommand::TexImage2d {
            target: 0x0DE1,
            level: 0,
            internal_format: 0x8229,
            width: 1,
            height: 1,
            border: 0,
            format: 0x1903,
            data_type: 0x1401,
            pixels: Some(vec![255]),
        }
    );
    assert_eq!(
        context.commands()[3],
        GlCommand::TexParameteri { target: 0x0DE1, pname: 0x2801, param: 0x2703 }
    );
    assert_eq!(context.commands()[7], GlCommand::GenerateMipmap(0x0DE1));
}

#[test]
fn texture_from_image_takes_the_size_of_the_image() {
    let mut context = fresh_context();
    let texture = Texture2d::from_image(
        &mut context,
        Handle(7),
        Handle(70),
        Vector2 { x: 320, y: 240 },
        TextureFormat::SRGB,
        MinFilter::NearestMipmapNearest,
        MagFilter::Linear,
        WrapMode::ClampToEdge,
    );
    let mut expected = vec![
        GlCommand::ActiveTexture(0x84C0),
        GlCommand::BindTexture { target: 0x0DE1, texture: Some(Handle(7)) },
        GlCommand::TexImage2dFromImage {
            target: 0x0DE1,
            level: 0,
            internal_format: 0x8C41,
            format: 0x1907,
            data_type: 0x1401,
            image: Handle(70),
        },
    ];
    expected.extend(parameters(0x2700, 0x2601, 0x812F));
    expected.push(GlCommand::GenerateMipmap(0x0DE1));
    assert_eq!(
        *context.commands(), expected);
    assert_eq!(texture.size(), Vector2 { x: 320, y: 240 });
    assert!(texture.is_srgb());
}

#[test]
fn set_tex_parameters_by_itself() {
    let mut context = fresh_context();
    Texture2d::set_tex_parameters(
        &mut context,
        MinFilter::Linear,
        MagFilter::Linear,
        WrapMode::Repeat,
    );
    assert_eq!(
        *context.commands(), parameters(0x2601, 0x2601, 0x2901));
    context.take_commands();
    Texture2d::set_tex_parameters(
        &mut context,
        MinFilter::NearestMipmapLinear,
        MagFilter::Nearest,
        WrapMode::ClampToEdge,
    );
    let mut expected = parameters(0x2702, 0x2600, 0x812F);
    expected.push(GlCommand::GenerateMipmap(0x0DE1));
    assert_eq!(
        *context.commands(), expected);
}

fn plain_texture(context: &mut GlContext, handle: u32, width: u32, height: u32) -> Texture2d {
    let texture = Texture2d::empty(
        context,
        Handle(handle),
        Vector2 { x: width, y: height },
        TextureFormat::RGBA,
        MinFilter::Linear,
        MagFilter::Linear,
        WrapMode::ClampToEdge,
    );
    context.take_commands();
    texture
}

#[test]
fn texture_bind_is_elided_per_unit() {
    let mut context = fresh_context();
    let a = plain_texture(&mut context, 5, 2, 2);
    let b = plain_texture(&mut context, 6, 2, 2);
    // Unit 0 holds `b`, which was made last.
    b.bind(&mut context, 0);
    assert!(context.commands().is_empty());
    a.bind(&mut context, 0);
    assert_eq!(
        context.take_commands(),
        vec![
            GlCommand::ActiveTexture(0x84C0),
            GlCommand::BindTexture { target: 0x0DE1, texture: Some(Handle(5)) },
        ]
    );
    a.bind(&mut context, 0);
    assert!(context.commands().is_empty());
    a.bind(&mut context, 3);
    assert_eq!(
        context.take_commands(),
        vec![
            GlCommand::ActiveTexture(0x84C3),
            GlCommand::BindTexture { target: 0x0DE1, texture: Some(Handle(5)) },
        ]
    );
    b.bind(&mut context, 31);
    assert_eq!(
        context.take_commands(),
        vec![
            GlCommand::ActiveTexture(0x84DF),
            GlCommand::BindTexture { target: 0x0DE1, texture: Some(Handle(6)) },
        ]
    );
    a.bind(&mut context, 3);
    b.bind(&mut context, 31);
    a.bind(&mut context, 0);
    assert!(context.commands().is_empty());
}

#[test]
fn making_a_texture_takes_unit_zero_from_the_one_before() {
    let mut context = fresh_context();
    let a = plain_texture(&mut context, 5, 2, 2);
    let _b = plain_texture(&mut context, 6, 2, 2);
    a.bind(&mut context, 0);
    assert_eq!(
        *context.commands(),
        vec![
            GlCommand::ActiveTexture(0x84C0),
            GlCommand::BindTexture { target: 0x0DE1, texture: Some(Handle(5)) },
        ]
    );
}

#[test]
fn set_contents_binds_to_unit_zero_and_replaces_the_image() {
    let mut context = fresh_context();
    let a = plain_texture(&mut context, 5, 2, 1);
    let _b = plain_texture(&mut context, 6, 2, 2);
    a.set_contents(&mut context, TextureFormat::RGBA, &[1, 2, 3, 4, 5, 6, 7, 8]);
    assert_eq!(
        context.take_commands(),
        vec![
            GlCommand::ActiveTexture(0x84C0),
            GlCommand::BindTexture { target: 0x0DE1, texture: Some(Handle(5)) },
            GlCommand::TexSubImage2d {
                target: 0x0DE1,
                level: 0,
                xoffset: 0,
                yoffset: 0,
                width: 2,
                height: 1,
                format: 0x1908,
                data_type: 0x1401,
                pixels: vec![1, 2, 3, 4, 5, 6, 7, 8],
            },
        ]
    );
    a.set_contents(&mut context, TextureFormat::Red, &[9, 9]);
    assert_eq!(
        context.take_commands(),
        vec![GlCommand::TexSubImage2d {
            target: 0x0DE1,
            level: 0,
            xoffset: 0,
            yoffset: 0,
            width: 2,
            height: 1,
            format: 0x1903,
            data_type: 0x1401,
            pixels: vec![9, 9],
        }]
    );
}

#[test]
fn releasing_a_texture_deletes_it() {
    let mut context = fresh_context();
    let a = plain_texture(&mut context, 5, 2, 1);
    a.release(&mut context);
    assert_eq!(
        *context.commands(), vec![GlCommand::DeleteTexture(Handle(5))]);
}
