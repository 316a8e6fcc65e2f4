use web_sys::WebGl2RenderingContext as WebGl2;
use webgl_wrapper::gl;
use webgl_wrapper::{
    ClearBuffer, DrawMode, GlFlag, Lines, MagFilter, MeshUsage, MinFilter, Points, Primitive,
    ShaderType, TextureFormat, Triangles, WrapMode,
};

#[test]
fn enumerants_agree_with_web_sys() {
    assert_eq!(gl::BLEND, WebGl2::BLEND);
    assert_eq!(gl::CULL_FACE, WebGl2::CULL_FACE);
    assert_eq!(gl::DEPTH_TEST, WebGl2::DEPTH_TEST);
    assert_eq!(gl::ONE, WebGl2::ONE);
    assert_eq!(gl::ONE_MINUS_SRC_ALPHA, WebGl2::ONE_MINUS_SRC_ALPHA);
    assert_eq!(gl::UNPACK_ALIGNMENT, WebGl2::UNPACK_ALIGNMENT);
    assert_eq!(gl::ARRAY_BUFFER, WebGl2::ARRAY_BUFFER);
    assert_eq!(gl::ELEMENT_ARRAY_BUFFER, WebGl2::ELEMENT_ARRAY_BUFFER);
    assert_eq!(gl::STREAM_DRAW, WebGl2::STREAM_DRAW);
    assert_eq!(gl::STATIC_DRAW, WebGl2::STATIC_DRAW);
    assert_eq!(gl::DYNAMIC_DRAW, WebGl2::DYNAMIC_DRAW);
    assert_eq!(gl::POINTS, WebGl2::POINTS);
    assert_eq!(gl::LINES, WebGl2::LINES);
    assert_eq!(gl::TRIANGLES, WebGl2::TRIANGLES);
    assert_eq!(gl::UNSIGNED_BYTE, WebGl2::UNSIGNED_BYTE);
    assert_eq!(gl::UNSIGNED_SHORT, WebGl2::UNSIGNED_SHORT);
    assert_eq!(gl::FLOAT, WebGl2::FLOAT);
    assert_eq!(gl::FRAGMENT_SHADER, WebGl2::FRAGMENT_SHADER);
    assert_eq!(gl::VERTEX_SHADER, WebGl2::VERTEX_SHADER);
    assert_eq!(gl::TEXTURE_2D, WebGl2::TEXTURE_2D);
    assert_eq!(gl::TEXTURE0, WebGl2::TEXTURE0);
    assert_eq!(gl::TEXTURE_MAG_FILTER, WebGl2::TEXTURE_MAG_FILTER);
    assert_eq!(gl::TEXTURE_MIN_FILTER, WebGl2::TEXTURE_MIN_FILTER);
    assert_eq!(gl::TEXTURE_WRAP_S, WebGl2::TEXTURE_WRAP_S);
    assert_eq!(gl::TEXTURE_WRAP_T, WebGl2::TEXTURE_WRAP_T);
    assert_eq!(gl::NEAREST, WebGl2::NEAREST);
    assert_eq!(gl::LINEAR, WebGl2::LINEAR);
    assert_eq!(gl::NEAREST_MIPMAP_NEAREST, WebGl2::NEAREST_MIPMAP_NEAREST);
    assert_eq!(gl::LINEAR_MIPMAP_NEAREST, WebGl2::LINEAR_MIPMAP_NEAREST);
    assert_eq!(gl::NEAREST_MIPMAP_LINEAR, WebGl2::NEAREST_MIPMAP_LINEAR);
    assert_eq!(gl::LINEAR_MIPMAP_LINEAR, WebGl2::LINEAR_MIPMAP_LINEAR);
    assert_eq!(gl::REPEAT, WebGl2::REPEAT);
    assert_eq!(gl::CLAMP_TO_EDGE, WebGl2::CLAMP_TO_EDGE);
    assert_eq!(gl::RED, WebGl2::RED);
    assert_eq!(gl::RGB, WebGl2::RGB);
    assert_eq!(gl::RGBA, WebGl2::RGBA);
    assert_eq!(gl::R8, WebGl2::R8);
    assert_eq!(gl::RGB8, WebGl2::RGB8);
    assert_eq!(gl::RGBA8, WebGl2::RGBA8);
    assert_eq!(gl::SRGB8, WebGl2::SRGB8);
    assert_eq!(gl::SRGB8_ALPHA8, WebGl2::SRGB8_ALPHA8);
    assert_eq!(gl::RENDERBUFFER, WebGl2::RENDERBUFFER);
    assert_eq!(gl::FRAMEBUFFER, WebGl2::FRAMEBUFFER);
    assert_eq!(gl::READ_FRAMEBUFFER, WebGl2::READ_FRAMEBUFFER);
    assert_eq!(gl::DRAW_FRAMEBUFFER, WebGl2::DRAW_FRAMEBUFFER);
    assert_eq!(gl::COLOR_ATTACHMENT0, WebGl2::COLOR_ATTACHMENT0);
    assert_eq!(gl::FRAMEBUFFER_COMPLETE, WebGl2::FRAMEBUFFER_COMPLETE);
    assert_eq!(gl::FRAMEBUFFER_INCOMPLETE_ATTACHMENT, WebGl2::FRAMEBUFFER_INCOMPLETE_ATTACHMENT);
    assert_eq!(
        gl::FRAMEBUFFER_INCOMPLETE_MISSING_ATTACHMENT,
        WebGl2::FRAMEBUFFER_INCOMPLETE_MISSING_ATTACHMENT
    );
    assert_eq!(gl::FRAMEBUFFER_UNSUPPORTED, WebGl2::FRAMEBUFFER_UNSUPPORTED);
    assert_eq!(gl::DEPTH_BUFFER_BIT, WebGl2::DEPTH_BUFFER_BIT);
    assert_eq!(gl::COLOR_BUFFER_BIT, WebGl2::COLOR_BUFFER_BIT);
    assert_eq!(gl::TEXTURE_UNITS, 32);
}

#[test]
fn flags_have_their_device_names() {
    assert_eq!(GlFlag::DepthTest.as_gl(), WebGl2::DEPTH_TEST);
    assert_eq!(GlFlag::CullFace.as_gl(), WebGl2::CULL_FACE);
    assert_eq!(GlFlag::DepthTest.as_gl(), 0x0B71);
    assert_eq!(GlFlag::CullFace.as_gl(), 0x0B44);
}

#[test]
fn mesh_usages_have_their_device_names() {
    assert_eq!(MeshUsage::StaticDraw.as_gl(), WebGl2::STATIC_DRAW);
    assert_eq!(MeshUsage::DynamicDraw.as_gl(), WebGl2::DYNAMIC_DRAW);
    assert_eq!(MeshUsage::StreamDraw.as_gl(), WebGl2::STREAM_DRAW);
    assert_eq!(MeshUsage::StaticDraw.as_gl(), 0x88E4);
}

#[test]
fn primitives_have_their_device_names() {
    assert_eq!(Triangles::as_gl(), WebGl2::TRIANGLES);
    assert_eq!(Lines::as_gl(), WebGl2::LINES);
    assert_eq!(Points::as_gl(), WebGl2::POINTS);
    assert_eq!(Triangles::as_gl(), 4);
    assert_eq!(Lines::as_gl(), 1);
    assert_eq!(Points::as_gl(), 0);
}

#[test]
fn shader_types_have_their_device_names() {
    assert_eq!(ShaderType::Vertex.as_gl(), WebGl2::VERTEX_SHADER);
    assert_eq!(ShaderType::Fragment.as_gl(), WebGl2::FRAGMENT_SHADER);
    assert_eq!(ShaderType::Vertex.as_gl(), 0x8B31);
    assert_eq!(ShaderType::Fragment.as_gl(), 0x8B30);
}

#[test]
fn texture_formats_have_their_device_names() {
    assert_eq!(TextureFormat::Red.to_gl_internal_format(), WebGl2::R8);
    assert_eq!(TextureFormat::RGB.to_gl_internal_format(), WebGl2::RGB8);
    assert_eq!(TextureFormat::RGBA.to_gl_internal_format(), WebGl2::RGBA8);
    assert_eq!(TextureFormat::SRGB.to_gl_internal_format(), WebGl2::SRGB8);
    assert_eq!(TextureFormat::SRGBA.to_gl_internal_format(), WebGl2::SRGB8_ALPHA8);
    assert_eq!(TextureFormat::Red.to_gl_format(), WebGl2::RED);
    assert_eq!(TextureFormat::RGB.to_gl_format(), WebGl2::RGB);
    assert_eq!(TextureFormat::RGBA.to_gl_format(), WebGl2::RGBA);
    assert_eq!(TextureFormat::SRGB.to_gl_format(), WebGl2::RGB);
    assert_eq!(TextureFormat::SRGBA.to_gl_format(), WebGl2::RGBA);
    assert_eq!(TextureFormat::SRGBA.to_gl_internal_format(), 0x8C43);
    assert_eq!(TextureFormat::SRGBA.to_gl_format(), 0x1908);
}

#[test]
fn only_the_gamma_encoded_formats_are_srgb() {
    assert!(!TextureFormat::Red.is_srgb());
    assert!(!TextureFormat::RGB.is_srgb());
    assert!(!TextureFormat::RGBA.is_srgb());
    assert!(TextureFormat::SRGB.is_srgb());
    assert!(TextureFormat::SRGBA.is_srgb());
}

#[test]
fn filters_and_wrap_modes_have_their_device_names() {
    assert_eq!(MinFilter::Nearest.as_gl(), WebGl2::NEAREST);
    assert_eq!(MinFilter::Linear.as_gl(), WebGl2::LINEAR);
    assert_eq!(MinFilter::NearestMipmapNearest.as_gl(), WebGl2::NEAREST_MIPMAP_NEAREST);
    assert_eq!(MinFilter::NearestMipmapLinear.as_gl(), WebGl2::NEAREST_MIPMAP_LINEAR);
    assert_eq!(MinFilter::LinearMipmapNearest.as_gl(), WebGl2::LINEAR_MIPMAP_NEAREST);
    assert_eq!(MinFilter::LinearMipmapLinear.as_gl(), WebGl2::LINEAR_MIPMAP_LINEAR);
    assert_eq!(MagFilter::Nearest.as_gl(), WebGl2::NEAREST);
    assert_eq!(MagFilter::Linear.as_gl(), WebGl2::LINEAR);
    assert_eq!(WrapMode::ClampToEdge.as_gl(), WebGl2::CLAMP_TO_EDGE);
    assert_eq!(WrapMode::Repeat.as_gl(), WebGl2::REPEAT);
    assert_eq!(MinFilter::NearestMipmapLinear.as_gl(), 0x2702);
    assert_eq!(WrapMode::ClampToEdge.as_gl(), 0x812F);
}

#[test]
fn only_the_mipmap_filters_read_mipmaps() {
    assert!(!MinFilter::Nearest.has_mipmap());
    assert!(!MinFilter::Linear.has_mipmap());
    assert!(MinFilter::NearestMipmapNearest.has_mipmap());
    assert!(MinFilter::NearestMipmapLinear.has_mipmap());
    assert!(MinFilter::LinearMipmapNearest.has_mipmap());
    assert!(MinFilter::LinearMipmapLinear.has_mipmap());
}

#[test]
fn clear_buffers_have_their_bits_and_colors() {
    let color = [1, 2, 3, 4];
    assert_eq!(ClearBuffer::Color(color).as_gl(), WebGl2::COLOR_BUFFER_BIT);
    assert_eq!(ClearBuffer::Depth.as_gl(), WebGl2::DEPTH_BUFFER_BIT);
    assert_eq!(ClearBuffer::Color(color).color(), Some(color));
    assert_eq!(ClearBuffer::Depth.color(), None);
}

#[test]
fn draw_modes_are_told_apart() {
    assert_ne!(DrawMode::Draw2D, DrawMode::Draw3D);
}
