//! Textures: their formats and sampling parameters, and the 2D texture.

use vstd::prelude::*;
use vstd::slice::slice_to_vec;
use crate::command::{GlCall, GlCommand, Handle};
use crate::context::{GlContext, GlState};
use crate::gl;
use crate::ids::TextureId;
use crate::rect::Vector2;

verus! {

/// The channels of a texture or renderbuffer, eight bits each, linear or
/// gamma-encoded.
#[derive(Clone, Copy, Debug, PartialEq, Eq, Structural)]
pub enum TextureFormat {
    /// Only the red component is meaningful; the others are undefined.
    Red,
    RGB,
    RGBA,
    SRGB,
    SRGBA,
}

impl TextureFormat {
    /// The sized format in which the device stores the image.
    pub open spec fn spec_to_gl_internal_format(self) -> u32 {
        match self {
            TextureFormat::Red => gl::R8,
            TextureFormat::RGB => gl::RGB8,
            TextureFormat::RGBA => gl::RGBA8,
            TextureFormat::SRGB => gl::SRGB8,
            TextureFormat::SRGBA => gl::SRGB8_ALPHA8,
        }
    }

    /// The layout of the pixels that are handed to the device.
    pub open spec fn spec_to_gl_format(self) -> u32 {
        match self {
            TextureFormat::Red => gl::RED,
            TextureFormat::RGB => gl::RGB,
            TextureFormat::RGBA => gl::RGBA,
            TextureFormat::SRGB => gl::RGB,
            TextureFormat::SRGBA => gl::RGBA,
        }
    }

    /// Whether the format is gamma-encoded.
    pub open spec fn spec_is_srgb(self) -> bool {
        self == TextureFormat::SRGB || self == TextureFormat::SRGBA
    }

    /// The sized format in which the device stores the image.
    pub fn to_gl_internal_format(self) -> (name: u32)
        ensures
            name == self.spec_to_gl_internal_format(),
    {
        match self {
            TextureFormat::Red => gl::R8,
            TextureFormat::RGB => gl::RGB8,
            TextureFormat::RGBA => gl::RGBA8,
            TextureFormat::SRGB => gl::SRGB8,
            TextureFormat::SRGBA => gl::SRGB8_ALPHA8,
        }
    }

    /// The layout of the pixels that are handed to the device.
    pub fn to_gl_format(self) -> (name: u32)
        ensures
            name == self.spec_to_gl_format(),
    {
        match self {
            TextureFormat::Red => gl::RED,
            TextureFormat::RGB => gl::RGB,
            TextureFormat::RGBA => gl::RGBA,
            TextureFormat::SRGB => gl::RGB,
            TextureFormat::SRGBA => gl::RGBA,
        }
    }

    /// Whether the format is gamma-encoded.
    pub fn is_srgb(self) -> (srgb: bool)
        ensures
            srgb == self.spec_is_srgb(),
    {
        match self {
            TextureFormat::SRGB | TextureFormat::SRGBA => true,
            _ => false,
        }
    }
}

/// How a texture is sampled when it is shown smaller than it is.
#[derive(Clone, Copy, Debug, PartialEq, Eq, Structural)]
pub enum MinFilter {
    Nearest,
    Linear,
    NearestMipmapNearest,
    NearestMipmapLinear,
    LinearMipmapNearest,
    LinearMipmapLinear,
}

impl MinFilter {
    /// The device's name for this filter.
    pub open spec fn spec_as_gl(self) -> u32 {
        match self {
            MinFilter::Nearest => gl::NEAREST,
            MinFilter::Linear => gl::LINEAR,
            MinFilter::NearestMipmapNearest => gl::NEAREST_MIPMAP_NEAREST,
            MinFilter::NearestMipmapLinear => gl::NEAREST_MIPMAP_LINEAR,
            MinFilter::LinearMipmapNearest => gl::LINEAR_MIPMAP_NEAREST,
            MinFilter::LinearMipmapLinear => gl::LINEAR_MIPMAP_LINEAR,
        }
    }

    /// Whether the filter reads from mipmaps.
    pub open spec fn spec_has_mipmap(self) -> bool {
        self != MinFilter::Nearest && self != MinFilter::Linear
    }

    /// The device's name for this filter.
    pub fn as_gl(self) -> (name: u32)
        ensures
            name == self.spec_as_gl(),
    {
        match self {
            MinFilter::Nearest => gl::NEAREST,
            MinFilter::Linear => gl::LINEAR,
            MinFilter::NearestMipmapNearest => gl::NEAREST_MIPMAP_NEAREST,
            MinFilter::NearestMipmapLinear => gl::NEAREST_MIPMAP_LINEAR,
            MinFilter::LinearMipmapNearest => gl::LINEAR_MIPMAP_NEAREST,
            MinFilter::LinearMipmapLinear => gl::LINEAR_MIPMAP_LINEAR,
        }
    }

    /// Whether the filter reads from mipmaps.
    pub fn has_mipmap(self) -> (mipmap: bool)
        ensures
            mipmap == self.spec_has_mipmap(),
    {
        match self {
            MinFilter::Nearest => false,
            MinFilter::Linear => false,
            MinFilter::NearestMipmapNearest => true,
            MinFilter::NearestMipmapLinear => true,
            MinFilter::LinearMipmapNearest => true,
            MinFilter::LinearMipmapLinear => true,
        }
    }
}

/// How a texture is sampled when it is shown larger than it is.
#[derive(Clone, Copy, Debug, PartialEq, Eq, Structural)]
pub enum MagFilter {
    Nearest,
    Linear,
}

impl MagFilter {
    /// The device's name for this filter.
    pub open spec fn spec_as_gl(self) -> u32 {
        match self {
            MagFilter::Nearest => gl::NEAREST,
            MagFilter::Linear => gl::LINEAR,
        }
    }

    /// The device's name for this filter.
    pub fn as_gl(self) -> (name: u32)
        ensures
            name == self.spec_as_gl(),
    {
        match self {
            MagFilter::Nearest => gl::NEAREST,
            MagFilter::Linear => gl::LINEAR,
        }
    }
}

/// What a texture shows outside its borders.
#[derive(Clone, Copy, Debug, PartialEq, Eq, Structural)]
pub enum WrapMode {
    ClampToEdge,
    Repeat,
}

impl WrapMode {
    /// The device's name for this wrap mode.
    pub open spec fn spec_as_gl(self) -> u32 {
        match self {
            WrapMode::ClampToEdge => gl::CLAMP_TO_EDGE,
            WrapMode::Repeat => gl::REPEAT,
        }
    }

    /// The device's name for this wrap mode.
    pub fn as_gl(self) -> (name: u32)
        ensures
            name == self.spec_as_gl(),
    {
        match self {
            WrapMode::ClampToEdge => gl::CLAMP_TO_EDGE,
            WrapMode::Repeat => gl::REPEAT,
        }
    }
}

/// A 2D texture. It owns one native texture, which `release` deletes.
#[derive(Debug)]
pub struct Texture2d {
    texture: Handle,
    size: Vector2<u32>,
    id: TextureId,
    is_srgb: bool,
}

impl Texture2d {
    /// The native texture.
    pub closed spec fn handle(&self) -> Handle {
        self.texture
    }

    /// The width and height in pixels.
    pub closed spec fn extent(&self) -> Vector2<u32> {
        self.size
    }

    /// The identity under which the cache knows the texture.
    pub closed spec fn id(&self) -> TextureId {
        self.id
    }

    /// Whether the image uses a gamma-encoded format.
    pub closed spec fn spec_is_srgb(&self) -> bool {
        self.is_srgb
    }

    /// Whether the device can take the extent.
    pub open spec fn wf(&self) -> bool {
        self.extent().fits_i32()
    }

    /// The calls that set the sampling parameters of the texture bound to
    /// the active unit: both filters, both wrap directions, and then the
    /// mipmaps where the minifying filter reads them.
    pub open spec fn tex_parameter_calls(
        min_filter: MinFilter,
        mag_filter: MagFilter,
        wrap_mode: WrapMode,
    ) -> Seq<GlCall> {
        let parameters = seq![
            GlCall::TexParameteri {
                target: gl::TEXTURE_2D,
                pname: gl::TEXTURE_MIN_FILTER,
                param: min_filter.spec_as_gl() as i32,
            },
            GlCall::TexParameteri {
                target: gl::TEXTURE_2D,
                pname: gl::TEXTURE_MAG_FILTER,
                param: mag_filter.spec_as_gl() as i32,
            },
            GlCall::TexParameteri {
                target: gl::TEXTURE_2D,
                pname: gl::TEXTURE_WRAP_S,
                param: wrap_mode.spec_as_gl() as i32,
            },
            GlCall::TexParameteri {
                target: gl::TEXTURE_2D,
                pname: gl::TEXTURE_WRAP_T,
                param: wrap_mode.spec_as_gl() as i32,
            },
        ];
        if min_filter.spec_has_mipmap() {
            parameters.push(GlCall::GenerateMipmap(gl::TEXTURE_2D))
        } else {
            parameters
        }
    }

    /// The call that gives a texture of format `format` an image of size
    /// `size`, with the given pixels or with none.
    pub open spec fn image_call(
        size: Vector2<u32>,
        format: TextureFormat,
        pixels: Option<Seq<u8>>,
    ) -> GlCall {
        GlCall::TexImage2d {
            target: gl::TEXTURE_2D,
            level: 0,
            internal_format: format.spec_to_gl_internal_format() as i32,
            width: size.x as i32,
            height: size.y as i32,
            border: 0,
            format: format.spec_to_gl_format(),
            data_type: gl::UNSIGNED_BYTE,
            pixels,
        }
    }

    /// The call that gives a texture of format `format` the decoded image
    /// `image`.
    pub open spec fn image_element_call(format: TextureFormat, image: Handle) -> GlCall {
        GlCall::TexImage2dFromImage {
            target: gl::TEXTURE_2D,
            level: 0,
            internal_format: format.spec_to_gl_internal_format() as i32,
            format: format.spec_to_gl_format(),
            data_type: gl::UNSIGNED_BYTE,
            image,
        }
    }

    /// The state after a texture has been made: it is bound to unit 0
    /// through the cache, given its image by `upload`, and given its
    /// sampling parameters.
    pub open spec fn created(
        state: GlState,
        id: TextureId,
        texture: Handle,
        upload: GlCall,
        min_filter: MinFilter,
        mag_filter: MagFilter,
        wrap_mode: WrapMode,
    ) -> GlState {
        state.bind_texture(0, gl::TEXTURE_2D, id, texture).emit(upload).emit_all(
            Self::tex_parameter_calls(min_filter, mag_filter, wrap_mode),
        )
    }

    /// The state after `bind`.
    pub open spec fn bound(&self, state: GlState, texture_unit: u32) -> GlState {
        state.bind_texture(texture_unit, gl::TEXTURE_2D, self.id(), self.handle())
    }

    /// The state after `set_contents`.
    pub open spec fn with_contents(
        &self,
        state: GlState,
        format: TextureFormat,
        data: Seq<u8>,
    ) -> GlState {
        self.bound(state, 0).emit(
            GlCall::TexSubImage2d {
                target: gl::TEXTURE_2D,
                level: 0,
                xoffset: 0,
                yoffset: 0,
                width: self.extent().x as i32,
                height: self.extent().y as i32,
                format: format.spec_to_gl_format(),
                data_type: gl::UNSIGNED_BYTE,
                pixels: data,
            },
        )
    }

    /// Makes the native texture `texture` a texture of the given size and
    /// format. `upload` gives it its image.
    fn create(
        context: &mut GlContext,
        texture: Handle,
        size: Vector2<u32>,
        upload: GlCommand,
        format: TextureFormat,
        min_filter: MinFilter,
        mag_filter: MagFilter,
        wrap_mode: WrapMode,
    ) -> (made: Self)
        requires
            size.fits_i32(),
        ensures
            made.wf(),
            made.handle() == texture,
            made.extent() == size,
            made.spec_is_srgb() == format.spec_is_srgb(),
            final(context)@ == Self::created(
                old(context)@,
                made.id(),
                texture,
                upload@,
                min_filter,
                mag_filter,
                wrap_mode,
            ),
    {
        let id = TextureId::new();
        context.bind_texture(0, gl::TEXTURE_2D, id, texture);
        context.emit(upload);
        Self::set_tex_parameters(context, min_filter, mag_filter, wrap_mode);
        Texture2d { texture, size, id, is_srgb: format.is_srgb() }
    }

    /// Creates an empty `Texture2d` on the native texture `texture`. It is
    /// meant to be rendered to through a framebuffer, and so cannot use a
    /// filter that reads mipmaps.
    pub fn empty(
        context: &mut GlContext,
        texture: Handle,
        size: Vector2<u32>,
        format: TextureFormat,
        min_filter: MinFilter,
        mag_filter: MagFilter,
        wrap_mode: WrapMode,
    ) -> (made: Self)
        requires
            size.fits_i32(),
            !min_filter.spec_has_mipmap(),
        ensures
            made.wf(),
            made.handle() == texture,
            made.extent() == size,
            made.spec_is_srgb() == format.spec_is_srgb(),
            final(context)@ == Self::created(
                old(context)@,
                made.id(),
                texture,
                Self::image_call(size, format, None),
                min_filter,
                mag_filter,
                wrap_mode,
            ),
    {
        let upload = GlCommand::TexImage2d {
            target: gl::TEXTURE_2D,
            level: 0,
            internal_format: format.to_gl_internal_format() as i32,
            width: size.x as i32,
            height: size.y as i32,
            border: 0,
            format: format.to_gl_format(),
            data_type: gl::UNSIGNED_BYTE,
            pixels: None,
        };
        Self::create(context, texture, size, upload, format, min_filter, mag_filter, wrap_mode)
    }

    /// Creates a `Texture2d` on the native texture `texture` from the
    /// decoded image `image`, which is `image_size` pixels large.
    pub fn from_image(
        context: &mut GlContext,
        texture: Handle,
        image: Handle,
        image_size: Vector2<u32>,
        format: TextureFormat,
        min_filter: MinFilter,
        mag_filter: MagFilter,
        wrap_mode: WrapMode,
    ) -> (made: Self)
        requires
            image_size.fits_i32(),
        ensures
            made.wf(),
            made.handle() == texture,
            made.extent() == image_size,
            made.spec_is_srgb() == format.spec_is_srgb(),
            final(context)@ == Self::created(
                old(context)@,
                made.id(),
                texture,
                Self::image_element_call(format, image),
                min_filter,
                mag_filter,
                wrap_mode,
            ),
    {
        let upload = GlCommand::TexImage2dFromImage {
            target: gl::TEXTURE_2D,
            level: 0,
            internal_format: format.to_gl_internal_format() as i32,
            format: format.to_gl_format(),
            data_type: gl::UNSIGNED_BYTE,
            image,
        };
        Self::create(context, texture, image_size, upload, format, min_filter, mag_filter, wrap_mode)
    }

    /// Creates a `Texture2d` on the native texture `texture` from pixel
    /// data.
    pub fn from_data(
        context: &mut GlContext,
        texture: Handle,
        size: Vector2<u32>,
        data: &[u8],
        format: TextureFormat,
        min_filter: MinFilter,
        mag_filter: MagFilter,
        wrap_mode: WrapMode,
    ) -> (made: Self)
        requires
            size.fits_i32(),
        ensures
            made.wf(),
            made.handle() == texture,
            made.extent() == size,
            made.spec_is_srgb() == format.spec_is_srgb(),
            final(context)@ == Self::created(
                old(context)@,
                made.id(),
                texture,
                Self::image_call(size, format, Some(data@)),
                min_filter,
                mag_filter,
                wrap_mode,
            ),
    {
        let upload = GlCommand::TexImage2d {
            target: gl::TEXTURE_2D,
            level: 0,
            internal_format: format.to_gl_internal_format() as i32,
            width: size.x as i32,
            height: size.y as i32,
            border: 0,
            format: format.to_gl_format(),
            data_type: gl::UNSIGNED_BYTE,
            pixels: Some(slice_to_vec(data)),
        };
        Self::create(context, texture, size, upload, format, min_filter, mag_filter, wrap_mode)
    }

    /// Replaces the whole image by `data`, laid out as `format` says.
    pub fn set_contents(&self, context: &mut GlContext, format: TextureFormat, data: &[u8])
        requires
            self.wf(),
        ensures
            final(context)@ == self.with_contents(old(context)@, format, data@),
    {
        self.bind(context, 0);
        context.emit(
            GlCommand::TexSubImage2d {
                target: gl::TEXTURE_2D,
                level: 0,
                xoffset: 0,
                yoffset: 0,
                width: self.size.x as i32,
                height: self.size.y as i32,
                format: format.to_gl_format(),
                data_type: gl::UNSIGNED_BYTE,
                pixels: slice_to_vec(data),
            },
        );
    }

    /// Sets the sampling parameters of the texture bound to the active
    /// unit.
    pub fn set_tex_parameters(
        context: &mut GlContext,
        min_filter: MinFilter,
        mag_filter: MagFilter,
        wrap_mode: WrapMode,
    )
        ensures
            final(context)@ == old(context)@.emit_all(
                Self::tex_parameter_calls(min_filter, mag_filter, wrap_mode),
            ),
    {
        context.emit(
            GlCommand::TexParameteri {
                target: gl::TEXTURE_2D,
                pname: gl::TEXTURE_MIN_FILTER,
                param: min_filter.as_gl() as i32,
            },
        );
        context.emit(
            GlCommand::TexParameteri {
                target: gl::TEXTURE_2D,
                pname: gl::TEXTURE_MAG_FILTER,
                param: mag_filter.as_gl() as i32,
            },
        );
        context.emit(
            GlCommand::TexParameteri {
                target: gl::TEXTURE_2D,
                pname: gl::TEXTURE_WRAP_S,
                param: wrap_mode.as_gl() as i32,
            },
        );
        context.emit(
            GlCommand::TexParameteri {
                target: gl::TEXTURE_2D,
                pname: gl::TEXTURE_WRAP_T,
                param: wrap_mode.as_gl() as i32,
            },
        );
        if min_filter.has_mipmap() {
            context.emit(GlCommand::GenerateMipmap(gl::TEXTURE_2D));
        }
        assert(context@.calls =~= old(context)@.calls + Self::tex_parameter_calls(
            min_filter,
            mag_filter,
            wrap_mode,
        ));
    }

    /// Binds the texture to the given texture unit, unless the cache holds
    /// it there.
    pub fn bind(&self, context: &mut GlContext, texture_unit: u32)
        requires
            texture_unit < gl::TEXTURE_UNITS,
        ensures
            final(context)@ == self.bound(old(context)@, texture_unit),
    {
        context.bind_texture(texture_unit, gl::TEXTURE_2D, self.id, self.texture);
    }

    /// True if the image uses a gamma-encoded format.
    pub fn is_srgb(&self) -> (srgb: bool)
        ensures
            srgb == self.spec_is_srgb(),
    {
        self.is_srgb
    }

    /// The width and height in pixels.
    pub fn size(&self) -> (size: Vector2<u32>)
        ensures
            size == self.extent(),
    {
        self.size
    }

    /// The native texture.
    pub fn native(&self) -> (texture: Handle)
        ensures
            texture == self.handle(),
    {
        self.texture
    }

    /// Gives the native texture back to the device. The texture is gone
    /// with this call, so it cannot be released twice or used afterwards.
    pub fn release(self, context: &mut GlContext)
        ensures
            final(context)@ == old(context)@.emit(GlCall::DeleteTexture(self.handle())),
    {
        context.emit(GlCommand::DeleteTexture(self.texture));
    }
}

} // verus!
