//! Uniforms: the values that a program reads besides its vertices.
//!
//! For each program there are two types of the user. One, a [`GlUniforms`],
//! holds where the uniforms of the program are. The other, a [`Uniforms`],
//! holds their values for one draw and knows how to hand them to the
//! first.

use vstd::prelude::*;
use crate::command::{GlCall, GlCommand, Handle};
use crate::context::{GlContext, GlState};
use crate::gl;
use crate::texture::Texture2d;

verus! {

/// Holds the values of the uniforms of a program for one draw.
pub trait Uniforms {
    /// The `GlUniforms` that go with this `Uniforms`.
    type GlUniforms: GlUniforms;

    /// Hands the values to the device: calls `set` on each uniform of
    /// `gl_uniforms`.
    fn update(&self, context: &mut GlContext, gl_uniforms: &Self::GlUniforms);
}

/// Holds the locations of the uniforms of a program.
pub trait GlUniforms: Sized {
    /// The names of the uniforms, as the program declares them.
    fn names() -> Vec<String>;

    /// Makes the holder from the locations of the uniforms, which come in
    /// the order of `names`.
    fn new(locations: &[Handle]) -> Self;
}

/// A uniform that is a 4x4 matrix.
#[derive(Debug)]
pub struct Matrix4Uniform {
    loc: Handle,
}

impl Matrix4Uniform {
    /// Where the uniform is.
    pub closed spec fn location(&self) -> Handle {
        self.loc
    }

    pub fn new(loc: Handle) -> (uniform: Self)
        ensures
            uniform.location() == loc,
    {
        Self { loc }
    }

    /// Sets the uniform of the program in use to the matrix `mat`, given
    /// as sixteen `f32` bit patterns in column-major order.
    pub fn set(&self, context: &mut GlContext, mat: &[u32; 16])
        ensures
            final(context)@ == old(context)@.emit(
                GlCall::UniformMatrix4fv { location: self.location(), transpose: false, data: mat@ },
            ),
    {
        context.emit(
            GlCommand::UniformMatrix4fv { location: self.loc, transpose: false, data: *mat },
        );
    }
}

/// A uniform that samples a texture.
#[derive(Debug)]
pub struct TextureUniform {
    loc: Handle,
}

impl TextureUniform {
    /// Where the uniform is.
    pub closed spec fn location(&self) -> Handle {
        self.loc
    }

    /// The state after `set`: the uniform is pointed at the texture unit,
    /// and the texture is bound to that unit unless the cache holds it
    /// there.
    pub open spec fn applied(&self, state: GlState, texture: &Texture2d, texture_unit: u32) -> GlState {
        texture.bound(
            state.emit(GlCall::Uniform1i { location: self.location(), value: texture_unit as i32 }),
            texture_unit,
        )
    }

    pub fn new(loc: Handle) -> (uniform: Self)
        ensures
            uniform.location() == loc,
    {
        Self { loc }
    }

    /// Makes the uniform of the program in use sample `texture` through
    /// the given texture unit.
    pub fn set(&self, context: &mut GlContext, texture: &Texture2d, texture_unit: u32)
        requires
            texture_unit < gl::TEXTURE_UNITS,
        ensures
            final(context)@ == self.applied(old(context)@, texture, texture_unit),
    {
        context.emit(GlCommand::Uniform1i { location: self.loc, value: texture_unit as i32 });
        texture.bind(context, texture_unit);
    }
}

/// A uniform that is a vector of two components.
#[derive(Debug)]
pub struct Vector2Uniform {
    loc: Handle,
}

impl Vector2Uniform {
    /// Where the uniform is.
    pub closed spec fn location(&self) -> Handle {
        self.loc
    }

    pub fn new(loc: Handle) -> (uniform: Self)
        ensures
            uniform.location() == loc,
    {
        Self { loc }
    }

    /// Sets the uniform of the program in use to `val`, two `f32` bit
    /// patterns.
    pub fn set(&self, context: &mut GlContext, val: &[u32; 2])
        ensures
            final(context)@ == old(context)@.emit(
                GlCall::Uniform2f { location: self.location(), x: val@[0], y: val@[1] },
            ),
    {
        context.emit(GlCommand::Uniform2f { location: self.loc, x: val[0], y: val[1] });
    }
}

/// A uniform that is a vector of three components.
#[derive(Debug)]
pub struct Vector3Uniform {
    loc: Handle,
}

impl Vector3Uniform {
    /// Where the uniform is.
    pub closed spec fn location(&self) -> Handle {
        self.loc
    }

    pub fn new(loc: Handle) -> (uniform: Self)
        ensures
            uniform.location() == loc,
    {
        Self { loc }
    }

    /// Sets the uniform of the program in use to `val`, three `f32` bit
    /// patterns.
    pub fn set(&self, context: &mut GlContext, val: &[u32; 3])
        ensures
            final(context)@ == old(context)@.emit(
                GlCall::Uniform3f { location: self.location(), x: val@[0], y: val@[1], z: val@[2] },
            ),
    {
        context.emit(GlCommand::Uniform3f { location: self.loc, x: val[0], y: val[1], z: val[2] });
    }
}

/// A uniform that is a vector of four components.
#[derive(Debug)]
pub struct Vector4Uniform {
    loc: Handle,
}

impl Vector4Uniform {
    /// Where the uniform is.
    pub closed spec fn location(&self) -> Handle {
        self.loc
    }

    pub fn new(loc: Handle) -> (uniform: Self)
        ensures
            uniform.location() == loc,
    {
        Self { loc }
    }

    /// Sets the uniform of the program in use to `val`, four `f32` bit
    /// patterns.
    pub fn set(&self, context: &mut GlContext, val: &[u32; 4])
        ensures
            final(context)@ == old(context)@.emit(
                GlCall::Uniform4f {
                    location: self.location(),
                    x: val@[0],
                    y: val@[1],
                    z: val@[2],
                    w: val@[3],
                },
            ),
    {
        context.emit(
            GlCommand::Uniform4f { location: self.loc, x: val[0], y: val[1], z: val[2], w: val[3] },
        );
    }
}

/// A uniform that is an array of two components.
#[derive(Debug)]
pub struct Array2Uniform {
    loc: Handle,
}

impl Array2Uniform {
    /// Where the uniform is.
    pub closed spec fn location(&self) -> Handle {
        self.loc
    }

    pub fn new(loc: Handle) -> (uniform: Self)
        ensures
            uniform.location() == loc,
    {
        Self { loc }
    }

    /// Sets the uniform of the program in use to `val`, two `f32` bit
    /// patterns.
    pub fn set(&self, context: &mut GlContext, val: [u32; 2])
        ensures
            final(context)@ == old(context)@.emit(
                GlCall::Uniform2f { location: self.location(), x: val@[0], y: val@[1] },
            ),
    {
        context.emit(GlCommand::Uniform2f { location: self.loc, x: val[0], y: val[1] });
    }
}

/// A uniform that is an array of three components.
#[derive(Debug)]
pub struct Array3Uniform {
    loc: Handle,
}

impl Array3Uniform {
    /// Where the uniform is.
    pub closed spec fn location(&self) -> Handle {
        self.loc
    }

    pub fn new(loc: Handle) -> (uniform: Self)
        ensures
            uniform.location() == loc,
    {
        Self { loc }
    }

    /// Sets the uniform of the program in use to `val`, three `f32` bit
    /// patterns.
    pub fn set(&self, context: &mut GlContext, val: [u32; 3])
        ensures
            final(context)@ == old(context)@.emit(
                GlCall::Uniform3f { location: self.location(), x: val@[0], y: val@[1], z: val@[2] },
            ),
    {
        context.emit(GlCommand::Uniform3f { location: self.loc, x: val[0], y: val[1], z: val[2] });
    }
}

/// A uniform that is an array of four components.
#[derive(Debug)]
pub struct Array4Uniform {
    loc: Handle,
}

impl Array4Uniform {
    /// Where the uniform is.
    pub closed spec fn location(&self) -> Handle {
        self.loc
    }

    pub fn new(loc: Handle) -> (uniform: Self)
        ensures
            uniform.location() == loc,
    {
        Self { loc }
    }

    /// Sets the uniform of the program in use to `val`, four `f32` bit
    /// patterns.
    pub fn set(&self, context: &mut GlContext, val: [u32; 4])
        ensures
            final(context)@ == old(context)@.emit(
                GlCall::Uniform4f {
                    location: self.location(),
                    x: val@[0],
                    y: val@[1],
                    z: val@[2],
                    w: val@[3],
                },
            ),
    {
        context.emit(
            GlCommand::Uniform4f { location: self.loc, x: val[0], y: val[1], z: val[2], w: val[3] },
        );
    }
}

} // verus!
