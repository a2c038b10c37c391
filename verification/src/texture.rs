//! An owning wrapper for one texture resource: bound to a target kind
//! fixed at construction, configured through integer parameters drawn
//! from closed enumerations.

use vstd::prelude::*;

use crate::mock_gl::GlObject;
use crate::mock_gl::GlView;
use crate::mock_gl::MockGl;
use crate::mock_gl::TexParamCall;

verus! {

/// The targets a texture can be bound to. Each variant's native code
/// (see [`TextureTarget::spec_gl_code`]) equals the native API's symbolic
/// constant for that target.
#[derive(Clone, Copy, PartialEq, Eq, Debug)]
pub enum TextureTarget {
    /// One-dimensional texture.
    Texture1D,
    /// Two-dimensional texture.
    Texture2D,
    /// Three-dimensional texture.
    Texture3D,
    /// Array of one-dimensional textures.
    Texture1DArray,
    /// Array of two-dimensional textures.
    Texture2DArray,
    /// Rectangle texture.
    TextureRectangle,
    /// Cube-map texture.
    TextureCubeMap,
}

impl TextureTarget {
    /// The native symbolic constant of this target.
    pub open spec fn spec_gl_code(self) -> u32 {
        match self {
            TextureTarget::Texture1D => 0x0DE0,
            TextureTarget::Texture2D => 0x0DE1,
            TextureTarget::Texture3D => 0x806F,
            TextureTarget::Texture1DArray => 0x8C18,
            TextureTarget::Texture2DArray => 0x8C1A,
            TextureTarget::TextureRectangle => 0x84F5,
            TextureTarget::TextureCubeMap => 0x8513,
        }
    }

    /// Returns the native symbolic constant of this target.
    pub fn gl_code(self) -> (code: u32)
        ensures
            code == self.spec_gl_code(),
    {
        match self {
            TextureTarget::Texture1D => 0x0DE0,
            TextureTarget::Texture2D => 0x0DE1,
            TextureTarget::Texture3D => 0x806F,
            TextureTarget::Texture1DArray => 0x8C18,
            TextureTarget::Texture2DArray => 0x8C1A,
            TextureTarget::TextureRectangle => 0x84F5,
            TextureTarget::TextureCubeMap => 0x8513,
        }
    }
}

/// The texture parameters that can be set. Each variant's native code
/// (see [`TexParName::spec_gl_code`]) equals the native API's symbolic
/// constant for that parameter name.
#[derive(Clone, Copy, PartialEq, Eq, Debug)]
pub enum TexParName {
    /// Lowest defined mipmap level.
    BaseLevel,
    /// Border color.
    BorderColor,
    /// Comparison function for depth textures.
    CompareFunc,
    /// Comparison mode for depth textures.
    CompareMode,
    /// Fixed bias added to the level of detail.
    LodBias,
    /// Minification filter.
    MinFilter,
    /// Magnification filter.
    MagFilter,
    /// Lower bound of the level of detail.
    MinLod,
    /// Upper bound of the level of detail.
    MaxLod,
    /// Highest defined mipmap level.
    MaxLevel,
    /// Swizzle of the red component.
    SwizzleR,
    /// Swizzle of the green component.
    SwizzleG,
    /// Swizzle of the blue component.
    SwizzleB,
    /// Swizzle of the alpha component.
    SwizzleA,
    /// Swizzle of all four components at once.
    SwizzleRgba,
    /// Wrap mode along the first coordinate.
    WrapS,
    /// Wrap mode along the second coordinate.
    WrapT,
    /// Wrap mode along the third coordinate.
    WrapR,
}

impl TexParName {
    /// The native symbolic constant of this parameter name.
    pub open spec fn spec_gl_code(self) -> u32 {
        match self {
            TexParName::BaseLevel => 0x813C,
            TexParName::BorderColor => 0x1004,
            TexParName::CompareFunc => 0x884D,
            TexParName::CompareMode => 0x884C,
            TexParName::LodBias => 0x8501,
            TexParName::MinFilter => 0x2801,
            TexParName::MagFilter => 0x2800,
            TexParName::MinLod => 0x813A,
            TexParName::MaxLod => 0x813B,
            TexParName::MaxLevel => 0x813D,
            TexParName::SwizzleR => 0x8E42,
            TexParName::SwizzleG => 0x8E43,
            TexParName::SwizzleB => 0x8E44,
            TexParName::SwizzleA => 0x8E45,
            TexParName::SwizzleRgba => 0x8E46,
            TexParName::WrapS => 0x2802,
            TexParName::WrapT => 0x2803,
            TexParName::WrapR => 0x8072,
        }
    }

    /// Returns the native symbolic constant of this parameter name.
    pub fn gl_code(self) -> (code: u32)
        ensures
            code == self.spec_gl_code(),
    {
        match self {
            TexParName::BaseLevel => 0x813C,
            TexParName::BorderColor => 0x1004,
            TexParName::CompareFunc => 0x884D,
            TexParName::CompareMode => 0x884C,
            TexParName::LodBias => 0x8501,
            TexParName::MinFilter => 0x2801,
            TexParName::MagFilter => 0x2800,
            TexParName::MinLod => 0x813A,
            TexParName::MaxLod => 0x813B,
            TexParName::MaxLevel => 0x813D,
            TexParName::SwizzleR => 0x8E42,
            TexParName::SwizzleG => 0x8E43,
            TexParName::SwizzleB => 0x8E44,
            TexParName::SwizzleA => 0x8E45,
            TexParName::SwizzleRgba => 0x8E46,
            TexParName::WrapS => 0x2802,
            TexParName::WrapT => 0x2803,
            TexParName::WrapR => 0x8072,
        }
    }
}

/// The recognized integer values for texture parameters. Each variant's
/// native code (see [`TexParValue::spec_gl_code`]) equals the native
/// API's symbolic constant for that value.
#[derive(Clone, Copy, PartialEq, Eq, Debug)]
pub enum TexParValue {
    /// Trilinear filtering between mipmap levels.
    LinearMipmapLinear,
    /// Linear filtering.
    Linear,
    /// Repeat wrapping.
    Repeat,
}

impl TexParValue {
    /// The native symbolic constant of this parameter value.
    pub open spec fn spec_gl_code(self) -> u32 {
        match self {
            TexParValue::LinearMipmapLinear => 0x2703,
            TexParValue::Linear => 0x2601,
            TexParValue::Repeat => 0x2901,
        }
    }

    /// Returns the native symbolic constant of this parameter value.
    pub fn gl_code(self) -> (code: u32)
        ensures
            code == self.spec_gl_code(),
    {
        match self {
            TexParValue::LinearMipmapLinear => 0x2703,
            TexParValue::Linear => 0x2601,
            TexParValue::Repeat => 0x2901,
        }
    }
}

/// The internal storage formats recognized for textures. Each variant's
/// native code (see [`TexInternalFormat::spec_gl_code`]) equals the
/// native API's symbolic constant for that format.
#[derive(Clone, Copy, PartialEq, Eq, Debug)]
pub enum TexInternalFormat {
    /// Red, green and blue components.
    RGB,
}

impl TexInternalFormat {
    /// The native symbolic constant of this format.
    pub open spec fn spec_gl_code(self) -> u32 {
        match self {
            TexInternalFormat::RGB => 0x1907,
        }
    }

    /// Returns the native symbolic constant of this format.
    pub fn gl_code(self) -> (code: u32)
        ensures
            code == self.spec_gl_code(),
    {
        match self {
            TexInternalFormat::RGB => 0x1907,
        }
    }
}

/// The owner of one texture resource, with the target kind it was created
/// for. It cannot be copied; deleting it consumes it.
pub struct Texture {
    target: TextureTarget,
    id: u32,
}

impl Texture {
    /// The handle of the owned texture.
    pub closed spec fn handle(&self) -> u32 {
        self.id
    }

    /// The target this texture was created for.
    pub closed spec fn target(&self) -> TextureTarget {
        self.target
    }

    /// Allocates one texture resource for the given target kind.
    pub fn new(gl: &mut MockGl, target: TextureTarget) -> (texture: Texture)
        requires
            old(gl).wf(),
            old(gl)@.can_allocate(),
        ensures
            final(gl).wf(),
            texture.target() == target,
            texture.handle() == old(gl)@.alloc_pick(),
            !old(gl)@.objects.contains_key(texture.handle()),
            final(gl)@ == old(gl)@.alloc_rest().with_object(texture.handle(), GlObject::Texture),
    {
        let id = gl.gen_texture();
        Texture { id, target }
    }

    /// Returns the handle of the owned texture.
    pub fn id(&self) -> (id: u32)
        ensures
            id == self.handle(),
    {
        self.id
    }

    /// Binds this texture and sets one integer parameter on its target:
    /// exactly one parameter call with this texture's target code, the
    /// parameter's code and the value's code is issued.
    pub fn parameter(&self, gl: &mut MockGl, pname: TexParName, pvalue: TexParValue)
        requires
            old(gl).wf(),
            old(gl)@.is_texture(self.handle()),
        ensures
            final(gl).wf(),
            final(gl)@ == (GlView {
                bound_textures: old(gl)@.bound_textures.insert(
                    self.target().spec_gl_code(),
                    self.handle(),
                ),
                tex_param_calls: old(gl)@.tex_param_calls.push(
                    TexParamCall {
                        target_code: self.target().spec_gl_code(),
                        pname_code: pname.spec_gl_code(),
                        value: pvalue.spec_gl_code() as i32,
                    },
                ),
                ..old(gl)@
            }),
    {
        self.bind(gl);
        let value = pvalue.gl_code() as i32;
        gl.tex_parameter_i(self.target.gl_code(), pname.gl_code(), value);
        proof {
            assert(final(gl)@ =~= (GlView {
                bound_textures: old(gl)@.bound_textures.insert(
                    self.target().spec_gl_code(),
                    self.handle(),
                ),
                tex_param_calls: old(gl)@.tex_param_calls.push(
                    TexParamCall {
                        target_code: self.target().spec_gl_code(),
                        pname_code: pname.spec_gl_code(),
                        value: pvalue.spec_gl_code() as i32,
                    },
                ),
                ..old(gl)@
            }));
        }
    }

    /// Makes this texture current for its target.
    pub fn bind(&self, gl: &mut MockGl)
        requires
            old(gl).wf(),
            old(gl)@.is_texture(self.handle()),
        ensures
            final(gl).wf(),
            final(gl)@ == (GlView {
                bound_textures: old(gl)@.bound_textures.insert(
                    self.target().spec_gl_code(),
                    self.handle(),
                ),
                ..old(gl)@
            }),
    {
        gl.bind_texture(self.target.gl_code(), self.id);
    }

    /// Deletes the owned texture, consuming the owner: the handle leaves
    /// the object table and joins the free pool, exactly once.
    pub fn delete(self, gl: &mut MockGl)
        requires
            old(gl).wf(),
            old(gl)@.is_texture(self.handle()),
        ensures
            final(gl).wf(),
            final(gl)@ == old(gl)@.without_object(self.handle()),
    {
        gl.delete_texture(self.id);
    }
}

} // verus!
