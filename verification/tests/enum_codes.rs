//! Exhaustive table-driven checks that every exposed enumerant carries
//! exactly the native API's symbolic constant, compared against the
//! bindings crate's values.

use rustedcraft::BufferTarget;
use rustedcraft::BufferUsage;
use rustedcraft::ElemType;
use rustedcraft::GLType;
use rustedcraft::ShaderType;
use rustedcraft::TexInternalFormat;
use rustedcraft::TexParName;
use rustedcraft::TexParValue;
use rustedcraft::TextureTarget;

#[test]
fn buffer_target_codes_match_native_constants() {
    let table = [
        (BufferTarget::ArrayBuffer, gl::ARRAY_BUFFER),
        (BufferTarget::CopyReadBuffer, gl::COPY_READ_BUFFER),
        (BufferTarget::CopyWriteBuffer, gl::COPY_WRITE_BUFFER),
        (BufferTarget::ElementArrayBuffer, gl::ELEMENT_ARRAY_BUFFER),
        (BufferTarget::PixelPackBuffer, gl::PIXEL_PACK_BUFFER),
        (BufferTarget::PixelUnpackBuffer, gl::PIXEL_UNPACK_BUFFER),
        (BufferTarget::TextureBuffer, gl::TEXTURE_BUFFER),
        (BufferTarget::TransformFeedbackBuffer, gl::TRANSFORM_FEEDBACK_BUFFER),
        (BufferTarget::UniformBuffer, gl::UNIFORM_BUFFER),
    ];
    for (target, expected) in table {
        assert_eq!(target.gl_code(), expected);
    }
}

#[test]
fn buffer_usage_codes_match_native_constants() {
    let table = [
        (BufferUsage::DynamicDraw, gl::DYNAMIC_DRAW),
        (BufferUsage::StaticDraw, gl::STATIC_DRAW),
        (BufferUsage::StreamDraw, gl::STREAM_DRAW),
        (BufferUsage::DynamicRead, gl::DYNAMIC_READ),
        (BufferUsage::StaticRead, gl::STATIC_READ),
        (BufferUsage::StreamRead, gl::STREAM_READ),
    ];
    for (usage, expected) in table {
        assert_eq!(usage.gl_code(), expected);
    }
}

#[test]
fn shader_type_codes_match_native_constants() {
    let table = [
        (ShaderType::TessEvaluation, gl::TESS_EVALUATION_SHADER),
        (ShaderType::TessControl, gl::TESS_CONTROL_SHADER),
        (ShaderType::Fragment, gl::FRAGMENT_SHADER),
        (ShaderType::Geometry, gl::GEOMETRY_SHADER),
        (ShaderType::Compute, gl::COMPUTE_SHADER),
        (ShaderType::Vertex, gl::VERTEX_SHADER),
    ];
    for (stage, expected) in table {
        assert_eq!(stage.gl_code(), expected);
    }
}

#[test]
fn texture_target_codes_match_native_constants() {
    let table = [
        (TextureTarget::Texture1D, gl::TEXTURE_1D),
        (TextureTarget::Texture2D, gl::TEXTURE_2D),
        (TextureTarget::Texture3D, gl::TEXTURE_3D),
        (TextureTarget::Texture1DArray, gl::TEXTURE_1D_ARRAY),
        (TextureTarget::Texture2DArray, gl::TEXTURE_2D_ARRAY),
        (TextureTarget::TextureRectangle, gl::TEXTURE_RECTANGLE),
        (TextureTarget::TextureCubeMap, gl::TEXTURE_CUBE_MAP),
    ];
    for (target, expected) in table {
        assert_eq!(target.gl_code(), expected);
    }
}

#[test]
fn texture_parameter_name_codes_match_native_constants() {
    let table = [
        (TexParName::BaseLevel, gl::TEXTURE_BASE_LEVEL),
        (TexParName::BorderColor, gl::TEXTURE_BORDER_COLOR),
        (TexParName::CompareFunc, gl::TEXTURE_COMPARE_FUNC),
        (TexParName::CompareMode, gl::TEXTURE_COMPARE_MODE),
        (TexParName::LodBias, gl::TEXTURE_LOD_BIAS),
        (TexParName::MinFilter, gl::TEXTURE_MIN_FILTER),
        (TexParName::MagFilter, gl::TEXTURE_MAG_FILTER),
        (TexParName::MinLod, gl::TEXTURE_MIN_LOD),
        (TexParName::MaxLod, gl::TEXTURE_MAX_LOD),
        (TexParName::MaxLevel, gl::TEXTURE_MAX_LEVEL),
        (TexParName::SwizzleR, gl::TEXTURE_SWIZZLE_R),
        (TexParName::SwizzleG, gl::TEXTURE_SWIZZLE_G),
        (TexParName::SwizzleB, gl::TEXTURE_SWIZZLE_B),
        (TexParName::SwizzleA, gl::TEXTURE_SWIZZLE_A),
        (TexParName::SwizzleRgba, gl::TEXTURE_SWIZZLE_RGBA),
        (TexParName::WrapS, gl::TEXTURE_WRAP_S),
        (TexParName::WrapT, gl::TEXTURE_WRAP_T),
        (TexParName::WrapR, gl::TEXTURE_WRAP_R),
    ];
    for (pname, expected) in table {
        assert_eq!(pname.gl_code(), expected);
    }
}

#[test]
fn texture_parameter_value_codes_match_native_constants() {
    let table = [
        (TexParValue::LinearMipmapLinear, gl::LINEAR_MIPMAP_LINEAR),
        (TexParValue::Linear, gl::LINEAR),
        (TexParValue::Repeat, gl::REPEAT),
    ];
    for (pvalue, expected) in table {
        assert_eq!(pvalue.gl_code(), expected);
    }
}

#[test]
fn texture_internal_format_codes_match_native_constants() {
    assert_eq!(TexInternalFormat::RGB.gl_code(), gl::RGB);
}

#[test]
fn elem_type_codes_match_native_constants() {
    let table = [
        (ElemType::F32, gl::FLOAT),
        (ElemType::F64, gl::DOUBLE),
        (ElemType::I32, gl::INT),
        (ElemType::U32, gl::UNSIGNED_INT),
        (ElemType::I16, gl::SHORT),
        (ElemType::U16, gl::UNSIGNED_SHORT),
        (ElemType::I8, gl::BYTE),
        (ElemType::U8, gl::UNSIGNED_BYTE),
    ];
    for (elem, expected) in table {
        assert_eq!(elem.gl_code(), expected);
    }
}

#[test]
fn elem_type_sizes_match_native_type_widths() {
    let table = [
        (ElemType::F32, 4),
        (ElemType::F64, 8),
        (ElemType::I32, 4),
        (ElemType::U32, 4),
        (ElemType::I16, 2),
        (ElemType::U16, 2),
        (ElemType::I8, 1),
        (ElemType::U8, 1),
    ];
    for (elem, expected) in table {
        assert_eq!(elem.size_bytes(), expected);
    }
}

#[test]
fn gl_type_trait_resolves_integer_types() {
    assert_eq!(<i32 as GLType>::gl_type(), gl::INT);
    assert_eq!(<u32 as GLType>::gl_type(), gl::UNSIGNED_INT);
    assert_eq!(<i16 as GLType>::gl_type(), gl::SHORT);
    assert_eq!(<u16 as GLType>::gl_type(), gl::UNSIGNED_SHORT);
    assert_eq!(<i8 as GLType>::gl_type(), gl::BYTE);
    assert_eq!(<u8 as GLType>::gl_type(), gl::UNSIGNED_BYTE);
    assert_eq!(<i32 as GLType>::elem(), ElemType::I32);
    assert_eq!(<u32 as GLType>::elem(), ElemType::U32);
    assert_eq!(<i16 as GLType>::elem(), ElemType::I16);
    assert_eq!(<u16 as GLType>::elem(), ElemType::U16);
    assert_eq!(<i8 as GLType>::elem(), ElemType::I8);
    assert_eq!(<u8 as GLType>::elem(), ElemType::U8);
}
