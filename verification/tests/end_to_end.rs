//! The full setup sequence: bind a vertex array, create and fill buffers,
//! and describe two interleaved float attributes — both slots end up
//! enabled with a 24-byte stride — plus texture binding and parameters.

use rustedcraft::BufferObject;
use rustedcraft::BufferTarget;
use rustedcraft::BufferUsage;
use rustedcraft::ElemType;
use rustedcraft::GlObject;
use rustedcraft::MockGl;
use rustedcraft::TexParName;
use rustedcraft::TexParValue;
use rustedcraft::Texture;
use rustedcraft::TextureTarget;
use rustedcraft::VertexArray;
use rustedcraft::VertexAttribPointer;

#[test]
fn interleaved_position_color_setup() {
    let mut gl = MockGl::new();

    let vao = VertexArray::new(&mut gl);
    vao.bind(&mut gl);
    assert_eq!(gl.current_vertex_array(), vao.id());

    let vbo = BufferObject::new(&mut gl, BufferTarget::ArrayBuffer, BufferUsage::StaticDraw);
    // Three vertices, six 32-bit floats each (position x,y,z + color
    // r,g,b), uploaded as their bit patterns: 72 bytes in all.
    let triangle: [u32; 18] = [
        0.5f32.to_bits(),
        (-0.5f32).to_bits(),
        0.0f32.to_bits(),
        1.0f32.to_bits(),
        0.0f32.to_bits(),
        0.0f32.to_bits(),
        (-0.5f32).to_bits(),
        (-0.5f32).to_bits(),
        0.0f32.to_bits(),
        0.0f32.to_bits(),
        1.0f32.to_bits(),
        0.0f32.to_bits(),
        0.0f32.to_bits(),
        0.5f32.to_bits(),
        0.0f32.to_bits(),
        0.0f32.to_bits(),
        0.0f32.to_bits(),
        1.0f32.to_bits(),
    ];
    vbo.data(&mut gl, &triangle);
    assert_eq!(gl.bound_buffer(gl::ARRAY_BUFFER), vbo.id());
    match gl.lookup_object(vbo.id()) {
        Some(GlObject::Buffer { size_bytes, usage_code, has_data }) => {
            assert_eq!(size_bytes, 72);
            assert_eq!(usage_code, gl::STATIC_DRAW);
            assert!(has_data);
        },
        other => panic!("expected a live buffer, found {:?}", other),
    }

    let ebo = BufferObject::new(&mut gl, BufferTarget::ElementArrayBuffer, BufferUsage::StaticDraw);
    let indices: [u32; 3] = [0, 1, 2];
    ebo.data(&mut gl, &indices);
    assert_eq!(gl.bound_buffer(gl::ELEMENT_ARRAY_BUFFER), ebo.id());
    match gl.lookup_object(ebo.id()) {
        Some(GlObject::Buffer { size_bytes, .. }) => assert_eq!(size_bytes, 12),
        other => panic!("expected a live buffer, found {:?}", other),
    }

    let position = VertexAttribPointer::new(&mut gl, ElemType::F32, 0, 3, false, 6, 0);
    let color = VertexAttribPointer::new(&mut gl, ElemType::F32, 1, 3, false, 6, 3);
    position.enable(&mut gl);
    color.enable(&mut gl);

    let slot0 = gl.attrib(0).unwrap();
    assert!(slot0.enabled);
    assert_eq!(slot0.component_count, 3);
    assert_eq!(slot0.type_code, gl::FLOAT);
    assert_eq!(slot0.stride_bytes, 24);
    assert_eq!(slot0.offset_bytes, 0);

    let slot1 = gl.attrib(1).unwrap();
    assert!(slot1.enabled);
    assert_eq!(slot1.component_count, 3);
    assert_eq!(slot1.type_code, gl::FLOAT);
    assert_eq!(slot1.stride_bytes, 24);
    assert_eq!(slot1.offset_bytes, 12);

    VertexArray::unbind(&mut gl);
    assert_eq!(gl.current_vertex_array(), 0);

    ebo.delete(&mut gl);
    vbo.delete(&mut gl);
    vao.delete(&mut gl);
    assert_eq!(gl.live_count(), 0);
}

#[test]
fn texture_parameter_binds_then_issues_one_call() {
    let mut gl = MockGl::new();
    let texture = Texture::new(&mut gl, TextureTarget::Texture2D);
    assert_eq!(gl.tex_param_call_count(), 0);

    texture.parameter(&mut gl, TexParName::MinFilter, TexParValue::LinearMipmapLinear);
    assert_eq!(gl.bound_texture(gl::TEXTURE_2D), texture.id());
    assert_eq!(gl.tex_param_call_count(), 1);
    let call = gl.tex_param_call(0).unwrap();
    assert_eq!(call.target_code, gl::TEXTURE_2D);
    assert_eq!(call.pname_code, gl::TEXTURE_MIN_FILTER);
    assert_eq!(call.value, gl::LINEAR_MIPMAP_LINEAR as i32);

    texture.parameter(&mut gl, TexParName::WrapS, TexParValue::Repeat);
    assert_eq!(gl.tex_param_call_count(), 2);
    let second = gl.tex_param_call(1).unwrap();
    assert_eq!(second.pname_code, gl::TEXTURE_WRAP_S);
    assert_eq!(second.value, gl::REPEAT as i32);

    texture.delete(&mut gl);
    assert_eq!(gl.live_count(), 0);
}
