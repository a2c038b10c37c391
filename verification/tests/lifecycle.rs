//! Lifecycle checks: creating then destroying each wrapper leaks no
//! handle (the next creation reuses the freed value), and a moved wrapper
//! is deleted exactly once, through the destination.

use rustedcraft::BufferObject;
use rustedcraft::BufferTarget;
use rustedcraft::BufferUsage;
use rustedcraft::MockGl;
use rustedcraft::Program;
use rustedcraft::Shader;
use rustedcraft::ShaderType;
use rustedcraft::Texture;
use rustedcraft::TextureTarget;
use rustedcraft::VertexArray;

#[test]
fn buffer_create_destroy_reuses_the_handle() {
    let mut gl = MockGl::new();
    let first = BufferObject::new(&mut gl, BufferTarget::ArrayBuffer, BufferUsage::StaticDraw);
    let handle = first.id();
    assert_eq!(gl.live_count(), 1);
    first.delete(&mut gl);
    assert_eq!(gl.live_count(), 0);
    assert!(gl.lookup_object(handle).is_none());
    let second = BufferObject::new(&mut gl, BufferTarget::UniformBuffer, BufferUsage::StreamRead);
    assert_eq!(second.id(), handle);
    assert_eq!(gl.live_count(), 1);
    second.delete(&mut gl);
}

#[test]
fn vertex_array_create_destroy_reuses_the_handle() {
    let mut gl = MockGl::new();
    let first = VertexArray::new(&mut gl);
    let handle = first.id();
    first.delete(&mut gl);
    assert_eq!(gl.live_count(), 0);
    let second = VertexArray::new(&mut gl);
    assert_eq!(second.id(), handle);
    second.delete(&mut gl);
}

#[test]
fn shader_create_destroy_reuses_the_handle() {
    let mut gl = MockGl::new();
    let first = Shader::from_source(&mut gl, "void main() {}", ShaderType::Vertex).unwrap();
    let handle = first.id();
    first.delete(&mut gl);
    assert_eq!(gl.live_count(), 0);
    let second = Shader::from_source(&mut gl, "void main() {}", ShaderType::Fragment).unwrap();
    assert_eq!(second.id(), handle);
    second.delete(&mut gl);
}

#[test]
fn program_create_destroy_reuses_the_handle() {
    let mut gl = MockGl::new();
    let first = Program::new(&mut gl);
    let handle = first.id();
    first.delete(&mut gl);
    assert_eq!(gl.live_count(), 0);
    let second = Program::new(&mut gl);
    assert_eq!(second.id(), handle);
    second.delete(&mut gl);
}

#[test]
fn texture_create_destroy_reuses_the_handle() {
    let mut gl = MockGl::new();
    let first = Texture::new(&mut gl, TextureTarget::Texture2D);
    let handle = first.id();
    first.delete(&mut gl);
    assert_eq!(gl.live_count(), 0);
    let second = Texture::new(&mut gl, TextureTarget::TextureCubeMap);
    assert_eq!(second.id(), handle);
    second.delete(&mut gl);
}

#[test]
fn moved_buffer_is_deleted_exactly_once() {
    let mut gl = MockGl::new();
    let source = BufferObject::new(&mut gl, BufferTarget::ArrayBuffer, BufferUsage::StaticDraw);
    let handle = source.id();
    // Moving transfers ownership; the source can no longer be touched,
    // so only the destination's deletion runs.
    let destination = source;
    assert_eq!(destination.id(), handle);
    assert_eq!(gl.live_count(), 1);
    destination.delete(&mut gl);
    assert_eq!(gl.live_count(), 0);
    assert!(gl.lookup_object(handle).is_none());
}

#[test]
fn moved_shader_is_deleted_exactly_once() {
    let mut gl = MockGl::new();
    let source = Shader::from_source(&mut gl, "void main() {}", ShaderType::Vertex).unwrap();
    let handle = source.id();
    let destination = source;
    assert_eq!(destination.id(), handle);
    destination.delete(&mut gl);
    assert_eq!(gl.live_count(), 0);
    assert!(gl.lookup_object(handle).is_none());
}

#[test]
fn distinct_live_objects_get_distinct_handles() {
    let mut gl = MockGl::new();
    let buffer = BufferObject::new(&mut gl, BufferTarget::ArrayBuffer, BufferUsage::StaticDraw);
    let vao = VertexArray::new(&mut gl);
    let program = Program::new(&mut gl);
    let texture = Texture::new(&mut gl, TextureTarget::Texture1D);
    let handles = [buffer.id(), vao.id(), program.id(), texture.id()];
    for i in 0..handles.len() {
        assert_ne!(handles[i], 0);
        for j in 0..i {
            assert_ne!(handles[i], handles[j]);
        }
    }
    assert_eq!(gl.live_count(), 4);
}
