//! Value-type owners for the handle-based objects of a stateful graphics
//! context: buffers, vertex arrays, shaders, programs, textures, and the
//! vertex-attribute descriptors that tie buffer bytes to shader inputs.
//!
//! Every wrapper operates on an explicit [`mock_gl::MockGl`] context, an
//! in-process model of the native context's object table and binding state.
//! The contracts of the wrappers pin down exactly which native state each
//! call creates, mutates or deletes; the unverifiable foreign-function glue
//! that drives a real driver lives outside this library.

pub mod buffer_object;
pub mod mock_gl;
pub mod program;
pub mod shader;
pub mod texture;
pub mod types;
pub mod vertex_arrays;
pub mod vertex_attrib_pointer;

pub use buffer_object::BufferObject;
pub use buffer_object::BufferTarget;
pub use buffer_object::BufferUsage;
pub use mock_gl::AttribState;
pub use mock_gl::GlObject;
pub use mock_gl::GlView;
pub use mock_gl::MockGl;
pub use mock_gl::TexParamCall;
pub use program::Program;
pub use shader::Shader;
pub use shader::ShaderType;
pub use texture::TexInternalFormat;
pub use texture::TexParName;
pub use texture::TexParValue;
pub use texture::Texture;
pub use texture::TextureTarget;
pub use types::ElemType;
pub use types::GLType;
pub use vertex_arrays::VertexArray;
pub use vertex_attrib_pointer::VertexAttribPointer;
