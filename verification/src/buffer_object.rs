//! An owning wrapper for one data-buffer resource: created with a fixed
//! target and usage, bound and filled through its own methods, deleted
//! exactly once by consuming the owner.

use vstd::prelude::*;

use crate::mock_gl::GlObject;
use crate::mock_gl::GlView;
use crate::mock_gl::MockGl;
use crate::types::GLType;

verus! {

/// The targets a buffer can be bound to. Each variant's native code (see
/// [`BufferTarget::spec_gl_code`]) equals the native API's symbolic
/// constant for that target.
#[derive(Clone, Copy, PartialEq, Eq, Debug)]
pub enum BufferTarget {
    /// Vertex attribute data.
    ArrayBuffer,
    /// Source of a copy operation.
    CopyReadBuffer,
    /// Destination of a copy operation.
    CopyWriteBuffer,
    /// Element indices (index buffers).
    ElementArrayBuffer,
    /// Pixel packing for pixel transfers.
    PixelPackBuffer,
    /// Pixel unpacking for pixel transfers.
    PixelUnpackBuffer,
    /// Texture data.
    TextureBuffer,
    /// Transform feedback output.
    TransformFeedbackBuffer,
    /// Uniform data for shaders.
    UniformBuffer,
}

impl BufferTarget {
    /// The native symbolic constant of this target.
    pub open spec fn spec_gl_code(self) -> u32 {
        match self {
            BufferTarget::ArrayBuffer => 0x8892,
            BufferTarget::CopyReadBuffer => 0x8F36,
            BufferTarget::CopyWriteBuffer => 0x8F37,
            BufferTarget::ElementArrayBuffer => 0x8893,
            BufferTarget::PixelPackBuffer => 0x88EB,
            BufferTarget::PixelUnpackBuffer => 0x88EC,
            BufferTarget::TextureBuffer => 0x8C2A,
            BufferTarget::TransformFeedbackBuffer => 0x8C8E,
            BufferTarget::UniformBuffer => 0x8A11,
        }
    }

    /// Returns the native symbolic constant of this target.
    pub fn gl_code(self) -> (code: u32)
        ensures
            code == self.spec_gl_code(),
    {
        match self {
            BufferTarget::ArrayBuffer => 0x8892,
            BufferTarget::CopyReadBuffer => 0x8F36,
            BufferTarget::CopyWriteBuffer => 0x8F37,
            BufferTarget::ElementArrayBuffer => 0x8893,
            BufferTarget::PixelPackBuffer => 0x88EB,
            BufferTarget::PixelUnpackBuffer => 0x88EC,
            BufferTarget::TextureBuffer => 0x8C2A,
            BufferTarget::TransformFeedbackBuffer => 0x8C8E,
            BufferTarget::UniformBuffer => 0x8A11,
        }
    }
}

/// The usage hints a buffer can be created with. Each variant's native
/// code (see [`BufferUsage::spec_gl_code`]) equals the native API's
/// symbolic constant for that hint.
#[derive(Clone, Copy, PartialEq, Eq, Debug)]
pub enum BufferUsage {
    /// Data changes frequently and is drawn.
    DynamicDraw,
    /// Data rarely changes and is drawn.
    StaticDraw,
    /// Data changes every use and is drawn.
    StreamDraw,
    /// Data changes frequently and is read back.
    DynamicRead,
    /// Data rarely changes and is read back.
    StaticRead,
    /// Data changes every use and is read back.
    StreamRead,
}

impl BufferUsage {
    /// The native symbolic constant of this usage hint.
    pub open spec fn spec_gl_code(self) -> u32 {
        match self {
            BufferUsage::DynamicDraw => 0x88E8,
            BufferUsage::StaticDraw => 0x88E4,
            BufferUsage::StreamDraw => 0x88E0,
            BufferUsage::DynamicRead => 0x88E9,
            BufferUsage::StaticRead => 0x88E5,
            BufferUsage::StreamRead => 0x88E1,
        }
    }

    /// Returns the native symbolic constant of this usage hint.
    pub fn gl_code(self) -> (code: u32)
        ensures
            code == self.spec_gl_code(),
    {
        match self {
            BufferUsage::DynamicDraw => 0x88E8,
            BufferUsage::StaticDraw => 0x88E4,
            BufferUsage::StreamDraw => 0x88E0,
            BufferUsage::DynamicRead => 0x88E9,
            BufferUsage::StaticRead => 0x88E5,
            BufferUsage::StreamRead => 0x88E1,
        }
    }
}

/// The owner of one data-buffer resource, with the target and usage it
/// was created with. It cannot be copied; deleting it consumes it, so the
/// underlying handle is deleted exactly once.
pub struct BufferObject {
    target: BufferTarget,
    usage: BufferUsage,
    id: u32,
}

impl BufferObject {
    /// The handle of the owned buffer.
    pub closed spec fn handle(&self) -> u32 {
        self.id
    }

    /// The target this buffer was created for.
    pub closed spec fn target(&self) -> BufferTarget {
        self.target
    }

    /// The usage hint this buffer was created with.
    pub closed spec fn usage(&self) -> BufferUsage {
        self.usage
    }

    /// Allocates one buffer resource; the returned owner keeps the given
    /// target and usage for the buffer's whole lifetime.
    pub fn new(gl: &mut MockGl, target: BufferTarget, usage: BufferUsage) -> (buffer:
        BufferObject)
        requires
            old(gl).wf(),
            old(gl)@.can_allocate(),
        ensures
            final(gl).wf(),
            buffer.target() == target,
            buffer.usage() == usage,
            buffer.handle() == old(gl)@.alloc_pick(),
            !old(gl)@.objects.contains_key(buffer.handle()),
            final(gl)@ == old(gl)@.alloc_rest().with_object(
                buffer.handle(),
                GlObject::Buffer { size_bytes: 0, usage_code: 0, has_data: false },
            ),
    {
        let id = gl.gen_buffer();
        BufferObject { id, target, usage }
    }

    /// Returns the handle of the owned buffer.
    pub fn id(&self) -> (id: u32)
        ensures
            id == self.handle(),
    {
        self.id
    }

    /// Makes this buffer current for its target; later operations on that
    /// target act on this buffer.
    pub fn bind(&self, gl: &mut MockGl)
        requires
            old(gl).wf(),
            old(gl)@.is_buffer(self.handle()),
        ensures
            final(gl).wf(),
            final(gl)@ == (GlView {
                bound_buffers: old(gl)@.bound_buffers.insert(
                    self.target().spec_gl_code(),
                    self.handle(),
                ),
                ..old(gl)@
            }),
    {
        gl.bind_buffer(self.target.gl_code(), self.id);
    }

    /// Binds this buffer and uploads `elements` to it: the buffer then
    /// holds one byte copy of the slice (element count times element
    /// size), tagged with the stored usage hint.
    pub fn data<T: GLType>(&self, gl: &mut MockGl, elements: &[T])
        requires
            old(gl).wf(),
            old(gl)@.is_buffer(self.handle()),
            elements@.len() * T::spec_elem().spec_size_bytes() <= isize::MAX,
        ensures
            final(gl).wf(),
            final(gl)@ == (GlView {
                bound_buffers: old(gl)@.bound_buffers.insert(
                    self.target().spec_gl_code(),
                    self.handle(),
                ),
                objects: old(gl)@.objects.insert(
                    self.handle(),
                    GlObject::Buffer {
                        size_bytes: (elements@.len() * T::spec_elem().spec_size_bytes()) as usize,
                        usage_code: self.usage().spec_gl_code(),
                        has_data: true,
                    },
                ),
                ..old(gl)@
            }),
    {
        let target_code = self.target.gl_code();
        let size_bytes = elements.len() * T::elem().size_bytes();
        gl.bind_buffer(target_code, self.id);
        gl.buffer_data(target_code, size_bytes, self.usage.gl_code());
        proof {
            assert(final(gl)@ =~= (GlView {
                bound_buffers: old(gl)@.bound_buffers.insert(
                    self.target().spec_gl_code(),
                    self.handle(),
                ),
                objects: old(gl)@.objects.insert(
                    self.handle(),
                    GlObject::Buffer {
                        size_bytes: (elements@.len() * T::spec_elem().spec_size_bytes()) as usize,
                        usage_code: self.usage().spec_gl_code(),
                        has_data: true,
                    },
                ),
                ..old(gl)@
            }));
        }
    }

    /// Deletes the owned buffer, consuming the owner: the handle leaves
    /// the object table and joins the free pool, exactly once.
    pub fn delete(self, gl: &mut MockGl)
        requires
            old(gl).wf(),
            old(gl)@.is_buffer(self.handle()),
        ensures
            final(gl).wf(),
            final(gl)@ == old(gl)@.without_object(self.handle()),
    {
        gl.delete_buffer(self.id);
    }
}

} // verus!
