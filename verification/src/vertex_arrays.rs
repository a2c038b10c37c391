//! An owning wrapper for one vertex-array resource: the holder of
//! attribute configuration and binding state in the native context.

use vstd::prelude::*;

use crate::mock_gl::GlObject;
use crate::mock_gl::GlView;
use crate::mock_gl::MockGl;

verus! {

/// The owner of one vertex-array resource. It carries no record of which
/// attributes or buffers were configured under it — that state lives in
/// the context. It cannot be copied; deleting it consumes it.
pub struct VertexArray {
    id: u32,
}

impl VertexArray {
    /// The handle of the owned vertex array.
    pub closed spec fn handle(&self) -> u32 {
        self.id
    }

    /// Allocates one vertex-array resource.
    pub fn new(gl: &mut MockGl) -> (vao: VertexArray)
        requires
            old(gl).wf(),
            old(gl)@.can_allocate(),
        ensures
            final(gl).wf(),
            vao.handle() == old(gl)@.alloc_pick(),
            !old(gl)@.objects.contains_key(vao.handle()),
            final(gl)@ == old(gl)@.alloc_rest().with_object(vao.handle(), GlObject::VertexArray),
    {
        let id = gl.gen_vertex_array();
        VertexArray { id }
    }

    /// Makes this vertex array current: attribute configuration and
    /// element-array binds now act on it, until another one is bound or
    /// [`VertexArray::unbind`] restores the null binding.
    pub fn bind(&self, gl: &mut MockGl)
        requires
            old(gl).wf(),
            old(gl)@.is_vertex_array(self.handle()),
        ensures
            final(gl).wf(),
            final(gl)@ == (GlView { bound_vertex_array: self.handle(), ..old(gl)@ }),
    {
        gl.bind_vertex_array(self.id);
    }

    /// Restores the null vertex-array binding.
    pub fn unbind(gl: &mut MockGl)
        requires
            old(gl).wf(),
        ensures
            final(gl).wf(),
            final(gl)@ == (GlView { bound_vertex_array: 0, ..old(gl)@ }),
    {
        gl.bind_vertex_array(0);
    }

    /// Returns the handle of the owned vertex array.
    pub fn id(&self) -> (id: u32)
        ensures
            id == self.handle(),
    {
        self.id
    }

    /// Deletes the owned vertex array, consuming the owner: the handle
    /// leaves the object table and joins the free pool, exactly once.
    pub fn delete(self, gl: &mut MockGl)
        requires
            old(gl).wf(),
            old(gl)@.is_vertex_array(self.handle()),
        ensures
            final(gl).wf(),
            final(gl)@ == old(gl)@.without_object(self.handle()),
    {
        gl.delete_vertex_array(self.id);
    }
}

} // verus!
