//! An owning wrapper for one shader-program resource: shaders are
//! attached to it, it is linked, and on success it can be made the active
//! program. Attached shaders stay independently owned.

use vstd::prelude::*;

use crate::mock_gl::lemma_diagnostic_logs_nonempty;
use crate::mock_gl::link_failure_log;
use crate::mock_gl::GlObject;
use crate::mock_gl::GlView;
use crate::mock_gl::MockGl;
use crate::shader::Shader;

verus! {

/// The owner of one program resource. It cannot be copied; deleting it
/// consumes it.
pub struct Program {
    id: u32,
}

impl Program {
    /// The handle of the owned program.
    pub closed spec fn handle(&self) -> u32 {
        self.id
    }

    /// Creates one empty program resource: nothing attached, not linked.
    pub fn new(gl: &mut MockGl) -> (program: Program)
        requires
            old(gl).wf(),
            old(gl)@.can_allocate(),
        ensures
            final(gl).wf(),
            program.handle() == old(gl)@.alloc_pick(),
            !old(gl)@.objects.contains_key(program.handle()),
            final(gl)@ == old(gl)@.alloc_rest().with_object(
                program.handle(),
                GlObject::Program { attached_count: 0, linked: false },
            ),
    {
        let id = gl.create_program();
        Program { id }
    }

    /// Registers a compiled shader with this program for the next link:
    /// the attachment is recorded and the program's attachment count
    /// grows by one. One-way: the program does not own the shader.
    pub fn attach_shader(&self, gl: &mut MockGl, shader: &Shader)
        requires
            old(gl).wf(),
            old(gl)@.is_program(self.handle()),
            old(gl)@.is_shader(shader.handle()),
            old(gl)@.program_attached_count(self.handle()) < usize::MAX,
        ensures
            final(gl).wf(),
            final(gl)@ == (GlView {
                objects: old(gl)@.objects.insert(
                    self.handle(),
                    GlObject::Program {
                        attached_count: (old(gl)@.program_attached_count(self.handle())
                            + 1) as usize,
                        linked: old(gl)@.program_linked(self.handle()),
                    },
                ),
                attach_calls: old(gl)@.attach_calls.push((self.handle(), shader.handle())),
                ..old(gl)@
            }),
    {
        gl.attach_shader(self.id, shader.id());
    }

    /// Links the attached shaders and queries the link status: `Ok` when
    /// the link succeeded, the diagnostic text otherwise. The context's
    /// linker accepts exactly the programs with at least one shader
    /// attached, so success is decided by the attachment count alone.
    pub fn link(&self, gl: &mut MockGl) -> (result: Result<(), String>)
        requires
            old(gl).wf(),
            old(gl)@.is_program(self.handle()),
        ensures
            final(gl).wf(),
            result is Ok <==> old(gl)@.program_attached_count(self.handle()) > 0,
            final(gl)@ == old(gl)@.with_object(
                self.handle(),
                GlObject::Program {
                    attached_count: old(gl)@.program_attached_count(self.handle()),
                    linked: old(gl)@.program_attached_count(self.handle()) > 0,
                },
            ),
            (match result {
                Ok(_) => true,
                Err(log) => log@ == link_failure_log() && log@.len() > 0,
            }),
    {
        gl.link_program(self.id);
        if gl.link_succeeded(self.id) {
            Ok(())
        } else {
            let log = gl.program_info_log(self.id);
            proof {
                lemma_diagnostic_logs_nonempty();
            }
            Err(log)
        }
    }

    /// Makes this program the active one for rendering. Always succeeds
    /// at this layer; using an unlinked program is surfaced only by the
    /// native API's own error channel, which this layer does not poll.
    pub fn use_program(&self, gl: &mut MockGl)
        requires
            old(gl).wf(),
            old(gl)@.is_program(self.handle()),
        ensures
            final(gl).wf(),
            final(gl)@ == (GlView { current_program: self.handle(), ..old(gl)@ }),
    {
        gl.use_program(self.id);
    }

    /// Returns the handle of the owned program, for queries (such as
    /// uniform locations) that stay outside this layer.
    pub fn id(&self) -> (id: u32)
        ensures
            id == self.handle(),
    {
        self.id
    }

    /// Deletes the owned program, consuming the owner: the handle leaves
    /// the object table and joins the free pool, exactly once. Attached
    /// shaders are independently owned and unaffected.
    pub fn delete(self, gl: &mut MockGl)
        requires
            old(gl).wf(),
            old(gl)@.is_program(self.handle()),
        ensures
            final(gl).wf(),
            final(gl)@ == old(gl)@.without_object(self.handle()),
    {
        gl.delete_program(self.id);
    }
}

} // verus!
