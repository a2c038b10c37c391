//! An owning wrapper for one compiled shader-stage resource. A `Shader`
//! only exists after a successful compile: a rejected compile returns the
//! diagnostic text instead, and the half-created native object is deleted
//! on that path before the error is returned, so no handle leaks.

use vstd::prelude::*;

use crate::mock_gl::compile_failure_log;
use crate::mock_gl::lemma_diagnostic_logs_nonempty;
use crate::mock_gl::GlObject;
use crate::mock_gl::MockGl;

verus! {

/// The pipeline stages a shader can execute at. Each variant's native
/// code (see [`ShaderType::spec_gl_code`]) equals the native API's
/// symbolic constant for that stage.
#[derive(Clone, Copy, PartialEq, Eq, Debug)]
pub enum ShaderType {
    /// Tessellation evaluation stage.
    TessEvaluation,
    /// Tessellation control stage.
    TessControl,
    /// Fragment stage.
    Fragment,
    /// Geometry stage.
    Geometry,
    /// Compute stage.
    Compute,
    /// Vertex stage.
    Vertex,
}

impl ShaderType {
    /// The native symbolic constant of this stage.
    pub open spec fn spec_gl_code(self) -> u32 {
        match self {
            ShaderType::TessEvaluation => 0x8E87,
            ShaderType::TessControl => 0x8E88,
            ShaderType::Fragment => 0x8B30,
            ShaderType::Geometry => 0x8DD9,
            ShaderType::Compute => 0x91B9,
            ShaderType::Vertex => 0x8B31,
        }
    }

    /// Returns the native symbolic constant of this stage.
    pub fn gl_code(self) -> (code: u32)
        ensures
            code == self.spec_gl_code(),
    {
        match self {
            ShaderType::TessEvaluation => 0x8E87,
            ShaderType::TessControl => 0x8E88,
            ShaderType::Fragment => 0x8B30,
            ShaderType::Geometry => 0x8DD9,
            ShaderType::Compute => 0x91B9,
            ShaderType::Vertex => 0x8B31,
        }
    }
}

/// The owner of one successfully compiled shader-stage resource. It
/// cannot be copied; deleting it consumes it.
pub struct Shader {
    id: u32,
}

impl Shader {
    /// The handle of the owned shader.
    pub closed spec fn handle(&self) -> u32 {
        self.id
    }

    /// Compiles a shader from source text. A shader object is created,
    /// the source is submitted, and the compile status is queried: on
    /// success the compiled shader is returned as a live owner; on
    /// rejection the diagnostic text is returned instead and the created
    /// object is deleted again, leaving the object table as it was.
    ///
    /// The context's compiler accepts exactly the non-empty sources, so
    /// success is decided by `source` alone.
    pub fn from_source(gl: &mut MockGl, source: &str, shader_type: ShaderType) -> (result: Result<
        Shader,
        String,
    >)
        requires
            old(gl).wf(),
            old(gl)@.can_allocate(),
        ensures
            final(gl).wf(),
            result is Ok <==> source@.len() > 0,
            (match result {
                Ok(shader) => {
                    &&& shader.handle() == old(gl)@.alloc_pick()
                    &&& !old(gl)@.objects.contains_key(shader.handle())
                    &&& final(gl)@ == old(gl)@.alloc_rest().with_object(
                        shader.handle(),
                        GlObject::Shader {
                            stage_code: shader_type.spec_gl_code(),
                            source_nonempty: true,
                            compiled_ok: true,
                        },
                    )
                },
                Err(log) => {
                    &&& log@ == compile_failure_log()
                    &&& log@.len() > 0
                    &&& final(gl)@ == old(gl)@.alloc_roundtrip()
                },
            }),
    {
        let stage_code = shader_type.gl_code();
        let id = gl.create_shader(stage_code);
        gl.shader_source(id, source);
        gl.compile_shader(id);
        if !gl.shader_compile_succeeded(id) {
            let log = gl.shader_info_log(id);
            gl.delete_shader(id);
            proof {
                lemma_diagnostic_logs_nonempty();
                assert(final(gl)@ =~= old(gl)@.alloc_roundtrip());
            }
            return Err(log);
        }
        proof {
            assert(final(gl)@ =~= old(gl)@.alloc_rest().with_object(
                id,
                GlObject::Shader {
                    stage_code: shader_type.spec_gl_code(),
                    source_nonempty: true,
                    compiled_ok: true,
                },
            ));
        }
        Ok(Shader { id })
    }

    /// Returns the handle of the owned shader, for attaching it to a
    /// program.
    pub fn id(&self) -> (id: u32)
        ensures
            id == self.handle(),
    {
        self.id
    }

    /// Deletes the owned shader, consuming the owner: the handle leaves
    /// the object table and joins the free pool, exactly once. Programs
    /// it was attached to are unaffected.
    pub fn delete(self, gl: &mut MockGl)
        requires
            old(gl).wf(),
            old(gl)@.is_shader(self.handle()),
        ensures
            final(gl).wf(),
            final(gl)@ == old(gl)@.without_object(self.handle()),
    {
        gl.delete_shader(self.id);
    }
}

} // verus!
