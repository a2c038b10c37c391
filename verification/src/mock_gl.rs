//! An in-process model of the native graphics context: the object table
//! (one entry per live handle), the free pool of deleted handles, the
//! global binding state, and the per-index vertex-attribute table.
//!
//! The wrappers of this crate issue every native call against this model,
//! and their contracts state exactly how each call changes it. The model
//! also stands in for the native layer when the crate is exercised by
//! tests: handles are allocated and reused the way a driver may reuse
//! names, and compile/link verdicts follow a simple documented rule (a
//! shader compiles when its source text is non-empty; a program links when
//! at least one shader is attached), since no real compiler runs here.

use vstd::prelude::*;
use std::collections::HashMap;

verus! {

broadcast use vstd::std_specs::hash::group_hash_axioms, vstd::string::group_string_axioms;

/// The layout and enable state of one vertex-attribute slot.
#[derive(Clone, Copy, PartialEq, Eq, Debug)]
pub struct AttribState {
    /// Number of components read per vertex (e.g. 3 for a 3-vector).
    pub component_count: usize,
    /// Native symbolic code of the element type.
    pub type_code: u32,
    /// Whether fixed-point values are normalized when fetched.
    pub normalized: bool,
    /// Distance in bytes between consecutive attributes.
    pub stride_bytes: usize,
    /// Offset in bytes from the start of the bound buffer.
    pub offset_bytes: usize,
    /// Whether the attribute array at this index is enabled.
    pub enabled: bool,
}

impl AttribState {
    /// The state of a never-configured attribute slot, as the native API
    /// documents it: four components, 32-bit float, tightly packed,
    /// offset zero, disabled.
    pub open spec fn spec_unset() -> AttribState {
        AttribState {
            component_count: 4,
            type_code: 0x1406,
            normalized: false,
            stride_bytes: 0,
            offset_bytes: 0,
            enabled: false,
        }
    }

    /// Returns the state of a never-configured attribute slot.
    pub fn unset() -> (a: AttribState)
        ensures
            a == AttribState::spec_unset(),
    {
        AttribState {
            component_count: 4,
            type_code: 0x1406,
            normalized: false,
            stride_bytes: 0,
            offset_bytes: 0,
            enabled: false,
        }
    }
}

/// A record of one texture-parameter call, with the raw codes the native
/// call received.
#[derive(Clone, Copy, PartialEq, Eq, Debug)]
pub struct TexParamCall {
    /// Native code of the texture target the call addressed.
    pub target_code: u32,
    /// Native code of the parameter name that was set.
    pub pname_code: u32,
    /// The integer value the parameter was set to.
    pub value: i32,
}

/// One live object of the context, keyed by its handle in the object
/// table.
#[derive(Clone, Copy, PartialEq, Eq, Debug)]
pub enum GlObject {
    /// A data buffer: the byte size and usage code of its last upload,
    /// and whether any upload has happened.
    Buffer { size_bytes: usize, usage_code: u32, has_data: bool },
    /// A vertex-array object; its attribute state lives in the global
    /// attribute table of this model.
    VertexArray,
    /// A shader-stage object: its stage code, whether source text has
    /// been submitted and is non-empty, and whether the last compile
    /// succeeded.
    Shader { stage_code: u32, source_nonempty: bool, compiled_ok: bool },
    /// A shader program: how many shaders were attached, and whether the
    /// last link succeeded.
    Program { attached_count: usize, linked: bool },
    /// A texture object.
    Texture,
}

/// The abstract state of the context: what the contracts of this crate
/// speak about.
#[verifier::ext_equal]
pub ghost struct GlView {
    /// The object table: every live handle and the object it denotes.
    pub objects: Map<u32, GlObject>,
    /// Handles of deleted objects, available for reuse (last freed is
    /// reused first).
    pub free: Seq<u32>,
    /// The smallest handle value never yet handed out.
    pub next_fresh: int,
    /// The buffer bound to each buffer target (by target code).
    pub bound_buffers: Map<u32, u32>,
    /// The currently bound vertex array, 0 when none.
    pub bound_vertex_array: u32,
    /// The currently active program, 0 when none.
    pub current_program: u32,
    /// The texture bound to each texture target (by target code).
    pub bound_textures: Map<u32, u32>,
    /// The vertex-attribute table, by attribute index.
    pub attribs: Map<u32, AttribState>,
    /// Every texture-parameter call issued so far, in order.
    pub tex_param_calls: Seq<TexParamCall>,
    /// Every shader-to-program attachment issued so far, in order
    /// (program handle, shader handle).
    pub attach_calls: Seq<(u32, u32)>,
}

impl GlView {
    /// The state of a freshly created context: no objects, nothing bound.
    pub open spec fn spec_initial() -> GlView {
        GlView {
            objects: Map::empty(),
            free: Seq::empty(),
            next_fresh: 1,
            bound_buffers: Map::empty(),
            bound_vertex_array: 0,
            current_program: 0,
            bound_textures: Map::empty(),
            attribs: Map::empty(),
            tex_param_calls: Seq::empty(),
            attach_calls: Seq::empty(),
        }
    }

    /// Well-formedness: handles are nonzero and below the fresh counter,
    /// the free pool holds no duplicates, and no free handle is live.
    pub open spec fn inv(self) -> bool {
        &&& 1 <= self.next_fresh <= u32::MAX
        &&& forall|h: u32| self.objects.contains_key(h) ==> 1 <= h < self.next_fresh
        &&& forall|i: int|
            0 <= i < self.free.len() ==> 1 <= #[trigger] self.free[i] < self.next_fresh
        &&& forall|i: int|
            0 <= i < self.free.len() ==> !self.objects.contains_key(#[trigger] self.free[i])
        &&& forall|i: int, j: int|
            0 <= i < j < self.free.len() ==> self.free[i] != self.free[j]
    }

    /// Whether another handle can be allocated: either a freed handle is
    /// available, or the fresh counter has room.
    pub open spec fn can_allocate(self) -> bool {
        self.free.len() > 0 || self.next_fresh < u32::MAX
    }

    /// The handle the next allocation returns: the most recently freed
    /// handle when one exists, the fresh counter otherwise.
    pub open spec fn alloc_pick(self) -> u32 {
        if self.free.len() > 0 {
            self.free.last()
        } else {
            self.next_fresh as u32
        }
    }

    /// The allocator's state after handing out [`alloc_pick`](Self::alloc_pick),
    /// before the new object is entered into the table.
    pub open spec fn alloc_rest(self) -> GlView {
        if self.free.len() > 0 {
            GlView { free: self.free.drop_last(), ..self }
        } else {
            GlView { next_fresh: self.next_fresh + 1, ..self }
        }
    }

    /// The state with `handle` live as `object`.
    pub open spec fn with_object(self, handle: u32, object: GlObject) -> GlView {
        GlView { objects: self.objects.insert(handle, object), ..self }
    }

    /// The state after deleting `handle`: it leaves the object table and
    /// joins the free pool.
    pub open spec fn without_object(self, handle: u32) -> GlView {
        GlView { objects: self.objects.remove(handle), free: self.free.push(handle), ..self }
    }

    /// The state after a handle was allocated and at once deleted again:
    /// the object table is untouched, only the allocator churned.
    pub open spec fn alloc_roundtrip(self) -> GlView {
        GlView {
            free: self.alloc_rest().free.push(self.alloc_pick()),
            next_fresh: self.alloc_rest().next_fresh,
            ..self
        }
    }

    /// Whether `handle` denotes a live buffer.
    pub open spec fn is_buffer(self, handle: u32) -> bool {
        self.objects.contains_key(handle) && self.objects[handle] is Buffer
    }

    /// Whether `handle` denotes a live vertex array.
    pub open spec fn is_vertex_array(self, handle: u32) -> bool {
        self.objects.contains_key(handle) && self.objects[handle] is VertexArray
    }

    /// Whether `handle` denotes a live shader.
    pub open spec fn is_shader(self, handle: u32) -> bool {
        self.objects.contains_key(handle) && self.objects[handle] is Shader
    }

    /// Whether `handle` denotes a live program.
    pub open spec fn is_program(self, handle: u32) -> bool {
        self.objects.contains_key(handle) && self.objects[handle] is Program
    }

    /// Whether `handle` denotes a live texture.
    pub open spec fn is_texture(self, handle: u32) -> bool {
        self.objects.contains_key(handle) && self.objects[handle] is Texture
    }

    /// The stage code of a live shader.
    pub open spec fn shader_stage(self, handle: u32) -> u32
        recommends
            self.is_shader(handle),
    {
        self.objects[handle]->Shader_stage_code
    }

    /// Whether a live shader has non-empty source text submitted.
    pub open spec fn shader_source_nonempty(self, handle: u32) -> bool
        recommends
            self.is_shader(handle),
    {
        self.objects[handle]->Shader_source_nonempty
    }

    /// Whether the last compile of a live shader succeeded.
    pub open spec fn shader_compiled(self, handle: u32) -> bool
        recommends
            self.is_shader(handle),
    {
        self.objects[handle]->Shader_compiled_ok
    }

    /// How many shaders have been attached to a live program.
    pub open spec fn program_attached_count(self, handle: u32) -> usize
        recommends
            self.is_program(handle),
    {
        self.objects[handle]->Program_attached_count
    }

    /// Whether the last link of a live program succeeded.
    pub open spec fn program_linked(self, handle: u32) -> bool
        recommends
            self.is_program(handle),
    {
        self.objects[handle]->Program_linked
    }

    /// The buffer bound to a target, 0 when none was ever bound.
    pub open spec fn bound_buffer_at(self, target_code: u32) -> u32 {
        if self.bound_buffers.contains_key(target_code) {
            self.bound_buffers[target_code]
        } else {
            0
        }
    }

    /// The texture bound to a target, 0 when none was ever bound.
    pub open spec fn bound_texture_at(self, target_code: u32) -> u32 {
        if self.bound_textures.contains_key(target_code) {
            self.bound_textures[target_code]
        } else {
            0
        }
    }

    /// The attribute state at an index, the native default when the index
    /// was never touched.
    pub open spec fn attrib_at(self, index: u32) -> AttribState {
        if self.attribs.contains_key(index) {
            self.attribs[index]
        } else {
            AttribState::spec_unset()
        }
    }
}

/// The diagnostic text the model's compiler reports when a shader is
/// rejected (its rule: source text must be non-empty).
pub open spec fn compile_failure_log() -> Seq<char> {
    "shader compilation failed: no source text was provided"@
}

/// The diagnostic text the model's linker reports when a program is
/// rejected (its rule: at least one shader must be attached).
pub open spec fn link_failure_log() -> Seq<char> {
    "program linking failed: no shaders are attached"@
}

/// Both diagnostic texts are non-empty, so a reported failure always
/// carries a message.
pub proof fn lemma_diagnostic_logs_nonempty()
    ensures
        compile_failure_log().len() > 0,
        link_failure_log().len() > 0,
{
    reveal_strlit("shader compilation failed: no source text was provided");
    reveal_strlit("program linking failed: no shaders are attached");
}

/// Allocation is sound: the picked handle is fresh (not live, not free
/// after the pick), and entering any object under it keeps the state
/// well formed.
proof fn lemma_alloc_properties(v: GlView)
    requires
        v.inv(),
        v.can_allocate(),
    ensures
        v.alloc_rest().inv(),
        !v.alloc_rest().objects.contains_key(v.alloc_pick()),
        !v.alloc_rest().free.contains(v.alloc_pick()),
        1 <= v.alloc_pick() < v.alloc_rest().next_fresh,
        forall|o: GlObject| #[trigger] v.alloc_rest().with_object(v.alloc_pick(), o).inv(),
{
    let h = v.alloc_pick();
    let r = v.alloc_rest();
    if v.free.len() > 0 {
        assert(v.free[v.free.len() - 1] == h);
        assert forall|i: int| 0 <= i < r.free.len() implies r.free[i] != h by {
            assert(v.free[i] == r.free[i]);
        }
    }
    assert(!r.free.contains(h));
    assert forall|o: GlObject| #[trigger] r.with_object(h, o).inv() by {
        let w = r.with_object(h, o);
        assert forall|k: u32| w.objects.contains_key(k) implies 1 <= k < w.next_fresh by {
            if k != h {
                assert(v.objects.contains_key(k));
            }
        }
        assert forall|i: int| 0 <= i < w.free.len() implies !w.objects.contains_key(
            #[trigger] w.free[i],
        ) by {
            assert(!r.free.contains(h));
            assert(r.free[i] != h);
        }
    }
}

/// Deleting a live handle keeps the state well formed.
proof fn lemma_delete_properties(v: GlView, handle: u32)
    requires
        v.inv(),
        v.objects.contains_key(handle),
    ensures
        v.without_object(handle).inv(),
        v.without_object(handle).can_allocate(),
        !v.free.contains(handle),
{
    let w = v.without_object(handle);
    assert forall|i: int| 0 <= i < v.free.len() implies v.free[i] != handle by {
        assert(!v.objects.contains_key(v.free[i]));
    }
    assert(!v.free.contains(handle));
    assert forall|i: int, j: int| 0 <= i < j < w.free.len() implies w.free[i] != w.free[j] by {
        if j < v.free.len() {
        } else {
            assert(w.free[j] == handle);
            assert(w.free[i] == v.free[i]);
        }
    }
}

/// Creating an object and immediately destroying it leaks nothing: the
/// object table returns to what it was, the freed handle is available
/// again, and the very next creation reuses that same handle.
pub proof fn lemma_create_then_destroy_leaks_nothing(v: GlView, o: GlObject)
    requires
        v.inv(),
        v.can_allocate(),
    ensures
        ({
            let h = v.alloc_pick();
            let created = v.alloc_rest().with_object(h, o);
            let destroyed = created.without_object(h);
            &&& destroyed.objects =~= v.objects
            &&& destroyed.alloc_pick() == h
            &&& destroyed.can_allocate()
            &&& destroyed.inv()
        }),
{
    let h = v.alloc_pick();
    let created = v.alloc_rest().with_object(h, o);
    lemma_alloc_properties(v);
    lemma_delete_properties(created, h);
    assert(created.objects.remove(h) =~= v.objects);
}

/// Destruction frees a handle exactly once: the handle was not in the
/// free pool while it was live, it leaves the object table, and it is
/// appended to the free pool a single time.
pub proof fn lemma_destroy_frees_exactly_once(v: GlView, handle: u32)
    requires
        v.inv(),
        v.objects.contains_key(handle),
    ensures
        !v.free.contains(handle),
        !v.without_object(handle).objects.contains_key(handle),
        v.without_object(handle).free == v.free.push(handle),
        v.without_object(handle).inv(),
{
    lemma_delete_properties(v, handle);
}

/// The model context. All state is reached through the methods below;
/// the abstract value is the [`GlView`] returned by `@`.
pub struct MockGl {
    objects: HashMap<u32, GlObject>,
    free: Vec<u32>,
    next_fresh: u32,
    bound_buffers: HashMap<u32, u32>,
    bound_vertex_array: u32,
    current_program: u32,
    bound_textures: HashMap<u32, u32>,
    attribs: HashMap<u32, AttribState>,
    tex_param_calls: Vec<TexParamCall>,
    attach_calls: Vec<(u32, u32)>,
}

impl View for MockGl {
    type V = GlView;

    closed spec fn view(&self) -> GlView {
        GlView {
            objects: self.objects@,
            free: self.free@,
            next_fresh: self.next_fresh as int,
            bound_buffers: self.bound_buffers@,
            bound_vertex_array: self.bound_vertex_array,
            current_program: self.current_program,
            bound_textures: self.bound_textures@,
            attribs: self.attribs@,
            tex_param_calls: self.tex_param_calls@,
            attach_calls: self.attach_calls@,
        }
    }
}

impl MockGl {
    /// Well-formedness of the context state.
    pub open spec fn wf(&self) -> bool {
        self@.inv()
    }

    /// Creates a fresh context with no objects and nothing bound.
    pub fn new() -> (gl: MockGl)
        ensures
            gl.wf(),
            gl@ == GlView::spec_initial(),
    {
        let gl = MockGl {
            objects: HashMap::new(),
            free: Vec::new(),
            next_fresh: 1,
            bound_buffers: HashMap::new(),
            bound_vertex_array: 0,
            current_program: 0,
            bound_textures: HashMap::new(),
            attribs: HashMap::new(),
            tex_param_calls: Vec::new(),
            attach_calls: Vec::new(),
        };
        proof {
            assert(gl@ =~= GlView::spec_initial());
        }
        gl
    }

    /// Hands out the next handle: the most recently freed one when the
    /// free pool is non-empty, a fresh value otherwise.
    fn alloc_handle(&mut self) -> (h: u32)
        requires
            old(self).wf(),
            old(self)@.can_allocate(),
        ensures
            h == old(self)@.alloc_pick(),
            final(self)@ == old(self)@.alloc_rest(),
    {
        let popped = self.free.pop();
        match popped {
            Some(h) => {
                proof {
                    assert(final(self)@ =~= old(self)@.alloc_rest());
                }
                h
            },
            None => {
                let h = self.next_fresh;
                self.next_fresh = self.next_fresh + 1;
                proof {
                    assert(final(self)@ =~= old(self)@.alloc_rest());
                }
                h
            },
        }
    }

    /// Allocates a new buffer object (models the native buffer-generation
    /// call). The returned handle is fresh and the buffer starts empty.
    pub fn gen_buffer(&mut self) -> (h: u32)
        requires
            old(self).wf(),
            old(self)@.can_allocate(),
        ensures
            final(self).wf(),
            h == old(self)@.alloc_pick(),
            final(self)@ == old(self)@.alloc_rest().with_object(
                h,
                GlObject::Buffer { size_bytes: 0, usage_code: 0, has_data: false },
            ),
            !old(self)@.objects.contains_key(h),
            final(self)@.is_buffer(h),
    {
        proof {
            lemma_alloc_properties(old(self)@);
        }
        let h = self.alloc_handle();
        self.objects.insert(h, GlObject::Buffer { size_bytes: 0, usage_code: 0, has_data: false });
        proof {
            assert(final(self)@ =~= old(self)@.alloc_rest().with_object(
                h,
                GlObject::Buffer { size_bytes: 0, usage_code: 0, has_data: false },
            ));
        }
        h
    }

    /// Deletes a live buffer: it leaves the object table and its handle
    /// joins the free pool. Bindings are left untouched, so a binding may
    /// dangle; whether a real driver unbinds on delete is left open here.
    pub fn delete_buffer(&mut self, handle: u32)
        requires
            old(self).wf(),
            old(self)@.is_buffer(handle),
        ensures
            final(self).wf(),
            final(self)@ == old(self)@.without_object(handle),
    {
        proof {
            lemma_delete_properties(old(self)@, handle);
        }
        self.objects.remove(&handle);
        self.free.push(handle);
        proof {
            assert(final(self)@ =~= old(self)@.without_object(handle));
        }
    }

    /// Binds a buffer (or 0, unbinding) to a buffer target (models the
    /// native buffer-binding call).
    pub fn bind_buffer(&mut self, target_code: u32, handle: u32)
        requires
            old(self).wf(),
            handle == 0 || old(self)@.is_buffer(handle),
        ensures
            final(self).wf(),
            final(self)@ == (GlView {
                bound_buffers: old(self)@.bound_buffers.insert(target_code, handle),
                ..old(self)@
            }),
    {
        self.bound_buffers.insert(target_code, handle);
        proof {
            assert(final(self)@ =~= GlView {
                bound_buffers: old(self)@.bound_buffers.insert(target_code, handle),
                ..old(self)@
            });
        }
    }

    /// Uploads data to the buffer currently bound to a target (models the
    /// native data-upload call): the bound buffer's contents are replaced
    /// by `size_bytes` bytes with the given usage code.
    pub fn buffer_data(&mut self, target_code: u32, size_bytes: usize, usage_code: u32)
        requires
            old(self).wf(),
            old(self)@.is_buffer(old(self)@.bound_buffer_at(target_code)),
        ensures
            final(self).wf(),
            final(self)@ == old(self)@.with_object(
                old(self)@.bound_buffer_at(target_code),
                GlObject::Buffer { size_bytes, usage_code, has_data: true },
            ),
    {
        let handle: u32 = match self.bound_buffers.get(&target_code) {
            Some(h) => *h,
            None => 0,
        };
        self.objects.insert(handle, GlObject::Buffer { size_bytes, usage_code, has_data: true });
        proof {
            assert(final(self)@ =~= old(self)@.with_object(
                old(self)@.bound_buffer_at(target_code),
                GlObject::Buffer { size_bytes, usage_code, has_data: true },
            ));
        }
    }

    /// Returns the object a handle denotes, `None` when the handle is not
    /// live.
    pub fn lookup_object(&self, handle: u32) -> (o: Option<GlObject>)
        ensures
            match o {
                Some(object) => self@.objects.contains_key(handle) && object
                    == self@.objects[handle],
                None => !self@.objects.contains_key(handle),
            },
    {
        match self.objects.get(&handle) {
            Some(object) => Some(*object),
            None => None,
        }
    }

    /// How many objects are live.
    pub fn live_count(&self) -> (n: usize)
        ensures
            n == self@.objects.len(),
    {
        self.objects.len()
    }

    /// The buffer bound to a target, 0 when none.
    pub fn bound_buffer(&self, target_code: u32) -> (h: u32)
        ensures
            h == self@.bound_buffer_at(target_code),
    {
        match self.bound_buffers.get(&target_code) {
            Some(h) => *h,
            None => 0,
        }
    }

    /// Allocates a new vertex-array object (models the native
    /// vertex-array-generation call).
    pub fn gen_vertex_array(&mut self) -> (h: u32)
        requires
            old(self).wf(),
            old(self)@.can_allocate(),
        ensures
            final(self).wf(),
            h == old(self)@.alloc_pick(),
            final(self)@ == old(self)@.alloc_rest().with_object(h, GlObject::VertexArray),
            !old(self)@.objects.contains_key(h),
            final(self)@.is_vertex_array(h),
    {
        proof {
            lemma_alloc_properties(old(self)@);
        }
        let h = self.alloc_handle();
        self.objects.insert(h, GlObject::VertexArray);
        proof {
            assert(final(self)@ =~= old(self)@.alloc_rest().with_object(
                h,
                GlObject::VertexArray,
            ));
        }
        h
    }

    /// Deletes a live vertex array.
    pub fn delete_vertex_array(&mut self, handle: u32)
        requires
            old(self).wf(),
            old(self)@.is_vertex_array(handle),
        ensures
            final(self).wf(),
            final(self)@ == old(self)@.without_object(handle),
    {
        proof {
            lemma_delete_properties(old(self)@, handle);
        }
        self.objects.remove(&handle);
        self.free.push(handle);
        proof {
            assert(final(self)@ =~= old(self)@.without_object(handle));
        }
    }

    /// Makes a vertex array (or 0, none) the current one (models the
    /// native vertex-array-binding call).
    pub fn bind_vertex_array(&mut self, handle: u32)
        requires
            old(self).wf(),
            handle == 0 || old(self)@.is_vertex_array(handle),
        ensures
            final(self).wf(),
            final(self)@ == (GlView { bound_vertex_array: handle, ..old(self)@ }),
    {
        self.bound_vertex_array = handle;
        proof {
            assert(final(self)@ =~= (GlView { bound_vertex_array: handle, ..old(self)@ }));
        }
    }

    /// The currently bound vertex array, 0 when none.
    pub fn current_vertex_array(&self) -> (h: u32)
        ensures
            h == self@.bound_vertex_array,
    {
        self.bound_vertex_array
    }

    /// Creates a new shader object for a stage (models the native
    /// shader-creation call). It starts with no source and not compiled.
    pub fn create_shader(&mut self, stage_code: u32) -> (h: u32)
        requires
            old(self).wf(),
            old(self)@.can_allocate(),
        ensures
            final(self).wf(),
            h == old(self)@.alloc_pick(),
            final(self)@ == old(self)@.alloc_rest().with_object(
                h,
                GlObject::Shader { stage_code, source_nonempty: false, compiled_ok: false },
            ),
            !old(self)@.objects.contains_key(h),
            final(self)@.is_shader(h),
    {
        proof {
            lemma_alloc_properties(old(self)@);
        }
        let h = self.alloc_handle();
        self.objects.insert(
            h,
            GlObject::Shader { stage_code, source_nonempty: false, compiled_ok: false },
        );
        proof {
            assert(final(self)@ =~= old(self)@.alloc_rest().with_object(
                h,
                GlObject::Shader { stage_code, source_nonempty: false, compiled_ok: false },
            ));
        }
        h
    }

    /// Submits source text to a live shader (models the native
    /// shader-source call). Only whether the text is non-empty is kept;
    /// the compile status is untouched until the next compile.
    pub fn shader_source(&mut self, handle: u32, source: &str)
        requires
            old(self).wf(),
            old(self)@.is_shader(handle),
        ensures
            final(self).wf(),
            final(self)@ == old(self)@.with_object(
                handle,
                GlObject::Shader {
                    stage_code: old(self)@.shader_stage(handle),
                    source_nonempty: source@.len() > 0,
                    compiled_ok: old(self)@.shader_compiled(handle),
                },
            ),
    {
        let (stage_code, compiled_ok): (u32, bool) = match self.objects.get(&handle) {
            Some(GlObject::Shader { stage_code, compiled_ok, .. }) => (*stage_code, *compiled_ok),
            _ => (0, false),
        };
        let source_nonempty = source.unicode_len() > 0;
        self.objects.insert(
            handle,
            GlObject::Shader { stage_code, source_nonempty, compiled_ok },
        );
        proof {
            assert(final(self)@ =~= old(self)@.with_object(
                handle,
                GlObject::Shader {
                    stage_code: old(self)@.shader_stage(handle),
                    source_nonempty: source@.len() > 0,
                    compiled_ok: old(self)@.shader_compiled(handle),
                },
            ));
        }
    }

    /// Compiles a live shader (models the native compile call). The
    /// model's compiler accepts exactly the shaders whose submitted
    /// source text is non-empty.
    pub fn compile_shader(&mut self, handle: u32)
        requires
            old(self).wf(),
            old(self)@.is_shader(handle),
        ensures
            final(self).wf(),
            final(self)@ == old(self)@.with_object(
                handle,
                GlObject::Shader {
                    stage_code: old(self)@.shader_stage(handle),
                    source_nonempty: old(self)@.shader_source_nonempty(handle),
                    compiled_ok: old(self)@.shader_source_nonempty(handle),
                },
            ),
    {
        let (stage_code, source_nonempty): (u32, bool) = match self.objects.get(&handle) {
            Some(GlObject::Shader { stage_code, source_nonempty, .. }) => (
                *stage_code,
                *source_nonempty,
            ),
            _ => (0, false),
        };
        self.objects.insert(
            handle,
            GlObject::Shader { stage_code, source_nonempty, compiled_ok: source_nonempty },
        );
        proof {
            assert(final(self)@ =~= old(self)@.with_object(
                handle,
                GlObject::Shader {
                    stage_code: old(self)@.shader_stage(handle),
                    source_nonempty: old(self)@.shader_source_nonempty(handle),
                    compiled_ok: old(self)@.shader_source_nonempty(handle),
                },
            ));
        }
    }

    /// Whether the last compile of a live shader succeeded (models the
    /// native compile-status query).
    pub fn shader_compile_succeeded(&self, handle: u32) -> (ok: bool)
        requires
            self.wf(),
            self@.is_shader(handle),
        ensures
            ok == self@.shader_compiled(handle),
    {
        match self.objects.get(&handle) {
            Some(GlObject::Shader { compiled_ok, .. }) => *compiled_ok,
            _ => false,
        }
    }

    /// The diagnostic text of a live shader (models the native info-log
    /// query): empty after a successful compile, the model compiler's
    /// message otherwise.
    pub fn shader_info_log(&self, handle: u32) -> (log: String)
        requires
            self.wf(),
            self@.is_shader(handle),
        ensures
            self@.shader_compiled(handle) ==> log@ == Seq::<char>::empty(),
            !self@.shader_compiled(handle) ==> log@ == compile_failure_log(),
    {
        let compiled: bool = match self.objects.get(&handle) {
            Some(GlObject::Shader { compiled_ok, .. }) => *compiled_ok,
            _ => false,
        };
        if compiled {
            String::new()
        } else {
            let log = "shader compilation failed: no source text was provided".to_string();
            log
        }
    }

    /// Deletes a live shader.
    pub fn delete_shader(&mut self, handle: u32)
        requires
            old(self).wf(),
            old(self)@.is_shader(handle),
        ensures
            final(self).wf(),
            final(self)@ == old(self)@.without_object(handle),
    {
        proof {
            lemma_delete_properties(old(self)@, handle);
        }
        self.objects.remove(&handle);
        self.free.push(handle);
        proof {
            assert(final(self)@ =~= old(self)@.without_object(handle));
        }
    }

    /// Creates a new, empty program object (models the native
    /// program-creation call).
    pub fn create_program(&mut self) -> (h: u32)
        requires
            old(self).wf(),
            old(self)@.can_allocate(),
        ensures
            final(self).wf(),
            h == old(self)@.alloc_pick(),
            final(self)@ == old(self)@.alloc_rest().with_object(
                h,
                GlObject::Program { attached_count: 0, linked: false },
            ),
            !old(self)@.objects.contains_key(h),
            final(self)@.is_program(h),
    {
        proof {
            lemma_alloc_properties(old(self)@);
        }
        let h = self.alloc_handle();
        self.objects.insert(h, GlObject::Program { attached_count: 0, linked: false });
        proof {
            assert(final(self)@ =~= old(self)@.alloc_rest().with_object(
                h,
                GlObject::Program { attached_count: 0, linked: false },
            ));
        }
        h
    }

    /// Registers a live shader with a live program for the next link
    /// (models the native attach call). The registration is recorded and
    /// the program's attachment count grows by one.
    pub fn attach_shader(&mut self, program: u32, shader: u32)
        requires
            old(self).wf(),
            old(self)@.is_program(program),
            old(self)@.is_shader(shader),
            old(self)@.program_attached_count(program) < usize::MAX,
        ensures
            final(self).wf(),
            final(self)@ == (GlView {
                objects: old(self)@.objects.insert(
                    program,
                    GlObject::Program {
                        attached_count: (old(self)@.program_attached_count(program) + 1) as usize,
                        linked: old(self)@.program_linked(program),
                    },
                ),
                attach_calls: old(self)@.attach_calls.push((program, shader)),
                ..old(self)@
            }),
    {
        let (attached_count, linked): (usize, bool) = match self.objects.get(&program) {
            Some(GlObject::Program { attached_count, linked }) => (*attached_count, *linked),
            _ => (0, false),
        };
        self.objects.insert(
            program,
            GlObject::Program { attached_count: attached_count + 1, linked },
        );
        self.attach_calls.push((program, shader));
        proof {
            assert(final(self)@ =~= (GlView {
                objects: old(self)@.objects.insert(
                    program,
                    GlObject::Program {
                        attached_count: (old(self)@.program_attached_count(program) + 1) as usize,
                        linked: old(self)@.program_linked(program),
                    },
                ),
                attach_calls: old(self)@.attach_calls.push((program, shader)),
                ..old(self)@
            }));
        }
    }

    /// Links a live program (models the native link call). The model's
    /// linker accepts exactly the programs with at least one shader
    /// attached.
    pub fn link_program(&mut self, handle: u32)
        requires
            old(self).wf(),
            old(self)@.is_program(handle),
        ensures
            final(self).wf(),
            final(self)@ == old(self)@.with_object(
                handle,
                GlObject::Program {
                    attached_count: old(self)@.program_attached_count(handle),
                    linked: old(self)@.program_attached_count(handle) > 0,
                },
            ),
    {
        let attached_count: usize = match self.objects.get(&handle) {
            Some(GlObject::Program { attached_count, .. }) => *attached_count,
            _ => 0,
        };
        self.objects.insert(
            handle,
            GlObject::Program { attached_count, linked: attached_count > 0 },
        );
        proof {
            assert(final(self)@ =~= old(self)@.with_object(
                handle,
                GlObject::Program {
                    attached_count: old(self)@.program_attached_count(handle),
                    linked: old(self)@.program_attached_count(handle) > 0,
                },
            ));
        }
    }

    /// Whether the last link of a live program succeeded (models the
    /// native link-status query).
    pub fn link_succeeded(&self, handle: u32) -> (ok: bool)
        requires
            self.wf(),
            self@.is_program(handle),
        ensures
            ok == self@.program_linked(handle),
    {
        match self.objects.get(&handle) {
            Some(GlObject::Program { linked, .. }) => *linked,
            _ => false,
        }
    }

    /// The diagnostic text of a live program (models the native info-log
    /// query): empty after a successful link, the model linker's message
    /// otherwise.
    pub fn program_info_log(&self, handle: u32) -> (log: String)
        requires
            self.wf(),
            self@.is_program(handle),
        ensures
            self@.program_linked(handle) ==> log@ == Seq::<char>::empty(),
            !self@.program_linked(handle) ==> log@ == link_failure_log(),
    {
        let linked: bool = match self.objects.get(&handle) {
            Some(GlObject::Program { linked, .. }) => *linked,
            _ => false,
        };
        if linked {
            String::new()
        } else {
            let log = "program linking failed: no shaders are attached".to_string();
            log
        }
    }

    /// Makes a live program (or 0, none) the active one (models the
    /// native program-use call).
    pub fn use_program(&mut self, handle: u32)
        requires
            old(self).wf(),
            handle == 0 || old(self)@.is_program(handle),
        ensures
            final(self).wf(),
            final(self)@ == (GlView { current_program: handle, ..old(self)@ }),
    {
        self.current_program = handle;
        proof {
            assert(final(self)@ =~= (GlView { current_program: handle, ..old(self)@ }));
        }
    }

    /// The currently active program, 0 when none.
    pub fn active_program(&self) -> (h: u32)
        ensures
            h == self@.current_program,
    {
        self.current_program
    }

    /// Deletes a live program.
    pub fn delete_program(&mut self, handle: u32)
        requires
            old(self).wf(),
            old(self)@.is_program(handle),
        ensures
            final(self).wf(),
            final(self)@ == old(self)@.without_object(handle),
    {
        proof {
            lemma_delete_properties(old(self)@, handle);
        }
        self.objects.remove(&handle);
        self.free.push(handle);
        proof {
            assert(final(self)@ =~= old(self)@.without_object(handle));
        }
    }

    /// Allocates a new texture object (models the native
    /// texture-generation call).
    pub fn gen_texture(&mut self) -> (h: u32)
        requires
            old(self).wf(),
            old(self)@.can_allocate(),
        ensures
            final(self).wf(),
            h == old(self)@.alloc_pick(),
            final(self)@ == old(self)@.alloc_rest().with_object(h, GlObject::Texture),
            !old(self)@.objects.contains_key(h),
            final(self)@.is_texture(h),
    {
        proof {
            lemma_alloc_properties(old(self)@);
        }
        let h = self.alloc_handle();
        self.objects.insert(h, GlObject::Texture);
        proof {
            assert(final(self)@ =~= old(self)@.alloc_rest().with_object(h, GlObject::Texture));
        }
        h
    }

    /// Deletes a live texture.
    pub fn delete_texture(&mut self, handle: u32)
        requires
            old(self).wf(),
            old(self)@.is_texture(handle),
        ensures
            final(self).wf(),
            final(self)@ == old(self)@.without_object(handle),
    {
        proof {
            lemma_delete_properties(old(self)@, handle);
        }
        self.objects.remove(&handle);
        self.free.push(handle);
        proof {
            assert(final(self)@ =~= old(self)@.without_object(handle));
        }
    }

    /// Binds a texture (or 0, unbinding) to a texture target (models the
    /// native texture-binding call).
    pub fn bind_texture(&mut self, target_code: u32, handle: u32)
        requires
            old(self).wf(),
            handle == 0 || old(self)@.is_texture(handle),
        ensures
            final(self).wf(),
            final(self)@ == (GlView {
                bound_textures: old(self)@.bound_textures.insert(target_code, handle),
                ..old(self)@
            }),
    {
        self.bound_textures.insert(target_code, handle);
        proof {
            assert(final(self)@ =~= (GlView {
                bound_textures: old(self)@.bound_textures.insert(target_code, handle),
                ..old(self)@
            }));
        }
    }

    /// The texture bound to a target, 0 when none.
    pub fn bound_texture(&self, target_code: u32) -> (h: u32)
        ensures
            h == self@.bound_texture_at(target_code),
    {
        match self.bound_textures.get(&target_code) {
            Some(h) => *h,
            None => 0,
        }
    }

    /// Sets one integer texture parameter (models the native
    /// texture-parameter call); the call is recorded with the raw codes
    /// it received.
    pub fn tex_parameter_i(&mut self, target_code: u32, pname_code: u32, value: i32)
        requires
            old(self).wf(),
        ensures
            final(self).wf(),
            final(self)@ == (GlView {
                tex_param_calls: old(self)@.tex_param_calls.push(
                    TexParamCall { target_code, pname_code, value },
                ),
                ..old(self)@
            }),
    {
        self.tex_param_calls.push(TexParamCall { target_code, pname_code, value });
        proof {
            assert(final(self)@ =~= (GlView {
                tex_param_calls: old(self)@.tex_param_calls.push(
                    TexParamCall { target_code, pname_code, value },
                ),
                ..old(self)@
            }));
        }
    }

    /// How many texture-parameter calls were issued.
    pub fn tex_param_call_count(&self) -> (n: usize)
        ensures
            n == self@.tex_param_calls.len(),
    {
        self.tex_param_calls.len()
    }

    /// The `i`-th texture-parameter call, `None` when out of range.
    pub fn tex_param_call(&self, i: usize) -> (c: Option<TexParamCall>)
        ensures
            match c {
                Some(call) => i < self@.tex_param_calls.len() && call == self@.tex_param_calls[
                    i as int
                ],
                None => i >= self@.tex_param_calls.len(),
            },
    {
        if i < self.tex_param_calls.len() {
            Some(self.tex_param_calls[i])
        } else {
            None
        }
    }

    /// Configures the layout of one vertex-attribute slot (models the
    /// native attribute-pointer call): the given layout replaces the
    /// slot's, while its enable state is untouched.
    pub fn vertex_attrib_pointer(
        &mut self,
        index: u32,
        component_count: usize,
        type_code: u32,
        normalized: bool,
        stride_bytes: usize,
        offset_bytes: usize,
    )
        requires
            old(self).wf(),
        ensures
            final(self).wf(),
            final(self)@ == (GlView {
                attribs: old(self)@.attribs.insert(
                    index,
                    AttribState {
                        component_count,
                        type_code,
                        normalized,
                        stride_bytes,
                        offset_bytes,
                        enabled: old(self)@.attrib_at(index).enabled,
                    },
                ),
                ..old(self)@
            }),
    {
        let enabled: bool = match self.attribs.get(&index) {
            Some(a) => a.enabled,
            None => false,
        };
        self.attribs.insert(
            index,
            AttribState {
                component_count,
                type_code,
                normalized,
                stride_bytes,
                offset_bytes,
                enabled,
            },
        );
        proof {
            assert(final(self)@ =~= (GlView {
                attribs: old(self)@.attribs.insert(
                    index,
                    AttribState {
                        component_count,
                        type_code,
                        normalized,
                        stride_bytes,
                        offset_bytes,
                        enabled: old(self)@.attrib_at(index).enabled,
                    },
                ),
                ..old(self)@
            }));
        }
    }

    /// Enables the attribute array at an index (models the native
    /// enable call); the slot's layout is untouched.
    pub fn enable_vertex_attrib_array(&mut self, index: u32)
        requires
            old(self).wf(),
        ensures
            final(self).wf(),
            final(self)@ == (GlView {
                attribs: old(self)@.attribs.insert(
                    index,
                    AttribState { enabled: true, ..old(self)@.attrib_at(index) },
                ),
                ..old(self)@
            }),
    {
        let cur: AttribState = match self.attribs.get(&index) {
            Some(a) => *a,
            None => AttribState::unset(),
        };
        self.attribs.insert(index, AttribState { enabled: true, ..cur });
        proof {
            assert(final(self)@ =~= (GlView {
                attribs: old(self)@.attribs.insert(
                    index,
                    AttribState { enabled: true, ..old(self)@.attrib_at(index) },
                ),
                ..old(self)@
            }));
        }
    }

    /// Disables the attribute array at an index (models the native
    /// disable call); the slot's layout is untouched.
    pub fn disable_vertex_attrib_array(&mut self, index: u32)
        requires
            old(self).wf(),
        ensures
            final(self).wf(),
            final(self)@ == (GlView {
                attribs: old(self)@.attribs.insert(
                    index,
                    AttribState { enabled: false, ..old(self)@.attrib_at(index) },
                ),
                ..old(self)@
            }),
    {
        let cur: AttribState = match self.attribs.get(&index) {
            Some(a) => *a,
            None => AttribState::unset(),
        };
        self.attribs.insert(index, AttribState { enabled: false, ..cur });
        proof {
            assert(final(self)@ =~= (GlView {
                attribs: old(self)@.attribs.insert(
                    index,
                    AttribState { enabled: false, ..old(self)@.attrib_at(index) },
                ),
                ..old(self)@
            }));
        }
    }

    /// The attribute state at an index, `None` when the index was never
    /// touched (its state is then the native default,
    /// [`AttribState::spec_unset`]).
    pub fn attrib(&self, index: u32) -> (a: Option<AttribState>)
        ensures
            match a {
                Some(state) => self@.attribs.contains_key(index) && state == self@.attribs[index],
                None => !self@.attribs.contains_key(index),
            },
    {
        match self.attribs.get(&index) {
            Some(state) => Some(*state),
            None => None,
        }
    }
}

} // verus!
