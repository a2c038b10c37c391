//! The descriptor of one vertex-attribute slot: a configuration command,
//! not a resource owner. Creating one converts element-counted stride and
//! offset into byte counts, pushes the layout into the context's
//! attribute table, and enables the slot; the value keeps only its index,
//! enough to toggle the slot later. It deliberately has no destructor
//! action: the configured layout and enable state outlive it.

use vstd::prelude::*;

use crate::mock_gl::AttribState;
use crate::mock_gl::GlView;
use crate::mock_gl::MockGl;
use crate::types::ElemType;

verus! {

/// Configures one slot of the currently bound vertex array's attribute
/// layout and remembers which index it configured.
pub struct VertexAttribPointer {
    index: u32,
}

impl VertexAttribPointer {
    /// The attribute index this descriptor configured.
    pub closed spec fn index_spec(&self) -> u32 {
        self.index
    }

    /// The byte layout a descriptor with these arguments configures:
    /// stride and offset are element counts, scaled by the element size
    /// of `elem`.
    pub open spec fn spec_configured(
        elem: ElemType,
        size: usize,
        normalized: bool,
        stride: usize,
        pointer: usize,
    ) -> AttribState {
        AttribState {
            component_count: size,
            type_code: elem.spec_gl_code(),
            normalized,
            stride_bytes: (stride * elem.spec_size_bytes()) as usize,
            offset_bytes: (pointer * elem.spec_size_bytes()) as usize,
            enabled: true,
        }
    }

    /// Configures the attribute slot `index`: resolves the native type
    /// code of `elem`, converts `stride` and `pointer` from element
    /// counts to byte counts by multiplying with the element's byte size,
    /// issues the attribute-pointer configuration with those byte values,
    /// and enables the slot.
    ///
    /// A vertex array and a source buffer are expected to be bound; this
    /// layer does not check that (the native API does), mirroring the
    /// global-binding model it wraps.
    pub fn new(
        gl: &mut MockGl,
        elem: ElemType,
        index: u32,
        size: usize,
        normalized: bool,
        stride: usize,
        pointer: usize,
    ) -> (descriptor: VertexAttribPointer)
        requires
            old(gl).wf(),
            stride * elem.spec_size_bytes() <= i32::MAX,
            pointer * elem.spec_size_bytes() <= usize::MAX,
        ensures
            final(gl).wf(),
            descriptor.index_spec() == index,
            final(gl)@ == (GlView {
                attribs: old(gl)@.attribs.insert(
                    index,
                    VertexAttribPointer::spec_configured(elem, size, normalized, stride, pointer),
                ),
                ..old(gl)@
            }),
    {
        let elem_size = elem.size_bytes();
        let stride_bytes = stride * elem_size;
        let offset_bytes = pointer * elem_size;
        let type_code = elem.gl_code();
        gl.vertex_attrib_pointer(index, size, type_code, normalized, stride_bytes, offset_bytes);
        gl.enable_vertex_attrib_array(index);
        proof {
            assert(final(gl)@.attribs =~= old(gl)@.attribs.insert(
                index,
                VertexAttribPointer::spec_configured(elem, size, normalized, stride, pointer),
            ));
            assert(final(gl)@ =~= (GlView {
                attribs: old(gl)@.attribs.insert(
                    index,
                    VertexAttribPointer::spec_configured(elem, size, normalized, stride, pointer),
                ),
                ..old(gl)@
            }));
        }
        VertexAttribPointer { index }
    }

    /// Enables the attribute array at this descriptor's index; the slot's
    /// layout is untouched.
    pub fn enable(&self, gl: &mut MockGl)
        requires
            old(gl).wf(),
        ensures
            final(gl).wf(),
            final(gl)@ == (GlView {
                attribs: old(gl)@.attribs.insert(
                    self.index_spec(),
                    AttribState { enabled: true, ..old(gl)@.attrib_at(self.index_spec()) },
                ),
                ..old(gl)@
            }),
    {
        gl.enable_vertex_attrib_array(self.index);
    }

    /// Disables the attribute array at this descriptor's index; the
    /// slot's layout is untouched.
    pub fn disable(&self, gl: &mut MockGl)
        requires
            old(gl).wf(),
        ensures
            final(gl).wf(),
            final(gl)@ == (GlView {
                attribs: old(gl)@.attribs.insert(
                    self.index_spec(),
                    AttribState { enabled: false, ..old(gl)@.attrib_at(self.index_spec()) },
                ),
                ..old(gl)@
            }),
    {
        gl.disable_vertex_attrib_array(self.index);
    }

    /// Returns the attribute index this descriptor configured.
    pub fn index(&self) -> (index: u32)
        ensures
            index == self.index_spec(),
    {
        self.index
    }
}

} // verus!
