//! Checks of the vertex-attribute descriptor: element-counted stride and
//! offset become byte counts scaled by the element size, and the enable
//! toggle touches only the enable flag.

use rustedcraft::AttribState;
use rustedcraft::ElemType;
use rustedcraft::MockGl;
use rustedcraft::VertexAttribPointer;

#[test]
fn float_stride_and_offset_scale_by_four_bytes() {
    let mut gl = MockGl::new();
    let descriptor = VertexAttribPointer::new(&mut gl, ElemType::F32, 0, 3, false, 6, 3);
    assert_eq!(descriptor.index(), 0);
    let state = gl.attrib(0).unwrap();
    assert_eq!(
        state,
        AttribState {
            component_count: 3,
            type_code: gl::FLOAT,
            normalized: false,
            stride_bytes: 24,
            offset_bytes: 12,
            enabled: true,
        }
    );
}

#[test]
fn stride_and_offset_scale_by_element_size_for_every_type() {
    let table = [
        (ElemType::F32, 4),
        (ElemType::F64, 8),
        (ElemType::I32, 4),
        (ElemType::U32, 4),
        (ElemType::I16, 2),
        (ElemType::U16, 2),
        (ElemType::I8, 1),
        (ElemType::U8, 1),
    ];
    for (elem, size) in table {
        let mut gl = MockGl::new();
        VertexAttribPointer::new(&mut gl, elem, 2, 4, true, 5, 7);
        let state = gl.attrib(2).unwrap();
        assert_eq!(state.stride_bytes, 5 * size);
        assert_eq!(state.offset_bytes, 7 * size);
        assert_eq!(state.type_code, elem.gl_code());
        assert_eq!(state.component_count, 4);
        assert!(state.normalized);
        assert!(state.enabled);
    }
}

#[test]
fn enable_and_disable_toggle_only_the_flag() {
    let mut gl = MockGl::new();
    let descriptor = VertexAttribPointer::new(&mut gl, ElemType::I16, 1, 2, false, 8, 4);
    let configured = gl.attrib(1).unwrap();
    assert!(configured.enabled);

    descriptor.disable(&mut gl);
    let disabled = gl.attrib(1).unwrap();
    assert!(!disabled.enabled);
    assert_eq!(AttribState { enabled: true, ..disabled }, configured);

    descriptor.enable(&mut gl);
    assert_eq!(gl.attrib(1).unwrap(), configured);
}

#[test]
fn enabling_an_untouched_slot_keeps_the_native_default_layout() {
    let mut gl = MockGl::new();
    assert!(gl.attrib(9).is_none());
    let descriptor = VertexAttribPointer::new(&mut gl, ElemType::U8, 3, 1, false, 0, 0);
    assert_eq!(descriptor.index(), 3);
    descriptor.disable(&mut gl);
    let state = gl.attrib(3).unwrap();
    assert_eq!(state.stride_bytes, 0);
    assert_eq!(state.offset_bytes, 0);
    assert!(!state.enabled);
}
