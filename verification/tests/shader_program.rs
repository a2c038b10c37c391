//! Compile and link behaviour of the model context: rejected compiles
//! return a non-empty diagnostic and leak nothing, accepted compiles
//! return a live shader; linking fails with a diagnostic when nothing is
//! attached and succeeds for an attached vertex+fragment pair.

use rustedcraft::GlObject;
use rustedcraft::MockGl;
use rustedcraft::Program;
use rustedcraft::Shader;
use rustedcraft::ShaderType;

const VERTEX_SRC: &str = "void main() { gl_Position = vec4(0.0); }";
const FRAGMENT_SRC: &str = "void main() {}";

#[test]
fn empty_source_is_rejected_with_a_nonempty_log() {
    let mut gl = MockGl::new();
    let result = Shader::from_source(&mut gl, "", ShaderType::Vertex);
    match result {
        Ok(_) => panic!("an empty source must not compile"),
        Err(log) => assert!(!log.is_empty()),
    }
    // The object created during the failed attempt was deleted again.
    assert_eq!(gl.live_count(), 0);
}

#[test]
fn valid_source_compiles_to_a_live_shader() {
    let mut gl = MockGl::new();
    let shader = Shader::from_source(&mut gl, VERTEX_SRC, ShaderType::Vertex).unwrap();
    match gl.lookup_object(shader.id()) {
        Some(GlObject::Shader { stage_code, source_nonempty, compiled_ok }) => {
            assert_eq!(stage_code, gl::VERTEX_SHADER);
            assert!(source_nonempty);
            assert!(compiled_ok);
        },
        other => panic!("expected a live shader, found {:?}", other),
    }
    shader.delete(&mut gl);
}

#[test]
fn failed_compile_does_not_leak_the_handle() {
    let mut gl = MockGl::new();
    let probe = Program::new(&mut gl);
    let next = probe.id() + 1;
    let result = Shader::from_source(&mut gl, "", ShaderType::Fragment);
    assert!(result.is_err());
    // The handle the failed attempt used is handed out again at once.
    let shader = Shader::from_source(&mut gl, FRAGMENT_SRC, ShaderType::Fragment).unwrap();
    assert_eq!(shader.id(), next);
    shader.delete(&mut gl);
    probe.delete(&mut gl);
}

#[test]
fn linking_without_shaders_fails_with_a_nonempty_log() {
    let mut gl = MockGl::new();
    let program = Program::new(&mut gl);
    match program.link(&mut gl) {
        Ok(()) => panic!("a program with nothing attached must not link"),
        Err(log) => assert!(!log.is_empty()),
    }
    match gl.lookup_object(program.id()) {
        Some(GlObject::Program { attached_count, linked }) => {
            assert_eq!(attached_count, 0);
            assert!(!linked);
        },
        other => panic!("expected a live program, found {:?}", other),
    }
    program.delete(&mut gl);
}

#[test]
fn linking_a_vertex_fragment_pair_succeeds() {
    let mut gl = MockGl::new();
    let vertex = Shader::from_source(&mut gl, VERTEX_SRC, ShaderType::Vertex).unwrap();
    let fragment = Shader::from_source(&mut gl, FRAGMENT_SRC, ShaderType::Fragment).unwrap();
    let program = Program::new(&mut gl);
    program.attach_shader(&mut gl, &vertex);
    program.attach_shader(&mut gl, &fragment);
    assert!(program.link(&mut gl).is_ok());
    match gl.lookup_object(program.id()) {
        Some(GlObject::Program { attached_count, linked }) => {
            assert_eq!(attached_count, 2);
            assert!(linked);
        },
        other => panic!("expected a live program, found {:?}", other),
    }
    program.use_program(&mut gl);
    assert_eq!(gl.active_program(), program.id());
    // Attached shaders are independently owned: deleting the program
    // leaves them live.
    program.delete(&mut gl);
    assert!(gl.lookup_object(vertex.id()).is_some());
    assert!(gl.lookup_object(fragment.id()).is_some());
    vertex.delete(&mut gl);
    fragment.delete(&mut gl);
    assert_eq!(gl.live_count(), 0);
}
