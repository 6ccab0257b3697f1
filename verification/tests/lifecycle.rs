use render_gl::Error;
use render_gl::Gl;
use render_gl::GlDevice;
use render_gl::Program;
use render_gl::Shader;
use render_gl::ShaderKind;

const VERT_SRC: &str = "void main(){}";
const FRAG_SRC: &str = "void main(){ }";

fn loaded() -> Gl {
    Gl::load_with(|_name: &'static str| 7usize)
}

#[test]
fn minimal_vertex_shader_compiles() {
    let gl = loaded();
    let mut dev = GlDevice::new();
    let shader = Shader::from_source(&gl, &mut dev, VERT_SRC, ShaderKind::Vertex).unwrap();
    assert!(shader.id() != 0);
    assert_eq!(shader.kind(), ShaderKind::Vertex);
    assert!(dev.shader_is_ready_as(shader.id(), ShaderKind::Vertex));
}

#[test]
fn compile_kind_matches_request() {
    let gl = loaded();
    let mut dev = GlDevice::new();
    let f = Shader::from_source(&gl, &mut dev, FRAG_SRC, ShaderKind::Fragment).unwrap();
    assert!(f.id() != 0);
    assert_eq!(f.kind(), ShaderKind::Fragment);
    assert!(!dev.shader_is_ready_as(f.id(), ShaderKind::Vertex));
}

#[test]
fn invalid_syntax_reports_compile_error() {
    let gl = loaded();
    let mut dev = GlDevice::new();
    let r = Shader::from_source(&gl, &mut dev, "invalid syntax", ShaderKind::Vertex);
    match r {
        Err(Error::CompileError { message, .. }) => {
            assert!(!message.is_empty());
        }
        _ => panic!("expected a compile error"),
    }
}

#[test]
fn compile_error_message_equals_device_log() {
    let gl = loaded();
    let mut dev = GlDevice::new();
    let r = Shader::from_source(&gl, &mut dev, "invalid syntax", ShaderKind::Vertex);
    let message = match r {
        Err(Error::CompileError { message, .. }) => message,
        _ => panic!("expected a compile error"),
    };
    // the rejected object is the first the device handed out
    assert!(!dev.compile_status(1));
    assert_eq!(message, dev.shader_info_log(1));
}

#[test]
fn empty_source_is_rejected() {
    let gl = loaded();
    let mut dev = GlDevice::new();
    let r = Shader::from_source(&gl, &mut dev, "", ShaderKind::Fragment);
    assert!(matches!(r, Err(Error::CompileError { .. })));
}

#[test]
fn fresh_identifiers_are_distinct() {
    let gl = loaded();
    let mut dev = GlDevice::new();
    let a = Shader::from_source(&gl, &mut dev, VERT_SRC, ShaderKind::Vertex).unwrap();
    let b = Shader::from_source(&gl, &mut dev, FRAG_SRC, ShaderKind::Fragment).unwrap();
    assert!(a.id() != b.id());
    assert!(a.id() != 0 && b.id() != 0);
}

#[test]
fn vertex_and_fragment_pair_links() {
    let gl = loaded();
    let mut dev = GlDevice::new();
    let v = Shader::from_source(&gl, &mut dev, VERT_SRC, ShaderKind::Vertex).unwrap();
    let f = Shader::from_source(&gl, &mut dev, FRAG_SRC, ShaderKind::Fragment).unwrap();
    let pair = vec![v, f];
    let program = Program::from_shaders(&gl, &mut dev, &pair).unwrap();
    assert!(program.id() != 0);
    assert!(dev.program_is_ready(program.id()));
}

#[test]
fn mismatched_stages_report_link_error() {
    let gl = loaded();
    let mut dev = GlDevice::new();
    let a = Shader::from_source(&gl, &mut dev, VERT_SRC, ShaderKind::Vertex).unwrap();
    let b = Shader::from_source(&gl, &mut dev, VERT_SRC, ShaderKind::Vertex).unwrap();
    let pair = vec![a, b];
    match Program::from_shaders(&gl, &mut dev, &pair) {
        Err(Error::LinkError { message, .. }) => {
            assert!(!message.is_empty());
        }
        _ => panic!("expected a link error"),
    }
}

#[test]
fn single_shader_does_not_link() {
    let gl = loaded();
    let mut dev = GlDevice::new();
    let v = Shader::from_source(&gl, &mut dev, VERT_SRC, ShaderKind::Vertex).unwrap();
    let one = vec![v];
    assert!(matches!(
        Program::from_shaders(&gl, &mut dev, &one),
        Err(Error::LinkError { .. })
    ));
}

#[test]
fn successful_link_detaches_shaders() {
    let gl = loaded();
    let mut dev = GlDevice::new();
    let v = Shader::from_source(&gl, &mut dev, VERT_SRC, ShaderKind::Vertex).unwrap();
    let f = Shader::from_source(&gl, &mut dev, FRAG_SRC, ShaderKind::Fragment).unwrap();
    let pair = vec![v, f];
    let program = Program::from_shaders(&gl, &mut dev, &pair).unwrap();
    assert!(dev.program_attachments(program.id()).is_empty());
}

#[test]
fn failed_link_keeps_attachments() {
    let gl = loaded();
    let mut dev = GlDevice::new();
    let a = Shader::from_source(&gl, &mut dev, VERT_SRC, ShaderKind::Vertex).unwrap();
    let b = Shader::from_source(&gl, &mut dev, VERT_SRC, ShaderKind::Vertex).unwrap();
    let ids = vec![a.id(), b.id()];
    let pair = vec![a, b];
    assert!(Program::from_shaders(&gl, &mut dev, &pair).is_err());
    // the failed program object is the first the device handed out
    assert_eq!(dev.program_attachments(1), ids);
}

#[test]
fn deleting_program_keeps_shaders_valid() {
    let gl = loaded();
    let mut dev = GlDevice::new();
    let v = Shader::from_source(&gl, &mut dev, VERT_SRC, ShaderKind::Vertex).unwrap();
    let f = Shader::from_source(&gl, &mut dev, FRAG_SRC, ShaderKind::Fragment).unwrap();
    let vid = v.id();
    let fid = f.id();
    let pair = vec![v, f];
    let program = Program::from_shaders(&gl, &mut dev, &pair).unwrap();
    program.delete(&mut dev);
    assert!(dev.shader_is_ready_as(vid, ShaderKind::Vertex));
    assert!(dev.shader_is_ready_as(fid, ShaderKind::Fragment));
}

#[test]
fn deleting_shaders_keeps_program_valid() {
    let gl = loaded();
    let mut dev = GlDevice::new();
    let v = Shader::from_source(&gl, &mut dev, VERT_SRC, ShaderKind::Vertex).unwrap();
    let f = Shader::from_source(&gl, &mut dev, FRAG_SRC, ShaderKind::Fragment).unwrap();
    let pair = vec![v, f];
    let program = Program::from_shaders(&gl, &mut dev, &pair).unwrap();
    for s in pair {
        s.delete(&mut dev);
    }
    assert!(dev.program_is_ready(program.id()));
}

#[test]
fn activate_sets_active_program_and_is_idempotent() {
    let gl = loaded();
    let mut dev = GlDevice::new();
    let v = Shader::from_source(&gl, &mut dev, VERT_SRC, ShaderKind::Vertex).unwrap();
    let f = Shader::from_source(&gl, &mut dev, FRAG_SRC, ShaderKind::Fragment).unwrap();
    let pair = vec![v, f];
    let program = Program::from_shaders(&gl, &mut dev, &pair).unwrap();
    assert_eq!(dev.active_program(), 0);
    program.set_used(&mut dev);
    assert_eq!(dev.active_program(), program.id());
    program.set_used(&mut dev);
    assert_eq!(dev.active_program(), program.id());
}

#[test]
fn minimal_pair_links_activates_and_draws() {
    let gl = loaded();
    let mut dev = GlDevice::new();
    let v = Shader::from_source(&gl, &mut dev, "void main(){}", ShaderKind::Vertex).unwrap();
    let f = Shader::from_source(&gl, &mut dev, FRAG_SRC, ShaderKind::Fragment).unwrap();
    let pair = vec![v, f];
    let program = Program::from_shaders(&gl, &mut dev, &pair).unwrap();
    assert!(!dev.draw_arrays(0, 3));
    program.set_used(&mut dev);
    assert!(dev.draw_arrays(0, 3));
}

#[test]
fn deleting_shader_releases_its_object() {
    let gl = loaded();
    let mut dev = GlDevice::new();
    let v = Shader::from_source(&gl, &mut dev, VERT_SRC, ShaderKind::Vertex).unwrap();
    let id = v.id();
    assert!(dev.shader_is_ready_as(id, ShaderKind::Vertex));
    v.delete(&mut dev);
    assert!(!dev.shader_is_ready_as(id, ShaderKind::Vertex));
}
