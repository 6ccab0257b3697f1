use render_gl::Error;
use render_gl::Gl;
use render_gl::GlDevice;
use render_gl::Program;
use render_gl::Resources;
use render_gl::Shader;
use render_gl::ShaderKind;
use render_gl::resources::ResourceError;

const VERT_SRC: &str = "void main(){}";
const FRAG_SRC: &str = "void main(){ }";

fn loaded() -> Gl {
    Gl::load_with(|_name: &'static str| 3usize)
}

fn triangle_store() -> Resources {
    let mut res = Resources::new();
    res.insert("shaders/triangle.vert", VERT_SRC);
    res.insert("shaders/triangle.frag", FRAG_SRC);
    res
}

#[test]
fn vert_suffix_selects_vertex_kind() {
    let gl = loaded();
    let mut dev = GlDevice::new();
    let res = triangle_store();
    let s = Shader::from_res(&gl, &mut dev, &res, "shaders/triangle.vert").unwrap();
    assert_eq!(s.kind(), ShaderKind::Vertex);
}

#[test]
fn frag_suffix_selects_fragment_kind() {
    let gl = loaded();
    let mut dev = GlDevice::new();
    let res = triangle_store();
    let s = Shader::from_res(&gl, &mut dev, &res, "shaders/triangle.frag").unwrap();
    assert_eq!(s.kind(), ShaderKind::Fragment);
}

#[test]
fn other_suffix_is_rejected() {
    let gl = loaded();
    let mut dev = GlDevice::new();
    let mut res = triangle_store();
    res.insert("shaders/triangle.glsl", VERT_SRC);
    match Shader::from_res(&gl, &mut dev, &res, "shaders/triangle.glsl") {
        Err(Error::CanNotDetermineShaderTypeForResource { name }) => {
            assert_eq!(name, "shaders/triangle.glsl");
        }
        _ => panic!("expected an unknown-kind error"),
    }
}

#[test]
fn missing_resource_is_wrapped() {
    let gl = loaded();
    let mut dev = GlDevice::new();
    let res = Resources::new();
    match Shader::from_res(&gl, &mut dev, &res, "absent.vert") {
        Err(Error::ResourceLoad { name, inner }) => {
            assert_eq!(name, "absent.vert");
            let ResourceError::NotFound { name: missing } = inner;
            assert_eq!(missing, "absent.vert");
        }
        _ => panic!("expected a resource-load error"),
    }
}

#[test]
fn bad_resource_text_reports_compile_error() {
    let gl = loaded();
    let mut dev = GlDevice::new();
    let mut res = Resources::new();
    res.insert("broken.vert", "invalid syntax");
    assert!(matches!(
        Shader::from_res(&gl, &mut dev, &res, "broken.vert"),
        Err(Error::CompileError { .. })
    ));
}

#[test]
fn load_text_finds_stored_text() {
    let res = triangle_store();
    assert_eq!(res.load_text("shaders/triangle.vert").unwrap(), VERT_SRC);
    assert_eq!(res.load_text("shaders/triangle.frag").unwrap(), FRAG_SRC);
}

#[test]
fn load_text_reports_missing_name() {
    let res = triangle_store();
    match res.load_text("shaders/quad.vert") {
        Err(ResourceError::NotFound { name }) => assert_eq!(name, "shaders/quad.vert"),
        _ => panic!("expected a not-found error"),
    }
}

#[test]
fn load_text_returns_first_match() {
    let mut res = Resources::new();
    res.insert("a.vert", "first");
    res.insert("a.vert", "second");
    assert_eq!(res.load_text("a.vert").unwrap(), "first");
}

#[test]
fn program_from_res_builds_ready_program() {
    let gl = loaded();
    let mut dev = GlDevice::new();
    let res = triangle_store();
    let program = Program::from_res(&gl, &mut dev, &res, "shaders/triangle").unwrap();
    assert!(program.id() != 0);
    assert!(dev.program_is_ready(program.id()));
    program.set_used(&mut dev);
    assert_eq!(dev.active_program(), program.id());
}

#[test]
fn program_from_res_releases_its_shaders() {
    let gl = loaded();
    let mut dev = GlDevice::new();
    let res = triangle_store();
    let _program = Program::from_res(&gl, &mut dev, &res, "shaders/triangle").unwrap();
    assert!(!dev.shader_is_ready_as(1, ShaderKind::Vertex));
    assert!(!dev.shader_is_ready_as(2, ShaderKind::Fragment));
}

#[test]
fn program_from_res_propagates_missing_fragment() {
    let gl = loaded();
    let mut dev = GlDevice::new();
    let mut res = Resources::new();
    res.insert("shaders/triangle.vert", VERT_SRC);
    match Program::from_res(&gl, &mut dev, &res, "shaders/triangle") {
        Err(Error::ResourceLoad { name, .. }) => {
            assert_eq!(name, "shaders/triangle.frag");
        }
        _ => panic!("expected a resource-load error"),
    }
}

#[test]
fn program_from_res_keeps_only_failed_fragment_behind() {
    let gl = loaded();
    let mut dev = GlDevice::new();
    let mut res = Resources::new();
    res.insert("shaders/triangle.vert", VERT_SRC);
    res.insert("shaders/triangle.frag", "invalid syntax");
    assert!(matches!(
        Program::from_res(&gl, &mut dev, &res, "shaders/triangle"),
        Err(Error::CompileError { .. })
    ));
    // the compiled vertex shader was released again; only the rejected
    // fragment object stays behind, for its log
    assert!(!dev.shader_is_ready_as(1, ShaderKind::Vertex));
    assert!(!dev.compile_status(2));
    assert!(!dev.shader_info_log(2).is_empty());
}

#[test]
fn program_from_res_propagates_first_compile_error() {
    let gl = loaded();
    let mut dev = GlDevice::new();
    let mut res = Resources::new();
    res.insert("shaders/triangle.vert", "nope");
    res.insert("shaders/triangle.frag", FRAG_SRC);
    match Program::from_res(&gl, &mut dev, &res, "shaders/triangle") {
        Err(Error::CompileError { message, .. }) => {
            assert!(!message.is_empty());
        }
        _ => panic!("expected a compile error"),
    }
}
