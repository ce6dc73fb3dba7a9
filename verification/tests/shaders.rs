use gl_triangle::render_gl::{
    create_whitespace_buffer_with_len, shader_file_names, GlAction, Program, Shader, Stage,
    StatusReport,
};
use gl_triangle::resources::Error;

fn ok_report() -> StatusReport {
    StatusReport { success: true, log: Vec::new() }
}

fn fail_report(log: &[u8]) -> StatusReport {
    StatusReport { success: false, log: log.to_vec() }
}

#[test]
fn stage_from_name_recognizes_vert() {
    let s = Stage::from_name(&b"triangle.vert".to_vec()).unwrap();
    assert_eq!(s, Stage::Vertex);
}

#[test]
fn stage_from_name_recognizes_frag() {
    let s = Stage::from_name(&b"triangle.frag".to_vec()).unwrap();
    assert_eq!(s, Stage::Fragment);
}

#[test]
fn unrecognized_extension_is_rejected() {
    let r = Stage::from_name(&b"triangle.glsl".to_vec());
    assert!(matches!(r, Err(Error::UnsupportedExtensionError)));
}

#[test]
fn missing_extension_is_rejected() {
    let r = Stage::from_name(&b"vert".to_vec());
    assert!(matches!(r, Err(Error::UnsupportedExtensionError)));
}

#[test]
fn stage_gl_enums() {
    assert_eq!(Stage::Vertex.gl_enum(), 0x8B31);
    assert_eq!(Stage::Fragment.gl_enum(), 0x8B30);
}

#[test]
fn whitespace_buffer_is_all_spaces() {
    let v = create_whitespace_buffer_with_len(6);
    assert_eq!(v, b"      ".to_vec());
}

#[test]
fn successful_compile_yields_shader_and_no_cleanup() {
    let (res, acts) = Shader::from_source(7, Stage::Vertex, ok_report());
    let shader = res.unwrap();
    assert_eq!(shader.id(), 7);
    assert_eq!(shader.kind(), Stage::Vertex);
    assert!(acts.is_empty());
}

#[test]
fn failed_compile_carries_log_and_releases_object() {
    let (res, acts) = Shader::from_source(7, Stage::Vertex, fail_report(b"0:1: syntax error"));
    match res {
        Err(Error::ShaderCompileError { log }) => {
            assert_eq!(log, b"0:1: syntax error".to_vec());
        },
        _ => panic!("expected a compile error"),
    }
    assert_eq!(acts, vec![GlAction::DeleteShader(7)]);
}

#[test]
fn stage_helpers_tag_their_stage() {
    let (v, _) = Shader::from_vert_source(1, ok_report());
    let (f, _) = Shader::from_frag_source(2, ok_report());
    assert_eq!(v.unwrap().kind(), Stage::Vertex);
    assert_eq!(f.unwrap().kind(), Stage::Fragment);
}

#[test]
fn shader_release_names_its_own_handle() {
    let (res, _) = Shader::from_vert_source(3, ok_report());
    assert_eq!(res.unwrap().release(), GlAction::DeleteShader(3));
}

#[test]
fn attach_actions_cover_every_shader_in_order() {
    let (v, _) = Shader::from_vert_source(3, ok_report());
    let (f, _) = Shader::from_frag_source(4, ok_report());
    let shaders = vec![v.unwrap(), f.unwrap()];
    let acts = Program::attach_actions(9, &shaders);
    assert_eq!(
        acts,
        vec![
            GlAction::AttachShader { program: 9, shader: 3 },
            GlAction::AttachShader { program: 9, shader: 4 },
        ]
    );
}

#[test]
fn successful_link_detaches_every_shader() {
    let (v, _) = Shader::from_vert_source(3, ok_report());
    let (f, _) = Shader::from_frag_source(4, ok_report());
    let shaders = vec![v.unwrap(), f.unwrap()];
    let (res, acts) = Program::from_shaders(9, &shaders, ok_report());
    let program = res.unwrap();
    assert_eq!(program.id(), 9);
    assert_eq!(
        acts,
        vec![
            GlAction::DetachShader { program: 9, shader: 3 },
            GlAction::DetachShader { program: 9, shader: 4 },
        ]
    );
}

#[test]
fn failed_link_carries_log_and_releases_program() {
    let (v, _) = Shader::from_vert_source(3, ok_report());
    let (f, _) = Shader::from_frag_source(4, ok_report());
    let shaders = vec![v.unwrap(), f.unwrap()];
    let (res, acts) = Program::from_shaders(9, &shaders, fail_report(b"link failed"));
    match res {
        Err(Error::ProgramLinkError { log }) => {
            assert_eq!(log, b"link failed".to_vec());
        },
        _ => panic!("expected a link error"),
    }
    assert_eq!(acts, vec![GlAction::DeleteProgram(9)]);
}

#[test]
fn set_used_activates_own_handle() {
    let shaders = Vec::new();
    let (res, _) = Program::from_shaders(9, &shaders, ok_report());
    assert_eq!(res.unwrap().set_used(), GlAction::UseProgram(9));
}

#[test]
fn twice_built_programs_are_independent() {
    let shaders = Vec::new();
    let (first, _) = Program::from_shaders(10, &shaders, ok_report());
    let (second, _) = Program::from_shaders(11, &shaders, ok_report());
    let first = first.unwrap();
    let second = second.unwrap();
    assert_ne!(first.id(), second.id());
    let released = first.release();
    assert_eq!(released, GlAction::DeleteProgram(10));
    assert_ne!(released, GlAction::DeleteProgram(second.id()));
    assert_eq!(second.set_used(), GlAction::UseProgram(11));
}

#[test]
fn shader_file_names_add_stage_suffixes() {
    let (vert, frag) = shader_file_names(&b"triangle".to_vec());
    assert_eq!(vert, b"triangle.vert".to_vec());
    assert_eq!(frag, b"triangle.frag".to_vec());
}
