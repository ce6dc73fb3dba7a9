use gl_triangle::render_gl::{GlAction, Stage, StatusReport};
use gl_triangle::render_loop::{Event, RenderLoop};
use gl_triangle::resources::Error;
use gl_triangle::session::{BuildCmd, ProgramBuilder};

fn ok_report() -> StatusReport {
    StatusReport { success: true, log: Vec::new() }
}

fn fail_report(log: &[u8]) -> StatusReport {
    StatusReport { success: false, log: log.to_vec() }
}

const VERT_SRC: &[u8] = b"#version 330 core\nlayout (location = 0) in vec3 p;\nvoid main() { gl_Position = vec4(p, 1.0); }\n";
const FRAG_SRC: &[u8] = b"#version 330 core\nout vec4 c;\nvoid main() { c = vec4(1.0, 0.5, 0.2, 1.0); }\n";

#[test]
fn accepted_pair_builds_a_ready_program() {
    let (builder, cmd) = ProgramBuilder::new(b"triangle".to_vec());
    match cmd {
        BuildCmd::ReadFile { name } => assert_eq!(name, b"triangle.vert".to_vec()),
        _ => panic!("expected a read of the vertex source"),
    }

    let (builder, cmd, cleanup) = builder.on_file(Ok(VERT_SRC.to_vec()));
    assert!(cleanup.is_empty());
    match cmd {
        BuildCmd::CompileShader { kind, source } => {
            assert_eq!(kind, Stage::Vertex);
            assert_eq!(source.as_bytes(), &VERT_SRC.to_vec());
        },
        _ => panic!("expected a vertex compile"),
    }

    let (builder, cmd, cleanup) = builder.on_compiled(1, ok_report());
    assert!(cleanup.is_empty());
    match cmd {
        BuildCmd::ReadFile { name } => assert_eq!(name, b"triangle.frag".to_vec()),
        _ => panic!("expected a read of the fragment source"),
    }

    let (builder, cmd, cleanup) = builder.on_file(Ok(FRAG_SRC.to_vec()));
    assert!(cleanup.is_empty());
    match cmd {
        BuildCmd::CompileShader { kind, source } => {
            assert_eq!(kind, Stage::Fragment);
            assert_eq!(source.as_bytes(), &FRAG_SRC.to_vec());
        },
        _ => panic!("expected a fragment compile"),
    }

    let (builder, cmd, cleanup) = builder.on_compiled(2, ok_report());
    assert!(cleanup.is_empty());
    match cmd {
        BuildCmd::LinkShaders { vert_id, frag_id } => {
            assert_eq!(vert_id, 1);
            assert_eq!(frag_id, 2);
        },
        _ => panic!("expected a link"),
    }

    let (builder, cmd, cleanup) = builder.on_linked(5, ok_report());
    assert!(matches!(cmd, BuildCmd::Done));
    assert_eq!(
        cleanup,
        vec![
            GlAction::DetachShader { program: 5, shader: 1 },
            GlAction::DetachShader { program: 5, shader: 2 },
            GlAction::DeleteShader(1),
            GlAction::DeleteShader(2),
        ]
    );

    let program = builder.into_result().unwrap();
    assert_eq!(program.id(), 5);
}

#[test]
fn one_frame_issues_exactly_one_triangle_draw() {
    let (builder, _) = ProgramBuilder::new(b"triangle".to_vec());
    let (builder, _, _) = builder.on_file(Ok(VERT_SRC.to_vec()));
    let (builder, _, _) = builder.on_compiled(1, ok_report());
    let (builder, _, _) = builder.on_file(Ok(FRAG_SRC.to_vec()));
    let (builder, _, _) = builder.on_compiled(2, ok_report());
    let (builder, _, _) = builder.on_linked(5, ok_report());
    let program = builder.into_result().unwrap();

    let render = RenderLoop::new(&program, 3, 3);
    let frame = render.frame_actions();
    assert_eq!(
        frame,
        vec![
            GlAction::Clear,
            GlAction::UseProgram(5),
            GlAction::BindVertexArray(3),
            GlAction::DrawTriangles { first: 0, count: 3 },
            GlAction::SwapWindow,
        ]
    );
    let draws = frame
        .iter()
        .filter(|a| matches!(a, GlAction::DrawTriangles { .. }))
        .count();
    assert_eq!(draws, 1);
}

#[test]
fn quit_event_finishes_the_loop_within_one_iteration() {
    let (builder, _) = ProgramBuilder::new(b"triangle".to_vec());
    let (builder, _, _) = builder.on_file(Ok(VERT_SRC.to_vec()));
    let (builder, _, _) = builder.on_compiled(1, ok_report());
    let (builder, _, _) = builder.on_file(Ok(FRAG_SRC.to_vec()));
    let (builder, _, _) = builder.on_compiled(2, ok_report());
    let (builder, _, _) = builder.on_linked(5, ok_report());
    let program = builder.into_result().unwrap();

    let mut render = RenderLoop::new(&program, 3, 3);
    assert!(!render.is_finished());
    render.handle_events(&vec![Event::Other, Event::Other]);
    assert!(!render.is_finished());
    render.handle_events(&vec![Event::Other, Event::Quit]);
    assert!(render.is_finished());
    render.handle_event(Event::Other);
    assert!(render.is_finished());
}

#[test]
fn failed_vertex_compile_ends_the_build_and_releases_the_object() {
    let (builder, _) = ProgramBuilder::new(b"triangle".to_vec());
    let (builder, _, _) = builder.on_file(Ok(VERT_SRC.to_vec()));
    let (builder, cmd, cleanup) = builder.on_compiled(1, fail_report(b"0:2: '' : syntax error"));
    assert!(matches!(cmd, BuildCmd::Done));
    assert_eq!(cleanup, vec![GlAction::DeleteShader(1)]);
    match builder.into_result() {
        Err(Error::ShaderCompileError { log }) => {
            assert_eq!(log, b"0:2: '' : syntax error".to_vec());
        },
        _ => panic!("expected a compile error"),
    }
}

#[test]
fn failed_fragment_compile_releases_both_shaders() {
    let (builder, _) = ProgramBuilder::new(b"triangle".to_vec());
    let (builder, _, _) = builder.on_file(Ok(VERT_SRC.to_vec()));
    let (builder, _, _) = builder.on_compiled(1, ok_report());
    let (builder, _, _) = builder.on_file(Ok(FRAG_SRC.to_vec()));
    let (builder, cmd, cleanup) = builder.on_compiled(2, fail_report(b"bad"));
    assert!(matches!(cmd, BuildCmd::Done));
    assert_eq!(cleanup, vec![GlAction::DeleteShader(2), GlAction::DeleteShader(1)]);
    assert!(matches!(builder.into_result(), Err(Error::ShaderCompileError { .. })));
}

#[test]
fn failed_link_releases_program_and_shaders() {
    let (builder, _) = ProgramBuilder::new(b"triangle".to_vec());
    let (builder, _, _) = builder.on_file(Ok(VERT_SRC.to_vec()));
    let (builder, _, _) = builder.on_compiled(1, ok_report());
    let (builder, _, _) = builder.on_file(Ok(FRAG_SRC.to_vec()));
    let (builder, _, _) = builder.on_compiled(2, ok_report());
    let (builder, cmd, cleanup) = builder.on_linked(5, fail_report(b"no main"));
    assert!(matches!(cmd, BuildCmd::Done));
    assert_eq!(
        cleanup,
        vec![
            GlAction::DeleteProgram(5),
            GlAction::DeleteShader(1),
            GlAction::DeleteShader(2),
        ]
    );
    match builder.into_result() {
        Err(Error::ProgramLinkError { log }) => assert_eq!(log, b"no main".to_vec()),
        _ => panic!("expected a link error"),
    }
}

#[test]
fn nul_in_source_never_reaches_the_compiler() {
    let (builder, _) = ProgramBuilder::new(b"triangle".to_vec());
    let mut bad = b"void main()".to_vec();
    bad.push(0);
    let (builder, cmd, cleanup) = builder.on_file(Ok(bad));
    assert!(matches!(cmd, BuildCmd::Done));
    assert!(cleanup.is_empty());
    assert!(matches!(builder.into_result(), Err(Error::EmbeddedNulError)));
}

#[test]
fn missing_fragment_file_releases_the_vertex_shader() {
    let (builder, _) = ProgramBuilder::new(b"triangle".to_vec());
    let (builder, _, _) = builder.on_file(Ok(VERT_SRC.to_vec()));
    let (builder, _, _) = builder.on_compiled(1, ok_report());
    let (builder, cmd, cleanup) = builder.on_file(Err(Error::IoError));
    assert!(matches!(cmd, BuildCmd::Done));
    assert_eq!(cleanup, vec![GlAction::DeleteShader(1)]);
    assert!(matches!(builder.into_result(), Err(Error::IoError)));
}

#[test]
fn two_sessions_yield_independent_programs() {
    let mut programs = Vec::new();
    for pid in [5u32, 6u32] {
        let (builder, _) = ProgramBuilder::new(b"triangle".to_vec());
        let (builder, _, _) = builder.on_file(Ok(VERT_SRC.to_vec()));
        let (builder, _, _) = builder.on_compiled(1, ok_report());
        let (builder, _, _) = builder.on_file(Ok(FRAG_SRC.to_vec()));
        let (builder, _, _) = builder.on_compiled(2, ok_report());
        let (builder, _, _) = builder.on_linked(pid, ok_report());
        programs.push(builder.into_result().unwrap());
    }
    let second = programs.pop().unwrap();
    let first = programs.pop().unwrap();
    assert_ne!(first.id(), second.id());
    assert_eq!(first.release(), GlAction::DeleteProgram(5));
    assert_eq!(second.set_used(), GlAction::UseProgram(6));
}
