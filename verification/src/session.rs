//! The whole pair build as one session: load `.vert`, compile, load
//! `.frag`, compile, link.
//!
//! The embedder performs each [`BuildCmd`] the session emits — a file
//! read or a driver round-trip — and feeds the outcome back; every
//! decision between two commands is made and proved here. The session
//! walks pending → compiling → linking → ready or failed; a failure is
//! terminal (no method accepts a failed session but [`ProgramBuilder::into_result`],
//! so a failed build can never reach linking or activation), and every
//! transition names the cleanup the embedder then owes the driver, so
//! no driver object outlives its usefulness on any path.

use vstd::prelude::*;

use crate::render_gl::{
    frag_suffix, shader_file_names, vert_suffix, GlAction, Program, Shader, Stage, StatusReport,
};
use crate::resources::{has_nul, Error, SourceText};

verus! {

/// What the embedder is asked to do next.
pub enum BuildCmd {
    /// Read the named file and answer with its bytes, or with the
    /// read failure.
    ReadFile { name: Vec<u8> },
    /// Create a shader object of `kind`, submit `source`
    /// nul-terminated, compile, and answer with the driver-issued
    /// handle and the status report.
    CompileShader { kind: Stage, source: SourceText },
    /// Create a program object, attach the two shaders, link, and
    /// answer with the program handle and the status report.
    LinkShaders { vert_id: u32, frag_id: u32 },
    /// Nothing further: the session is ready or failed.
    Done,
}

/// Where the session stands.
pub enum BuildState {
    /// Awaiting the vertex source file.
    VertPending,
    /// Awaiting the vertex compile outcome.
    VertCompiling,
    /// Vertex stage compiled; awaiting the fragment source file.
    FragPending { vert: Shader },
    /// Awaiting the fragment compile outcome.
    FragCompiling { vert: Shader },
    /// Both stages compiled; awaiting the link outcome.
    Linking { vert: Shader, frag: Shader },
    /// The program linked; terminal but for taking the program.
    Ready { program: Program },
    /// The build failed; terminal.
    Failed { error: Error },
}

/// Whether a load outcome ends the build: a read failure, or bytes a
/// compiler must never see because they hold a nul.
pub open spec fn failing_load(loaded: Result<Vec<u8>, Error>) -> bool {
    match loaded {
        Ok(bytes) => has_nul(bytes@),
        Err(_) => true,
    }
}

/// A build session for the resource pair `base.vert` / `base.frag`.
pub struct ProgramBuilder {
    base: Vec<u8>,
    frag_name: Vec<u8>,
    state: BuildState,
}

impl ProgramBuilder {
    /// The base resource name, in contracts.
    pub closed spec fn base_spec(&self) -> Seq<u8> {
        self.base@
    }

    /// The session's position, in contracts.
    pub closed spec fn state_spec(&self) -> BuildState {
        self.state
    }

    /// The session's bookkeeping is coherent; established by [`Self::new`]
    /// and preserved by every step.
    pub closed spec fn wf(&self) -> bool {
        self.frag_name@ == self.base@ + frag_suffix()
    }

    /// Opens a session: the first step is reading the vertex source.
    pub fn new(base: Vec<u8>) -> (r: (ProgramBuilder, BuildCmd))
        requires
            base@.len() + 5 <= usize::MAX,
        ensures
            r.0.wf(),
            r.0.base_spec() == base@,
            r.0.state_spec() is VertPending,
            r.1 matches BuildCmd::ReadFile { name } && name@ == base@ + vert_suffix(),
    {
        let names = shader_file_names(&base);
        (
            ProgramBuilder { base, frag_name: names.1, state: BuildState::VertPending },
            BuildCmd::ReadFile { name: names.0 },
        )
    }

    /// Absorbs a file read's outcome. Acceptable bytes — no embedded
    /// nul — go to the driver as the pending stage's source; a read
    /// failure or a nul byte ends the session with the file never
    /// handed to the compiler, and releases the vertex shader if one
    /// was already compiled.
    pub fn on_file(self, loaded: Result<Vec<u8>, Error>) -> (r: (
        ProgramBuilder,
        BuildCmd,
        Vec<GlAction>,
    ))
        requires
            self.wf(),
            self.state_spec() is VertPending || self.state_spec() matches BuildState::FragPending {
                ..
            },
        ensures
            r.0.wf(),
            r.0.base_spec() == self.base_spec(),
            loaded matches Ok(bytes) ==> (!has_nul(bytes@) ==> ({
                &&& r.1 matches BuildCmd::CompileShader { kind, source } && source@ == bytes@ && (
                self.state_spec() is VertPending ==> kind == Stage::Vertex) && (
                self.state_spec() matches BuildState::FragPending { .. } ==> kind
                    == Stage::Fragment)
                &&& self.state_spec() is VertPending ==> r.0.state_spec() is VertCompiling
                &&& (self.state_spec() matches BuildState::FragPending { vert }
                    ==> r.0.state_spec() matches BuildState::FragCompiling { vert: v2 } && v2
                    == vert)
                &&& r.2@ == Seq::<GlAction>::empty()
            })),
            loaded matches Ok(bytes) ==> (has_nul(bytes@) ==> ({
                &&& r.0.state_spec() matches BuildState::Failed { error } && error
                    is EmbeddedNulError
                &&& r.1 is Done
            })),
            loaded matches Err(e) ==> ({
                &&& r.0.state_spec() matches BuildState::Failed { error } && error == e
                &&& r.1 is Done
            }),
            failing_load(loaded) && self.state_spec() is VertPending ==> r.2@
                == Seq::<GlAction>::empty(),
            self.state_spec() matches BuildState::FragPending { vert } ==> (failing_load(loaded)
                ==> r.2@ == seq![GlAction::DeleteShader(vert.id_spec())]),
    {
        let ProgramBuilder { base, frag_name, state } = self;
        match loaded {
            Ok(bytes) => {
                match SourceText::from_bytes(bytes) {
                    Ok(source) => {
                        match state {
                            BuildState::VertPending => (
                                ProgramBuilder {
                                    base,
                                    frag_name,
                                    state: BuildState::VertCompiling,
                                },
                                BuildCmd::CompileShader { kind: Stage::Vertex, source },
                                Vec::new(),
                            ),
                            BuildState::FragPending { vert } => (
                                ProgramBuilder {
                                    base,
                                    frag_name,
                                    state: BuildState::FragCompiling { vert },
                                },
                                BuildCmd::CompileShader { kind: Stage::Fragment, source },
                                Vec::new(),
                            ),
                            _ => vstd::pervasive::unreached(),
                        }
                    },
                    Err(error) => Self::fail(base, frag_name, state, error),
                }
            },
            Err(error) => Self::fail(base, frag_name, state, error),
        }
    }

    /// Ends the session with `error`, releasing the vertex shader if
    /// one was already compiled.
    fn fail(base: Vec<u8>, frag_name: Vec<u8>, state: BuildState, error: Error) -> (r: (
        ProgramBuilder,
        BuildCmd,
        Vec<GlAction>,
    ))
        requires
            frag_name@ == base@ + frag_suffix(),
            state is VertPending || state matches BuildState::FragPending { .. },
        ensures
            r.0.wf(),
            r.0.base_spec() == base@,
            r.0.state_spec() matches BuildState::Failed { error: e2 } && e2 == error,
            r.1 is Done,
            state is VertPending ==> r.2@ == Seq::<GlAction>::empty(),
            state matches BuildState::FragPending { vert } ==> r.2@ == seq![
                GlAction::DeleteShader(vert.id_spec()),
            ],
    {
        let mut cleanup: Vec<GlAction> = Vec::new();
        match state {
            BuildState::FragPending { vert } => {
                let ghost vid = vert.id_spec();
                cleanup.push(vert.release());
                assert(cleanup@ =~= seq![GlAction::DeleteShader(vid)]);
            },
            _ => (),
        }
        (
            ProgramBuilder { base, frag_name, state: BuildState::Failed { error } },
            BuildCmd::Done,
            cleanup,
        )
    }

    /// Absorbs a compile outcome for the driver-issued handle `id`.
    /// Success keeps the shader and moves on — to reading the fragment
    /// source, or to linking; failure ends the session with the
    /// driver's log and releases the failed object, and the vertex
    /// shader too if it was already compiled, so neither leaks.
    pub fn on_compiled(self, id: u32, report: StatusReport) -> (r: (
        ProgramBuilder,
        BuildCmd,
        Vec<GlAction>,
    ))
        requires
            self.wf(),
            self.state_spec() is VertCompiling || self.state_spec()
                matches BuildState::FragCompiling { .. },
        ensures
            r.0.wf(),
            r.0.base_spec() == self.base_spec(),
            (self.state_spec() is VertCompiling && report.success) ==> ({
                &&& r.0.state_spec() matches BuildState::FragPending { vert } && vert.id_spec()
                    == id && vert.kind_spec() == Stage::Vertex
                &&& r.1 matches BuildCmd::ReadFile { name } && name@ == self.base_spec()
                    + frag_suffix()
                &&& r.2@ == Seq::<GlAction>::empty()
            }),
            self.state_spec() matches BuildState::FragCompiling { vert } ==> (report.success
                ==> ({
                &&& r.0.state_spec() matches BuildState::Linking { vert: v2, frag } && v2 == vert
                    && frag.id_spec() == id && frag.kind_spec() == Stage::Fragment
                &&& r.1 matches BuildCmd::LinkShaders { vert_id, frag_id } && vert_id
                    == vert.id_spec() && frag_id == id
                &&& r.2@ == Seq::<GlAction>::empty()
            })),
            (self.state_spec() is VertCompiling && !report.success) ==> ({
                &&& r.0.state_spec() matches BuildState::Failed { error } && error
                    matches Error::ShaderCompileError { log } && log@ == report.log@
                &&& r.1 is Done
                &&& r.2@ == seq![GlAction::DeleteShader(id)]
            }),
            self.state_spec() matches BuildState::FragCompiling { vert } ==> (!report.success
                ==> ({
                &&& r.0.state_spec() matches BuildState::Failed { error } && error
                    matches Error::ShaderCompileError { log } && log@ == report.log@
                &&& r.1 is Done
                &&& r.2@ == seq![
                    GlAction::DeleteShader(id),
                    GlAction::DeleteShader(vert.id_spec()),
                ]
            })),
    {
        let ProgramBuilder { base, frag_name, state } = self;
        match state {
            BuildState::VertCompiling => {
                let (res, acts) = Shader::from_vert_source(id, report);
                match res {
                    Ok(vert) => {
                        let name = frag_name.clone();
                        (
                            ProgramBuilder {
                                base,
                                frag_name,
                                state: BuildState::FragPending { vert },
                            },
                            BuildCmd::ReadFile { name },
                            acts,
                        )
                    },
                    Err(error) => (
                        ProgramBuilder { base, frag_name, state: BuildState::Failed { error } },
                        BuildCmd::Done,
                        acts,
                    ),
                }
            },
            BuildState::FragCompiling { vert } => {
                let (res, mut acts) = Shader::from_frag_source(id, report);
                match res {
                    Ok(frag) => {
                        let vert_id = vert.id();
                        (
                            ProgramBuilder {
                                base,
                                frag_name,
                                state: BuildState::Linking { vert, frag },
                            },
                            BuildCmd::LinkShaders { vert_id, frag_id: id },
                            acts,
                        )
                    },
                    Err(error) => {
                        let ghost vid = vert.id_spec();
                        acts.push(vert.release());
                        assert(acts@ =~= seq![
                            GlAction::DeleteShader(id),
                            GlAction::DeleteShader(vid),
                        ]);
                        (
                            ProgramBuilder {
                                base,
                                frag_name,
                                state: BuildState::Failed { error },
                            },
                            BuildCmd::Done,
                            acts,
                        )
                    },
                }
            },
            _ => vstd::pervasive::unreached(),
        }
    }

    /// Absorbs the link outcome for the driver-issued program handle
    /// `id`. Success yields the ready session and orders both shaders
    /// detached — the pipeline-cleanliness step — and then released,
    /// since the session no longer needs them; failure ends the
    /// session with the driver's log and orders the unusable program
    /// object and both shaders released. Either way nothing leaks.
    pub fn on_linked(self, id: u32, report: StatusReport) -> (r: (
        ProgramBuilder,
        BuildCmd,
        Vec<GlAction>,
    ))
        requires
            self.wf(),
            self.state_spec() matches BuildState::Linking { .. },
        ensures
            r.0.wf(),
            r.0.base_spec() == self.base_spec(),
            r.1 is Done,
            self.state_spec() matches BuildState::Linking { vert, frag } ==> (report.success
                ==> ({
                &&& r.0.state_spec() matches BuildState::Ready { program } && program.id_spec()
                    == id
                &&& r.2@ == seq![
                    GlAction::DetachShader { program: id, shader: vert.id_spec() },
                    GlAction::DetachShader { program: id, shader: frag.id_spec() },
                    GlAction::DeleteShader(vert.id_spec()),
                    GlAction::DeleteShader(frag.id_spec()),
                ]
            })),
            self.state_spec() matches BuildState::Linking { vert, frag } ==> (!report.success
                ==> ({
                &&& r.0.state_spec() matches BuildState::Failed { error } && error
                    matches Error::ProgramLinkError { log } && log@ == report.log@
                &&& r.2@ == seq![
                    GlAction::DeleteProgram(id),
                    GlAction::DeleteShader(vert.id_spec()),
                    GlAction::DeleteShader(frag.id_spec()),
                ]
            })),
    {
        let ProgramBuilder { base, frag_name, state } = self;
        match state {
            BuildState::Linking { vert, frag } => {
                let vid = vert.id();
                let fid = frag.id();
                let mut shaders: Vec<Shader> = Vec::new();
                shaders.push(vert);
                shaders.push(frag);
                let (res, mut acts) = Program::from_shaders(id, &shaders, report);
                match res {
                    Ok(program) => {
                        assert(acts@ =~= seq![
                            GlAction::DetachShader { program: id, shader: vid },
                            GlAction::DetachShader { program: id, shader: fid },
                        ]);
                        acts.push(GlAction::DeleteShader(vid));
                        acts.push(GlAction::DeleteShader(fid));
                        assert(acts@ =~= seq![
                            GlAction::DetachShader { program: id, shader: vid },
                            GlAction::DetachShader { program: id, shader: fid },
                            GlAction::DeleteShader(vid),
                            GlAction::DeleteShader(fid),
                        ]);
                        (
                            ProgramBuilder { base, frag_name, state: BuildState::Ready { program } },
                            BuildCmd::Done,
                            acts,
                        )
                    },
                    Err(error) => {
                        acts.push(GlAction::DeleteShader(vid));
                        acts.push(GlAction::DeleteShader(fid));
                        assert(acts@ =~= seq![
                            GlAction::DeleteProgram(id),
                            GlAction::DeleteShader(vid),
                            GlAction::DeleteShader(fid),
                        ]);
                        (
                            ProgramBuilder {
                                base,
                                frag_name,
                                state: BuildState::Failed { error },
                            },
                            BuildCmd::Done,
                            acts,
                        )
                    },
                }
            },
            _ => vstd::pervasive::unreached(),
        }
    }

    /// Closes a finished session: the ready program, or the error that
    /// ended the build.
    pub fn into_result(self) -> (r: Result<Program, Error>)
        requires
            self.state_spec() matches BuildState::Ready { .. } || self.state_spec()
                matches BuildState::Failed { .. },
        ensures
            self.state_spec() matches BuildState::Ready { program } ==> (r matches Ok(p) && p
                == program),
            self.state_spec() matches BuildState::Failed { error } ==> (r matches Err(e) && e
                == error),
    {
        match self.state {
            BuildState::Ready { program } => Ok(program),
            BuildState::Failed { error } => Err(error),
            _ => vstd::pervasive::unreached(),
        }
    }
}

} // verus!
