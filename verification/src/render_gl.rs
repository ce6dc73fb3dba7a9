//! Shader and program construction decisions.
//!
//! The graphics driver is an outside, unsafe service: the embedder
//! creates driver objects, submits source, and queries status. Every
//! decision taken on the driver's answers is made here: which stage a
//! resource name denotes, whether a compile or link report yields a
//! usable object or an error, and which driver objects must then be
//! released or detached. Cleanup is expressed as a list of
//! [`GlAction`] values the embedder performs in order, so the
//! release-exactly-once discipline is stated, not implied.

use vstd::prelude::*;

use crate::resources::Error;

verus! {

/// The pipeline stage a shader executes in.
#[derive(Clone, Copy, Debug, PartialEq, Eq, Structural)]
pub enum Stage {
    Vertex,
    Fragment,
}

/// A driver-state command the embedder performs: each names the object
/// it touches, so ownership of handles stays explicit.
#[derive(Clone, Copy, Debug, PartialEq, Eq, Structural)]
pub enum GlAction {
    AttachShader { program: u32, shader: u32 },
    DetachShader { program: u32, shader: u32 },
    DeleteShader(u32),
    DeleteProgram(u32),
    UseProgram(u32),
    Clear,
    BindVertexArray(u32),
    DrawTriangles { first: i32, count: i32 },
    SwapWindow,
}

/// The driver's answer to a status query: the pass/fail flag and the
/// diagnostic log fetched by the two-step length-then-text query
/// (the log may be present but empty).
#[derive(Debug)]
pub struct StatusReport {
    pub success: bool,
    pub log: Vec<u8>,
}

impl Stage {
    /// The driver's numeric tag for this stage.
    pub fn gl_enum(&self) -> (e: u32)
        ensures
            self is Vertex ==> e == 0x8B31u32,
            self is Fragment ==> e == 0x8B30u32,
    {
        match self {
            Stage::Vertex => 0x8B31,
            Stage::Fragment => 0x8B30,
        }
    }

    /// Infers the stage from a resource name's extension, before any
    /// driver object exists: an unrecognized or missing extension is
    /// rejected here, so the driver is never invoked for such a name.
    pub fn from_name(name: &Vec<u8>) -> (r: Result<Stage, Error>)
        ensures
            stage_of_name(name@) matches Some(st) ==> (r matches Ok(k) && k == st),
            stage_of_name(name@) is None ==> (r matches Err(e) && e is UnsupportedExtensionError),
    {
        if has_suffix5(name, 46, 118, 101, 114, 116) {
            Ok(Stage::Vertex)
        } else if has_suffix5(name, 46, 102, 114, 97, 103) {
            Ok(Stage::Fragment)
        } else {
            Err(Error::UnsupportedExtensionError)
        }
    }
}

/// Whether `s` ends with `suf`.
pub open spec fn ends_with(s: Seq<u8>, suf: Seq<u8>) -> bool {
    s.len() >= suf.len() && forall|i: int|
        0 <= i < suf.len() ==> s[s.len() - suf.len() + i] == suf[i]
}

/// The bytes of `.vert`.
pub open spec fn vert_suffix() -> Seq<u8> {
    seq![46u8, 118u8, 101u8, 114u8, 116u8]
}

/// The bytes of `.frag`.
pub open spec fn frag_suffix() -> Seq<u8> {
    seq![46u8, 102u8, 114u8, 97u8, 103u8]
}

/// The stage a resource name denotes: `.vert` names the vertex stage,
/// `.frag` the fragment stage, anything else no stage at all.
pub open spec fn stage_of_name(name: Seq<u8>) -> Option<Stage> {
    if ends_with(name, vert_suffix()) {
        Some(Stage::Vertex)
    } else if ends_with(name, frag_suffix()) {
        Some(Stage::Fragment)
    } else {
        None
    }
}

fn has_suffix5(name: &Vec<u8>, b0: u8, b1: u8, b2: u8, b3: u8, b4: u8) -> (r: bool)
    ensures
        r == ends_with(name@, seq![b0, b1, b2, b3, b4]),
{
    let ghost suf: Seq<u8> = seq![b0, b1, b2, b3, b4];
    let n = name.len();
    if n < 5 {
        return false;
    }
    let r = name[n - 5] == b0 && name[n - 4] == b1 && name[n - 3] == b2 && name[n - 2] == b3
        && name[n - 1] == b4;
    proof {
        assert(suf[0] == b0 && suf[1] == b1 && suf[2] == b2 && suf[3] == b3 && suf[4] == b4);
        if r {
            assert forall|i: int| 0 <= i < suf.len() implies name@[name@.len() - suf.len() + i]
                == suf[i] by {
                if i == 0 {
                } else if i == 1 {
                } else if i == 2 {
                } else if i == 3 {
                } else {
                    assert(i == 4);
                }
            }
        } else {
            if ends_with(name@, suf) {
                assert(name@[name@.len() - 5 + 0] == suf[0]);
                assert(name@[name@.len() - 5 + 1] == suf[1]);
                assert(name@[name@.len() - 5 + 2] == suf[2]);
                assert(name@[name@.len() - 5 + 3] == suf[3]);
                assert(name@[name@.len() - 5 + 4] == suf[4]);
                assert(false);
            }
        }
    }
    r
}

/// Builds the all-spaces buffer the embedder hands to the driver's
/// log-text query after the log-length query.
pub fn create_whitespace_buffer_with_len(len: usize) -> (v: Vec<u8>)
    ensures
        v@.len() == len,
        forall|i: int| 0 <= i < len ==> v@[i] == 32u8,
{
    let mut v: Vec<u8> = Vec::new();
    let mut i: usize = 0;
    while i < len
        invariant
            0 <= i <= len,
            v@.len() == i,
            forall|j: int| 0 <= j < i ==> v@[j] == 32u8,
        decreases len - i,
    {
        v.push(32u8);
        i += 1;
    }
    v
}

/// One compiled shader stage: the driver handle it owns and its stage.
/// A value of this type exists only for a handle whose compile report
/// said success, so a failed compile never reaches a program.
#[derive(Debug)]
pub struct Shader {
    id: u32,
    kind: Stage,
}

/// The driver action that releases a shader's handle.
pub open spec fn shader_release_action(s: Shader) -> GlAction {
    GlAction::DeleteShader(s.id_spec())
}

/// What the compile decision must yield for a compile report on shader
/// object `id` of stage `kind`: on success the shader value, with
/// nothing to clean up; on failure the compile error carrying the
/// driver's log, and the order to release the failed object.
pub open spec fn compile_post(
    id: u32,
    kind: Stage,
    success: bool,
    log: Seq<u8>,
    r: Result<Shader, Error>,
    acts: Seq<GlAction>,
) -> bool {
    &&& success ==> (r matches Ok(s) && s.id_spec() == id && s.kind_spec() == kind && acts
        == Seq::<GlAction>::empty())
    &&& !success ==> ((r matches Err(e) && e matches Error::ShaderCompileError { log: l } && l@
        == log) && acts == seq![GlAction::DeleteShader(id)])
}

impl Shader {
    /// The driver handle, in contracts.
    pub closed spec fn id_spec(&self) -> u32 {
        self.id
    }

    /// The stage, in contracts.
    pub closed spec fn kind_spec(&self) -> Stage {
        self.kind
    }

    /// Decides the outcome of compiling `source` as shader object `id`
    /// of stage `kind`, from the driver's report. The embedder has
    /// already created the object, submitted the source and fetched
    /// the report; this turns the report into either a shader value or
    /// a `ShaderCompileError`, together with the cleanup the embedder
    /// owes the driver.
    pub fn from_source(id: u32, kind: Stage, report: StatusReport) -> (r: (
        Result<Shader, Error>,
        Vec<GlAction>,
    ))
        ensures
            compile_post(id, kind, report.success, report.log@, r.0, r.1@),
    {
        if report.success {
            (Ok(Shader { id, kind }), Vec::new())
        } else {
            let mut acts: Vec<GlAction> = Vec::new();
            acts.push(GlAction::DeleteShader(id));
            assert(acts@ =~= seq![GlAction::DeleteShader(id)]);
            (Err(Error::ShaderCompileError { log: report.log }), acts)
        }
    }

    /// The compile decision for a vertex shader.
    pub fn from_vert_source(id: u32, report: StatusReport) -> (r: (
        Result<Shader, Error>,
        Vec<GlAction>,
    ))
        ensures
            compile_post(id, Stage::Vertex, report.success, report.log@, r.0, r.1@),
    {
        Self::from_source(id, Stage::Vertex, report)
    }

    /// The compile decision for a fragment shader.
    pub fn from_frag_source(id: u32, report: StatusReport) -> (r: (
        Result<Shader, Error>,
        Vec<GlAction>,
    ))
        ensures
            compile_post(id, Stage::Fragment, report.success, report.log@, r.0, r.1@),
    {
        Self::from_source(id, Stage::Fragment, report)
    }

    /// The driver handle.
    pub fn id(&self) -> (r: u32)
        ensures
            r == self.id_spec(),
    {
        self.id
    }

    /// The stage this shader was compiled for.
    pub fn kind(&self) -> (r: Stage)
        ensures
            r == self.kind_spec(),
    {
        self.kind
    }

    /// Gives up the shader, yielding the one release the embedder owes
    /// the driver for it. Consuming `self` makes a second release
    /// unwritable.
    pub fn release(self) -> (a: GlAction)
        ensures
            a == shader_release_action(self),
    {
        GlAction::DeleteShader(self.id)
    }
}

/// One linked shader program: the driver handle it owns. A value of
/// this type exists only for a handle whose link report said success,
/// so only a ready program can ever be activated.
#[derive(Debug)]
pub struct Program {
    id: u32,
}

/// The driver action that releases a program's handle.
pub open spec fn program_release_action(p: Program) -> GlAction {
    GlAction::DeleteProgram(p.id_spec())
}

/// What the link decision must yield for a link report on program
/// object `id` built from `shaders`: on success the program value and
/// the order to detach every shader, each of which stays independently
/// destroyable; on failure the link error carrying the driver's log,
/// and the order to release the unusable program object.
pub open spec fn link_post(
    id: u32,
    shaders: Seq<Shader>,
    success: bool,
    log: Seq<u8>,
    r: Result<Program, Error>,
    acts: Seq<GlAction>,
) -> bool {
    &&& success ==> ((r matches Ok(p) && p.id_spec() == id) && acts.len() == shaders.len()
        && (forall|i: int|
        0 <= i < shaders.len() ==> acts[i] == (GlAction::DetachShader {
            program: id,
            shader: shaders[i].id_spec(),
        })))
    &&& !success ==> ((r matches Err(e) && e matches Error::ProgramLinkError { log: l } && l@
        == log) && acts == seq![GlAction::DeleteProgram(id)])
}

impl Program {
    /// The driver handle, in contracts.
    pub closed spec fn id_spec(&self) -> u32 {
        self.id
    }

    /// The attachments the embedder performs on program object `id`
    /// before asking the driver to link: one per shader, in order.
    pub fn attach_actions(id: u32, shaders: &Vec<Shader>) -> (acts: Vec<GlAction>)
        ensures
            acts@.len() == shaders@.len(),
            forall|i: int|
                0 <= i < shaders@.len() ==> acts@[i] == (GlAction::AttachShader {
                    program: id,
                    shader: shaders@[i].id_spec(),
                }),
    {
        let mut acts: Vec<GlAction> = Vec::new();
        let mut i: usize = 0;
        while i < shaders.len()
            invariant
                0 <= i <= shaders@.len(),
                acts@.len() == i,
                forall|j: int|
                    0 <= j < i ==> acts@[j] == (GlAction::AttachShader {
                        program: id,
                        shader: shaders@[j].id_spec(),
                    }),
            decreases shaders@.len() - i,
        {
            acts.push(GlAction::AttachShader { program: id, shader: shaders[i].id() });
            i += 1;
        }
        acts
    }

    /// Decides the outcome of linking `shaders` into program object
    /// `id`, from the driver's report. On success every shader is
    /// ordered detached — a pipeline-cleanliness step that leaves each
    /// shader independently destroyable without touching the program;
    /// on failure the unusable program object is ordered released, so
    /// no exit path leaks it.
    pub fn from_shaders(id: u32, shaders: &Vec<Shader>, report: StatusReport) -> (r: (
        Result<Program, Error>,
        Vec<GlAction>,
    ))
        ensures
            link_post(id, shaders@, report.success, report.log@, r.0, r.1@),
    {
        if report.success {
            let mut acts: Vec<GlAction> = Vec::new();
            let mut i: usize = 0;
            while i < shaders.len()
                invariant
                    0 <= i <= shaders@.len(),
                    acts@.len() == i,
                    forall|j: int|
                        0 <= j < i ==> acts@[j] == (GlAction::DetachShader {
                            program: id,
                            shader: shaders@[j].id_spec(),
                        }),
                decreases shaders@.len() - i,
            {
                acts.push(GlAction::DetachShader { program: id, shader: shaders[i].id() });
                i += 1;
            }
            (Ok(Program { id }), acts)
        } else {
            let mut acts: Vec<GlAction> = Vec::new();
            acts.push(GlAction::DeleteProgram(id));
            assert(acts@ =~= seq![GlAction::DeleteProgram(id)]);
            (Err(Error::ProgramLinkError { log: report.log }), acts)
        }
    }

    /// The driver handle.
    pub fn id(&self) -> (r: u32)
        ensures
            r == self.id_spec(),
    {
        self.id
    }

    /// Activates this program for subsequent draw calls: the action
    /// names this program's own handle, which linked successfully —
    /// there is no way to activate a failed link.
    pub fn set_used(&self) -> (a: GlAction)
        ensures
            a == GlAction::UseProgram(self.id_spec()),
    {
        GlAction::UseProgram(self.id)
    }

    /// Gives up the program, yielding the one release the embedder
    /// owes the driver for it. Consuming `self` makes a second release
    /// unwritable.
    pub fn release(self) -> (a: GlAction)
        ensures
            a == program_release_action(self),
    {
        GlAction::DeleteProgram(self.id)
    }
}

/// The two file names a program base name stands for: `base.vert` and
/// `base.frag`.
pub fn shader_file_names(base: &Vec<u8>) -> (r: (Vec<u8>, Vec<u8>))
    requires
        base@.len() + 5 <= usize::MAX,
    ensures
        r.0@ == base@ + vert_suffix(),
        r.1@ == base@ + frag_suffix(),
        stage_of_name(r.0@) == Some(Stage::Vertex),
        stage_of_name(r.1@) == Some(Stage::Fragment),
{
    let mut v = base.clone();
    v.push(46);
    v.push(118);
    v.push(101);
    v.push(114);
    v.push(116);
    let mut f = base.clone();
    f.push(46);
    f.push(102);
    f.push(114);
    f.push(97);
    f.push(103);
    proof {
        assert(v@ =~= base@ + vert_suffix());
        assert(f@ =~= base@ + frag_suffix());
        lemma_appended_suffix_names_stage(base@);
    }
    (v, f)
}

/// Law: appending a stage suffix to any base name yields a name that
/// denotes exactly that stage.
pub proof fn lemma_appended_suffix_names_stage(base: Seq<u8>)
    ensures
        stage_of_name(base + vert_suffix()) == Some(Stage::Vertex),
        stage_of_name(base + frag_suffix()) == Some(Stage::Fragment),
{
    let v = base + vert_suffix();
    let f = base + frag_suffix();
    assert forall|i: int| 0 <= i < 5 implies v[v.len() - 5 + i] == vert_suffix()[i] by {
        assert(v[base.len() + i] == vert_suffix()[i]);
    }
    assert(ends_with(v, vert_suffix()));
    assert forall|i: int| 0 <= i < 5 implies f[f.len() - 5 + i] == frag_suffix()[i] by {
        assert(f[base.len() + i] == frag_suffix()[i]);
    }
    assert(f[f.len() - 5 + 1] == frag_suffix()[1]);
    assert(vert_suffix()[1] != frag_suffix()[1]);
    assert(!ends_with(f, vert_suffix()));
    assert(ends_with(f, frag_suffix()));
}

/// Law: when the driver accepts both stages and the link, the whole
/// pipeline yields a ready program on the given program handle, no
/// object is ordered destroyed anywhere along the way, and the only
/// cleanup is the detachment of the two shaders — which therefore stay
/// independently destroyable.
pub proof fn lemma_accepted_pair_yields_ready(
    vid: u32,
    fid: u32,
    pid: u32,
    vlog: Seq<u8>,
    flog: Seq<u8>,
    llog: Seq<u8>,
    vr: Result<Shader, Error>,
    vacts: Seq<GlAction>,
    fr: Result<Shader, Error>,
    facts: Seq<GlAction>,
    shaders: Seq<Shader>,
    pr: Result<Program, Error>,
    pacts: Seq<GlAction>,
)
    requires
        compile_post(vid, Stage::Vertex, true, vlog, vr, vacts),
        compile_post(fid, Stage::Fragment, true, flog, fr, facts),
        vr matches Ok(v) && fr matches Ok(f) && shaders == seq![v, f],
        link_post(pid, shaders, true, llog, pr, pacts),
    ensures
        vr is Ok,
        fr is Ok,
        pr matches Ok(p) && p.id_spec() == pid,
        vacts == Seq::<GlAction>::empty(),
        facts == Seq::<GlAction>::empty(),
        pacts == seq![
            GlAction::DetachShader { program: pid, shader: vid },
            GlAction::DetachShader { program: pid, shader: fid },
        ],
        forall|i: int|
            0 <= i < pacts.len() ==> (pacts[i] !is DeleteShader && pacts[i] !is DeleteProgram),
{
    assert(shaders.len() == 2);
    assert(pacts[0] == (GlAction::DetachShader { program: pid, shader: vid }));
    assert(pacts[1] == (GlAction::DetachShader { program: pid, shader: fid }));
    assert(pacts =~= seq![
        GlAction::DetachShader { program: pid, shader: vid },
        GlAction::DetachShader { program: pid, shader: fid },
    ]);
}

/// Law: programs built on distinct driver handles are independent —
/// each is released by an action that names only its own handle, so
/// destroying one cannot touch the other.
pub proof fn lemma_independent_programs(
    pid1: u32,
    pid2: u32,
    s1: Seq<Shader>,
    s2: Seq<Shader>,
    log1: Seq<u8>,
    log2: Seq<u8>,
    pr1: Result<Program, Error>,
    pacts1: Seq<GlAction>,
    pr2: Result<Program, Error>,
    pacts2: Seq<GlAction>,
)
    requires
        pid1 != pid2,
        link_post(pid1, s1, true, log1, pr1, pacts1),
        link_post(pid2, s2, true, log2, pr2, pacts2),
    ensures
        pr1 matches Ok(a) ==> pr2 matches Ok(b) ==> (a.id_spec() != b.id_spec()
            && program_release_action(a) != program_release_action(b)
            && program_release_action(a) != GlAction::DeleteProgram(b.id_spec())),
{
}

} // verus!
