//! The per-frame render loop as a state machine.
//!
//! The embedder owns the window and the event pump; this module owns
//! every decision the loop takes: when to stop, and what the driver is
//! told each frame. A frame is a fixed plan of actions — clear,
//! activate the program, bind the vertex array, draw, present — and
//! the loop hands the embedder that plan only while it is running.

use vstd::prelude::*;

use crate::render_gl::{GlAction, Program};

verus! {

/// A windowing event, as far as this loop cares: a request to quit,
/// or anything else.
#[derive(Clone, Copy, Debug, PartialEq, Eq, Structural)]
pub enum Event {
    Quit,
    Other,
}

/// Whether a polled batch of events contains a quit request.
pub open spec fn has_quit(evs: Seq<Event>) -> bool {
    exists|i: int| 0 <= i < evs.len() && evs[i] is Quit
}

/// The fixed plan of one frame: clear, activate `pid`, bind `vao`,
/// draw `count` vertices as triangles from index 0, present.
pub open spec fn frame_plan(pid: u32, vao: u32, count: i32) -> Seq<GlAction> {
    seq![
        GlAction::Clear,
        GlAction::UseProgram(pid),
        GlAction::BindVertexArray(vao),
        GlAction::DrawTriangles { first: 0, count: count },
        GlAction::SwapWindow,
    ]
}

/// The render loop's state: which program and vertex array it draws
/// with, how many vertices, and whether a quit has been seen.
#[derive(Debug)]
pub struct RenderLoop {
    program_id: u32,
    vao: u32,
    vertex_count: i32,
    finished: bool,
}

impl RenderLoop {
    /// The activated program's handle, in contracts.
    pub closed spec fn program_id_spec(&self) -> u32 {
        self.program_id
    }

    /// The bound vertex array's handle, in contracts.
    pub closed spec fn vao_spec(&self) -> u32 {
        self.vao
    }

    /// The per-frame vertex count, in contracts.
    pub closed spec fn vertex_count_spec(&self) -> i32 {
        self.vertex_count
    }

    /// Whether the loop has seen a quit request, in contracts.
    pub closed spec fn finished_spec(&self) -> bool {
        self.finished
    }

    /// A loop over a linked program: only a `Program` — a handle whose
    /// link succeeded — can be drawn with.
    pub fn new(program: &Program, vao: u32, vertex_count: i32) -> (r: RenderLoop)
        requires
            vertex_count >= 0,
        ensures
            r.program_id_spec() == program.id_spec(),
            r.vao_spec() == vao,
            r.vertex_count_spec() == vertex_count,
            !r.finished_spec(),
    {
        RenderLoop { program_id: program.id(), vao, vertex_count, finished: false }
    }

    /// Absorbs one event: a quit request finishes the loop, for good —
    /// nothing ever resumes a finished loop; any other event changes
    /// nothing.
    pub fn handle_event(&mut self, ev: Event)
        ensures
            final(self).finished_spec() == (old(self).finished_spec() || ev is Quit),
            final(self).program_id_spec() == old(self).program_id_spec(),
            final(self).vao_spec() == old(self).vao_spec(),
            final(self).vertex_count_spec() == old(self).vertex_count_spec(),
    {
        match ev {
            Event::Quit => self.finished = true,
            Event::Other => (),
        }
    }

    /// Absorbs one polled batch of events, as the loop does at the top
    /// of each iteration. The loop is finished afterwards exactly when
    /// it was already finished or the batch holds a quit request — so
    /// a quit ends the loop within the iteration that polls it.
    pub fn handle_events(&mut self, evs: &Vec<Event>)
        ensures
            final(self).finished_spec() == (old(self).finished_spec() || has_quit(evs@)),
            final(self).program_id_spec() == old(self).program_id_spec(),
            final(self).vao_spec() == old(self).vao_spec(),
            final(self).vertex_count_spec() == old(self).vertex_count_spec(),
    {
        let mut i: usize = 0;
        while i < evs.len()
            invariant
                0 <= i <= evs@.len(),
                self.finished_spec() == (old(self).finished_spec() || (exists|j: int|
                    0 <= j < i && evs@[j] is Quit)),
                self.program_id_spec() == old(self).program_id_spec(),
                self.vao_spec() == old(self).vao_spec(),
                self.vertex_count_spec() == old(self).vertex_count_spec(),
            decreases evs@.len() - i,
        {
            let ev = evs[i];
            self.handle_event(ev);
            i += 1;
        }
    }

    /// Whether the loop has stopped; the embedder polls this before
    /// rendering another frame.
    pub fn is_finished(&self) -> (r: bool)
        ensures
            r == self.finished_spec(),
    {
        self.finished
    }

    /// The actions of one frame, in the order the embedder performs
    /// them. Only a running loop has a frame: once finished, no plan
    /// is ever handed out again.
    pub fn frame_actions(&self) -> (acts: Vec<GlAction>)
        requires
            !self.finished_spec(),
        ensures
            acts@ == frame_plan(self.program_id_spec(), self.vao_spec(), self.vertex_count_spec()),
    {
        let mut acts: Vec<GlAction> = Vec::new();
        acts.push(GlAction::Clear);
        acts.push(GlAction::UseProgram(self.program_id));
        acts.push(GlAction::BindVertexArray(self.vao));
        acts.push(GlAction::DrawTriangles { first: 0, count: self.vertex_count });
        acts.push(GlAction::SwapWindow);
        assert(acts@ =~= frame_plan(self.program_id, self.vao, self.vertex_count));
        acts
    }
}

/// Law: one frame issues exactly one draw call — triangles, starting
/// at index 0, over the loop's vertex count — and it comes after the
/// clear, the program activation and the vertex-array binding, and
/// before the frame is presented.
pub proof fn lemma_frame_draws_once(pid: u32, vao: u32, count: i32)
    ensures
        frame_plan(pid, vao, count).len() == 5,
        frame_plan(pid, vao, count)[3] == (GlAction::DrawTriangles { first: 0, count: count }),
        forall|i: int|
            0 <= i < 5 && frame_plan(pid, vao, count)[i] is DrawTriangles ==> i == 3,
        frame_plan(pid, vao, count)[0] is Clear,
        frame_plan(pid, vao, count)[1] == GlAction::UseProgram(pid),
        frame_plan(pid, vao, count)[2] == GlAction::BindVertexArray(vao),
        frame_plan(pid, vao, count)[4] is SwapWindow,
{
}

} // verus!
