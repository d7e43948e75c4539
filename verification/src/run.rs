//! The application loop as a state machine.
//!
//! Setup is a fixed sequence of phases; each step either succeeds and moves
//! to the next phase in that order, or fails and is terminal — there is no
//! retry and no partial recovery. Once running, every iteration drains the
//! pending events, stops on a quit event, and otherwise clears, draws the
//! whole uploaded vertex list and presents the frame.

use vstd::prelude::*;
use crate::command::{Cmd, GlCommand};
use crate::gl;

verus! {

/// The phases of the application, in the order setup passes through them.
#[derive(Clone, Copy, PartialEq, Eq, Structural, Debug)]
pub enum AppPhase {
    Uninitialized,
    WindowReady,
    ContextReady,
    BuffersUploaded,
    ProgramLinked,
    Running,
    Terminated,
}

impl AppPhase {
    /// The position of this phase in the setup order.
    pub open spec fn index(self) -> int {
        match self {
            AppPhase::Uninitialized => 0,
            AppPhase::WindowReady => 1,
            AppPhase::ContextReady => 2,
            AppPhase::BuffersUploaded => 3,
            AppPhase::ProgramLinked => 4,
            AppPhase::Running => 5,
            AppPhase::Terminated => 6,
        }
    }

    /// Whether this phase still has a setup step before it.
    pub open spec fn is_setup(self) -> bool {
        !(self is Running) && !(self is Terminated)
    }

    /// The phase a successful setup step out of this phase reaches.
    pub open spec fn successor(self) -> AppPhase {
        match self {
            AppPhase::Uninitialized => AppPhase::WindowReady,
            AppPhase::WindowReady => AppPhase::ContextReady,
            AppPhase::ContextReady => AppPhase::BuffersUploaded,
            AppPhase::BuffersUploaded => AppPhase::ProgramLinked,
            AppPhase::ProgramLinked => AppPhase::Running,
            AppPhase::Running => AppPhase::Running,
            AppPhase::Terminated => AppPhase::Terminated,
        }
    }
}

/// What one setup step leaves the application in.
pub open spec fn spec_setup_step(phase: AppPhase, succeeded: bool) -> AppPhase {
    if succeeded {
        phase.successor()
    } else {
        AppPhase::Terminated
    }
}

/// Advance the application after one setup step: success moves to the next
/// phase in the fixed order, skipping none; any failure is terminal.
pub fn setup_step(phase: AppPhase, succeeded: bool) -> (next: AppPhase)
    requires
        phase.is_setup(),
    ensures
        next == spec_setup_step(phase, succeeded),
        succeeded ==> next.index() == phase.index() + 1,
        !succeeded ==> next is Terminated,
{
    if succeeded {
        match phase {
            AppPhase::Uninitialized => AppPhase::WindowReady,
            AppPhase::WindowReady => AppPhase::ContextReady,
            AppPhase::ContextReady => AppPhase::BuffersUploaded,
            AppPhase::BuffersUploaded => AppPhase::ProgramLinked,
            AppPhase::ProgramLinked => AppPhase::Running,
            AppPhase::Running => AppPhase::Running,
            AppPhase::Terminated => AppPhase::Terminated,
        }
    } else {
        AppPhase::Terminated
    }
}

/// Setup that succeeds at every step passes through every phase in order
/// and reaches the running loop.
pub proof fn lemma_setup_success_order()
    ensures
        spec_setup_step(AppPhase::Uninitialized, true) == AppPhase::WindowReady,
        spec_setup_step(AppPhase::WindowReady, true) == AppPhase::ContextReady,
        spec_setup_step(AppPhase::ContextReady, true) == AppPhase::BuffersUploaded,
        spec_setup_step(AppPhase::BuffersUploaded, true) == AppPhase::ProgramLinked,
        spec_setup_step(AppPhase::ProgramLinked, true) == AppPhase::Running,
{
}

/// A failure in any setup phase is terminal.
pub proof fn lemma_setup_failure_terminal(phase: AppPhase)
    ensures
        spec_setup_step(phase, false) is Terminated,
{
}

/// One windowing event, as far as the loop cares: a quit request or
/// anything else.
#[derive(Clone, Copy, PartialEq, Eq, Structural, Debug)]
pub enum WinEvent {
    Quit,
    Other,
}

/// Whether the events drained this iteration ask the loop to stop: each is
/// checked for a quit request alone, and every other event is ignored.
pub fn quit_requested(events: &Vec<WinEvent>) -> (quit: bool)
    ensures
        quit <==> exists|i: int| 0 <= i < events@.len() && events@[i] is Quit,
{
    let mut i: usize = 0;
    while i < events.len()
        invariant
            i <= events@.len(),
            forall|j: int| 0 <= j < i ==> !(events@[j] is Quit),
        decreases events@.len() - i,
    {
        if matches!(events[i], WinEvent::Quit) {
            return true;
        }
        i += 1;
    }
    false
}

/// What one loop iteration does after the events are drained.
#[derive(Clone, PartialEq, Debug)]
pub enum FrameAction {
    /// A quit event arrived: leave the loop; the application then ends
    /// without an error.
    Stop,
    /// Draw this frame: issue the commands in order, then present the
    /// frame.
    Render { commands: Vec<GlCommand> },
}

/// The draw commands of one frame: clear the color buffer, then draw the
/// whole uploaded vertex list from its start — exactly `vertex_count`
/// vertices, never a fixed count.
pub fn frame_commands(vertex_count: usize) -> (cmds: Vec<GlCommand>)
    requires
        vertex_count <= i32::MAX,
    ensures
        cmds@.len() == 2,
        cmds@[0]@ == Cmd::Clear,
        cmds@[1]@ == (Cmd::DrawArrays { first: 0i32, count: vertex_count as i32 }),
{
    let mut cmds: Vec<GlCommand> = Vec::new();
    cmds.push(gl::clear());
    cmds.push(gl::draw_arrays(0, vertex_count as i32));
    cmds
}

/// Decide one loop iteration: stop on a quit request, otherwise render the
/// whole uploaded vertex list.
pub fn frame_action(events: &Vec<WinEvent>, vertex_count: usize) -> (action: FrameAction)
    requires
        vertex_count <= i32::MAX,
    ensures
        (exists|i: int| 0 <= i < events@.len() && events@[i] is Quit) ==> action is Stop,
        !(exists|i: int| 0 <= i < events@.len() && events@[i] is Quit) ==> (action matches
            FrameAction::Render { commands } && commands@.len() == 2 && commands@[0]@ == Cmd::Clear
            && commands@[1]@ == (Cmd::DrawArrays { first: 0i32, count: vertex_count as i32 })),
{
    if quit_requested(events) {
        FrameAction::Stop
    } else {
        FrameAction::Render { commands: frame_commands(vertex_count) }
    }
}

} // verus!
