//! Frame synchronisation: one frame of work for each vertical blank.

use vstd::prelude::*;

verus! {

/// Where the frame loop stands.
#[derive(Clone, Copy, Debug, PartialEq, Eq, Structural)]
pub enum FrameState {
    /// Waiting for the next vertical blank.
    Idle,
    /// Sampling input, updating the state and drawing, once.
    Active,
}

/// What can happen to the frame loop.
#[derive(Clone, Copy, Debug, PartialEq, Eq, Structural)]
pub enum FrameEvent {
    /// The hardware has signalled the vertical blank.
    VBlank,
    /// The draw calls of the frame have returned.
    FrameDrawn,
}

/// What the interrupt service routine does with an interrupt.
#[derive(Clone, Copy, Debug, PartialEq, Eq, Structural)]
pub enum IrqAction {
    /// Set the vertical-blank bit in both pending-interrupt registers.
    AcknowledgeVBlank,
    /// Leave the registers alone.
    Ignore,
}

/// The state after an event. Only a vertical blank starts a frame, and only
/// the end of its drawing ends it; any other event leaves the state alone.
pub open spec fn next_state(state: FrameState, event: FrameEvent) -> FrameState {
    match (state, event) {
        (FrameState::Idle, FrameEvent::VBlank) => FrameState::Active,
        (FrameState::Active, FrameEvent::FrameDrawn) => FrameState::Idle,
        _ => state,
    }
}

/// The state after a run of events, in order.
pub open spec fn run(state: FrameState, events: Seq<FrameEvent>) -> FrameState
    decreases events.len(),
{
    if events.len() == 0 {
        state
    } else {
        next_state(run(state, events.drop_last()), events.last())
    }
}

/// The number of frames that a run of events starts.
pub open spec fn frames_started(state: FrameState, events: Seq<FrameEvent>) -> nat
    decreases events.len(),
{
    if events.len() == 0 {
        0
    } else {
        let before = run(state, events.drop_last());
        let started: nat = if before == FrameState::Idle && events.last() == FrameEvent::VBlank {
            1
        } else {
            0
        };
        frames_started(state, events.drop_last()) + started
    }
}

/// The number of vertical blanks in a run of events.
pub open spec fn vblanks(events: Seq<FrameEvent>) -> nat
    decreases events.len(),
{
    if events.len() == 0 {
        0
    } else {
        let one: nat = if events.last() == FrameEvent::VBlank {
            1
        } else {
            0
        };
        vblanks(events.drop_last()) + one
    }
}

impl FrameState {
    /// The state in which the loop starts: waiting.
    pub fn new() -> (state: FrameState)
        ensures
            state == FrameState::Idle,
    {
        FrameState::Idle
    }

    /// Takes one event.
    pub fn transition(self, event: FrameEvent) -> (next: FrameState)
        ensures
            next == next_state(self, event),
    {
        match (self, event) {
            (FrameState::Idle, FrameEvent::VBlank) => FrameState::Active,
            (FrameState::Active, FrameEvent::FrameDrawn) => FrameState::Idle,
            _ => self,
        }
    }

    /// Whether drawing is allowed: only inside a frame.
    pub fn may_draw(self) -> (yes: bool)
        ensures
            yes == (self == FrameState::Active),
    {
        match self {
            FrameState::Active => true,
            FrameState::Idle => false,
        }
    }
}

/// What the interrupt service routine does: it acknowledges a vertical
/// blank, and nothing else.
pub fn irq_handler(vblank: bool) -> (action: IrqAction)
    ensures
        action == if vblank {
            IrqAction::AcknowledgeVBlank
        } else {
            IrqAction::Ignore
        },
{
    if vblank {
        IrqAction::AcknowledgeVBlank
    } else {
        IrqAction::Ignore
    }
}

/// A vertical blank and then the end of drawing bring a waiting loop back to
/// waiting, with one frame run.
pub proof fn lemma_one_frame(state: FrameState)
    requires
        state == FrameState::Idle,
    ensures
        next_state(state, FrameEvent::VBlank) == FrameState::Active,
        next_state(next_state(state, FrameEvent::VBlank), FrameEvent::FrameDrawn)
            == FrameState::Idle,
{
}

/// No run of events starts more frames than it holds vertical blanks.
pub proof fn lemma_frames_bounded(state: FrameState, events: Seq<FrameEvent>)
    ensures
        frames_started(state, events) <= vblanks(events),
    decreases events.len(),
{
    if events.len() > 0 {
        lemma_frames_bounded(state, events.drop_last());
    }
}

} // verus!
