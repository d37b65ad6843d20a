use vstd::prelude::*;

use crate::frame::{build_frame, tab_bar, FrameDescription, Viewport};
use crate::input::InputEvent;

verus! {

/// Why the render loop stopped on failure.
#[derive(Clone, Copy, Debug, PartialEq, Eq, Structural)]
pub enum RenderError {
    /// Painting a frame failed.
    Paint,
    /// Reading an input event failed.
    Read,
}

/// The state of the render loop. `AwaitPaint` and `AwaitRead` together are
/// the running state; `Stopped` and `Failed` are its two exits.
#[derive(Clone, Copy, Debug, PartialEq, Eq, Structural)]
pub enum LoopState {
    /// Running: the frame of the current tick is to be painted.
    AwaitPaint,
    /// Running: the frame is on screen, one input event is to be read.
    AwaitRead,
    /// Stopped by a key press of `q`.
    Stopped,
    /// Stopped by a failed paint or read.
    Failed(RenderError),
}

impl LoopState {
    pub open spec fn is_running(self) -> bool {
        self is AwaitPaint || self is AwaitRead
    }
}

/// The state in which every loop starts: the first frame is to be painted.
pub open spec fn initial_state() -> LoopState {
    LoopState::AwaitPaint
}

/// The state after the frame of the current tick was painted.
pub open spec fn after_paint() -> LoopState {
    LoopState::AwaitRead
}

/// The state after the input event of the current tick was read: only a key
/// press of `q` stops the loop, anything else begins a new tick.
pub open spec fn after_event(ev: InputEvent) -> LoopState {
    if ev.is_quit_spec() {
        LoopState::Stopped
    } else {
        LoopState::AwaitPaint
    }
}

/// The state after the awaited paint or read failed.
pub open spec fn after_failure(s: LoopState) -> LoopState {
    match s {
        LoopState::AwaitPaint => LoopState::Failed(RenderError::Paint),
        _ => LoopState::Failed(RenderError::Read),
    }
}

/// Only a key press of `q` stops a running loop; after any other event the
/// loop keeps running and begins a new tick by painting.
pub proof fn lemma_event_filtering(ev: InputEvent)
    ensures
        after_event(ev) == LoopState::Stopped <==> ev == InputEvent::KeyChar('q'),
        ev != InputEvent::KeyChar('q') ==> after_event(ev).is_running(),
        ev != InputEvent::KeyChar('q') ==> after_event(ev) is AwaitPaint,
{
}

/// Within a tick the paint comes strictly before the read: a loop starts by
/// awaiting a paint, a completed paint leads to awaiting a read, and neither
/// an event nor a failure leads to awaiting a read.
pub proof fn lemma_paint_before_read(s: LoopState, ev: InputEvent)
    requires
        s.is_running(),
    ensures
        initial_state() is AwaitPaint,
        after_paint() is AwaitRead,
        !(after_event(ev) is AwaitRead),
        !(after_failure(s) is AwaitRead),
{
}

/// How many paints a loop in state `s` still owes before its next read.
pub open spec fn paint_pending(s: LoopState) -> nat {
    if s is AwaitPaint {
        1
    } else {
        0
    }
}

/// Drives a loop from state `s` with every paint succeeding and each read
/// taking the next of `events`: the number of paints made, and the state the
/// loop is in once it has stopped or the events have run out.
pub open spec fn drive(s: LoopState, events: Seq<InputEvent>) -> (nat, LoopState)
    decreases events.len(), paint_pending(s),
{
    match s {
        LoopState::AwaitPaint => {
            let r = drive(after_paint(), events);
            (r.0 + 1, r.1)
        },
        LoopState::AwaitRead => {
            if events.len() == 0 {
                (0, s)
            } else {
                drive(after_event(events[0]), events.drop_first())
            }
        },
        _ => (0, s),
    }
}

/// There is no limit on the number of ticks: events that are not `q`,
/// followed by one `q`, take exactly one paint per event, and then the loop
/// has stopped.
pub proof fn lemma_no_tick_cap(events: Seq<InputEvent>)
    requires
        events.len() > 0,
        events.last() == InputEvent::KeyChar('q'),
        forall|i: int| 0 <= i < events.len() - 1 ==> events[i] != InputEvent::KeyChar('q'),
    ensures
        drive(initial_state(), events) == (events.len() as nat, LoopState::Stopped),
    decreases events.len(),
{
    let rest = events.drop_first();
    assert(drive(after_paint(), events) == drive(after_event(events[0]), rest));
    if events.len() == 1 {
        assert(events[0] == events.last());
        assert(after_event(events[0]) == LoopState::Stopped);
    } else {
        assert(events[0] != InputEvent::KeyChar('q'));
        assert(rest.last() == events.last());
        assert forall|i: int| 0 <= i < rest.len() - 1 implies rest[i] != InputEvent::KeyChar('q') by {
            assert(rest[i] == events[i + 1]);
        }
        lemma_no_tick_cap(rest);
        assert(after_event(events[0]) == initial_state());
    }
}

/// What the driver of a render loop is to do next.
#[derive(Debug)]
pub enum LoopAction {
    /// Paint this frame.
    Paint(FrameDescription),
    /// Block for one input event.
    Read,
    /// The loop is over, with this result.
    Done(Result<(), RenderError>),
}

/// The result a loop in state `s` ends with, once it is no longer running.
pub open spec fn loop_result(s: LoopState) -> Result<(), RenderError> {
    match s {
        LoopState::Failed(e) => Err(e),
        _ => Ok(()),
    }
}

/// The render loop: build a frame, paint it, read one event, decide.
/// It does no I/O itself; its driver performs each action it asks for and
/// reports back.
#[derive(Clone, Copy, Debug, PartialEq, Eq, Structural)]
pub struct RenderLoop {
    /// The viewport every frame is built for.
    pub viewport: Viewport,
    pub state: LoopState,
}

impl RenderLoop {
    pub fn new(viewport: Viewport) -> (r: RenderLoop)
        ensures
            r.viewport == viewport,
            r.state == initial_state(),
    {
        RenderLoop { viewport, state: LoopState::AwaitPaint }
    }

    pub fn is_running(&self) -> (r: bool)
        ensures
            r == self.state.is_running(),
    {
        match self.state {
            LoopState::AwaitPaint | LoopState::AwaitRead => true,
            _ => false,
        }
    }

    /// The action the loop asks for in its current state.
    pub fn next_action(&self) -> (r: LoopAction)
        ensures
            self.state is AwaitPaint <==> r is Paint,
            self.state is AwaitRead <==> r is Read,
            !self.state.is_running() <==> r is Done,
            r matches LoopAction::Paint(f) ==> f@ == tab_bar(self.viewport),
            r matches LoopAction::Done(res) ==> res == loop_result(self.state),
    {
        match self.state {
            LoopState::AwaitPaint => LoopAction::Paint(build_frame(self.viewport)),
            LoopState::AwaitRead => LoopAction::Read,
            LoopState::Stopped => LoopAction::Done(Ok(())),
            LoopState::Failed(e) => LoopAction::Done(Err(e)),
        }
    }

    /// The frame of the current tick is on screen.
    pub fn painted(&mut self)
        requires
            old(self).state is AwaitPaint,
        ensures
            final(self).state == after_paint(),
            final(self).viewport == old(self).viewport,
    {
        self.state = LoopState::AwaitRead;
    }

    /// The input event of the current tick arrived.
    pub fn received(&mut self, ev: InputEvent)
        requires
            old(self).state is AwaitRead,
        ensures
            final(self).state == after_event(ev),
            final(self).viewport == old(self).viewport,
    {
        if ev.is_quit() {
            self.state = LoopState::Stopped;
        } else {
            self.state = LoopState::AwaitPaint;
        }
    }

    /// The awaited paint or read failed.
    pub fn failed(&mut self)
        requires
            old(self).state.is_running(),
        ensures
            final(self).state == after_failure(old(self).state),
            final(self).viewport == old(self).viewport,
    {
        match self.state {
            LoopState::AwaitPaint => {
                self.state = LoopState::Failed(RenderError::Paint);
            },
            _ => {
                self.state = LoopState::Failed(RenderError::Read);
            },
        }
    }
}

} // verus!
