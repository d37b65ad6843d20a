use vstd::prelude::*;

use crate::frame::{tab_bar, FrameDescription, Viewport};
use crate::input::InputEvent;
use crate::render_loop::{
    after_event, after_failure, after_paint, LoopAction, LoopState, RenderError, RenderLoop,
};

verus! {

/// A display mode the session switches the terminal into, in order of entry.
#[derive(Clone, Copy, Debug, PartialEq, Eq, Structural)]
pub enum ModeStep {
    RawMode,
    AlternateScreen,
    MouseCapture,
}

/// The number of modes entered on open.
pub const MODE_STEPS: u8 = 3;

/// The `i`-th mode entered on open (counting from zero).
pub open spec fn mode_step(i: int) -> ModeStep {
    if i == 0 {
        ModeStep::RawMode
    } else if i == 1 {
        ModeStep::AlternateScreen
    } else {
        ModeStep::MouseCapture
    }
}

/// A step of restoring the terminal on close, in the order they are taken.
#[derive(Clone, Copy, Debug, PartialEq, Eq, Structural)]
pub enum RestoreStep {
    DisableRawMode,
    LeaveAlternateScreen,
    DisableMouseCapture,
    ShowCursor,
}

/// The number of steps of a close.
pub const RESTORE_STEPS: u8 = 4;

/// The `i`-th step of a close (counting from zero).
pub open spec fn restore_step(i: int) -> RestoreStep {
    if i == 0 {
        RestoreStep::DisableRawMode
    } else if i == 1 {
        RestoreStep::LeaveAlternateScreen
    } else if i == 2 {
        RestoreStep::DisableMouseCapture
    } else {
        RestoreStep::ShowCursor
    }
}

/// How the render loop of an opened session ended.
#[derive(Clone, Copy, Debug, PartialEq, Eq, Structural)]
pub enum LoopEnd {
    /// The user pressed `q`.
    Quit,
    /// A paint or read failed.
    Failed(RenderError),
}

/// How a whole run of the shell ended.
#[derive(Clone, Copy, Debug, PartialEq, Eq, Structural)]
pub enum Outcome {
    /// The session could not be opened; whatever mode had been entered was
    /// rolled back, and no close was needed.
    InitFailed,
    /// The session was opened, its loop ran and ended, and it was closed.
    /// `restore_failed` tells whether any step of the close failed.
    Ran { end: LoopEnd, restore_failed: bool },
}

/// The exit status of a run: zero after a `q`, also when restoring the
/// terminal failed (that failure is only reported); one when the session
/// could not be opened or the render loop failed.
pub open spec fn exit_code_of(o: Outcome) -> i32 {
    match o {
        Outcome::Ran { end: LoopEnd::Quit, .. } => 0,
        _ => 1,
    }
}

impl Outcome {
    pub fn exit_code(&self) -> (r: i32)
        ensures
            r == exit_code_of(*self),
    {
        match self {
            Outcome::Ran { end: LoopEnd::Quit, .. } => 0,
            _ => 1,
        }
    }
}

/// Where a run of the shell stands.
#[derive(Clone, Copy, Debug, PartialEq, Eq, Structural)]
pub enum Stage {
    /// Opening: the first `entered` modes are on.
    Opening { entered: u8 },
    /// Opening failed: the first `left` modes are still on and are turned off,
    /// last entered first.
    RollingBack { left: u8 },
    /// The session is open and its render loop is running.
    Running { lp: RenderLoop },
    /// The loop ended with `end`; close step `next` is to be attempted.
    Closing { next: u8, end: LoopEnd, restore_failed: bool },
    /// The run is over.
    Finished { outcome: Outcome },
}

impl Stage {
    pub open spec fn wf(self) -> bool {
        match self {
            Stage::Opening { entered } => entered <= MODE_STEPS,
            Stage::RollingBack { left } => 1 <= left <= MODE_STEPS,
            Stage::Running { lp } => lp.state.is_running(),
            Stage::Closing { next, .. } => next < RESTORE_STEPS,
            Stage::Finished { .. } => true,
        }
    }
}

/// What the driver reports after carrying out a command.
#[derive(Clone, Copy, Debug, PartialEq, Eq, Structural)]
pub enum Report {
    /// The mode switch, paint or restore step succeeded.
    Succeeded,
    /// The command failed.
    Failed,
    /// The viewport size was read.
    Size(Viewport),
    /// An input event was read.
    Input(InputEvent),
}

/// What a shell in a given stage is waiting for, in mathematical terms.
pub enum Pending {
    Enter(ModeStep),
    QuerySize,
    Undo(ModeStep),
    Paint(Viewport),
    Read,
    Restore(RestoreStep),
    Exit(Outcome),
}

/// The command a shell in stage `s` asks its driver to carry out.
pub open spec fn pending(s: Stage) -> Pending {
    match s {
        Stage::Opening { entered } => {
            if entered < MODE_STEPS {
                Pending::Enter(mode_step(entered as int))
            } else {
                Pending::QuerySize
            }
        },
        Stage::RollingBack { left } => Pending::Undo(mode_step(left - 1)),
        Stage::Running { lp } => {
            if lp.state is AwaitPaint {
                Pending::Paint(lp.viewport)
            } else {
                Pending::Read
            }
        },
        Stage::Closing { next, .. } => Pending::Restore(restore_step(next as int)),
        Stage::Finished { outcome } => Pending::Exit(outcome),
    }
}

/// The reports that answer what stage `s` is waiting for.
pub open spec fn accepts(s: Stage, r: Report) -> bool {
    match pending(s) {
        Pending::QuerySize => r is Size || r is Failed,
        Pending::Read => r is Input || r is Failed,
        Pending::Exit(_) => false,
        _ => r is Succeeded || r is Failed,
    }
}

/// The stage after the render loop of an open session moved to `next`: it
/// keeps running, or the close begins.
pub open spec fn after_loop(lp: RenderLoop, next: LoopState) -> Stage {
    match next {
        LoopState::Stopped => Stage::Closing { next: 0, end: LoopEnd::Quit, restore_failed: false },
        LoopState::Failed(e) => Stage::Closing {
            next: 0,
            end: LoopEnd::Failed(e),
            restore_failed: false,
        },
        _ => Stage::Running { lp: RenderLoop { viewport: lp.viewport, state: next } },
    }
}

/// The stage after report `r` in stage `s`.
pub open spec fn step(s: Stage, r: Report) -> Stage {
    match s {
        Stage::Opening { entered } => {
            if r is Failed {
                if entered == 0 {
                    Stage::Finished { outcome: Outcome::InitFailed }
                } else {
                    Stage::RollingBack { left: entered }
                }
            } else if entered < MODE_STEPS {
                Stage::Opening { entered: (entered + 1) as u8 }
            } else {
                Stage::Running {
                    lp: RenderLoop { viewport: r->Size_0, state: LoopState::AwaitPaint },
                }
            }
        },
        Stage::RollingBack { left } => {
            if left <= 1 {
                Stage::Finished { outcome: Outcome::InitFailed }
            } else {
                Stage::RollingBack { left: (left - 1) as u8 }
            }
        },
        Stage::Running { lp } => {
            if r is Failed {
                after_loop(lp, after_failure(lp.state))
            } else if lp.state is AwaitPaint {
                after_loop(lp, after_paint())
            } else {
                after_loop(lp, after_event(r->Input_0))
            }
        },
        Stage::Closing { next, end, restore_failed } => {
            let failed = restore_failed || r is Failed;
            if next + 1 < RESTORE_STEPS {
                Stage::Closing { next: (next + 1) as u8, end, restore_failed: failed }
            } else {
                Stage::Finished { outcome: Outcome::Ran { end, restore_failed: failed } }
            }
        },
        Stage::Finished { .. } => s,
    }
}

/// Whether the session of a run in stage `s` has been opened: opening
/// completed, whether or not it has been closed since.
pub open spec fn opened(s: Stage) -> bool {
    ||| s is Running
    ||| s is Closing
    ||| (s is Finished && s->outcome is Ran)
}

/// Open and close come in pairs. A session counts as opened only once every
/// mode is on and the viewport is known, and stays opened. A close begins
/// exactly when the render loop ends, by `q` or by failure, and a run never
/// returns to its loop after that. The close attempts every restore step
/// once, in order, whether or not an earlier step failed, and an opened run
/// finishes only through its last restore step. A run whose open failed
/// never closes.
pub proof fn lemma_open_close_pairing(s: Stage, r: Report)
    requires
        s.wf(),
        accepts(s, r),
    ensures
        step(s, r).wf(),
        !opened(s) && opened(step(s, r)) ==> s == (Stage::Opening { entered: MODE_STEPS })
            && r is Size && step(s, r) is Running,
        opened(s) ==> opened(step(s, r)),
        (step(s, r) is Closing && step(s, r)->next == 0) <==> (s is Running && !(step(
            s,
            r,
        ) is Running)),
        (s is Closing || s is Finished) ==> !(step(s, r) is Running),
        s is Closing && s->next + 1 < RESTORE_STEPS ==> step(s, r) is Closing && step(s, r)->next
            == s->next + 1 && step(s, r)->end == s->end,
        s is Closing && s->next + 1 == RESTORE_STEPS ==> step(s, r) is Finished && step(
            s,
            r,
        )->outcome is Ran,
        opened(s) && step(s, r) is Finished ==> s is Closing && s->next + 1 == RESTORE_STEPS,
        !opened(s) ==> !(step(s, r) is Closing),
{
}

/// Whether each of `reports`, taken in order from stage `s`, answers the
/// command of the stage it meets.
pub open spec fn answers_all(s: Stage, reports: Seq<Report>) -> bool
    decreases reports.len(),
{
    reports.len() == 0 || (accepts(s, reports[0]) && answers_all(
        step(s, reports[0]),
        reports.drop_first(),
    ))
}

/// The stage reached from `s` after `reports`.
pub open spec fn run_to(s: Stage, reports: Seq<Report>) -> Stage
    decreases reports.len(),
{
    if reports.len() == 0 {
        s
    } else {
        run_to(step(s, reports[0]), reports.drop_first())
    }
}

/// How many times restore step `st` is carried out (commanded and answered)
/// on the way from `s` through `reports`.
pub open spec fn attempts(s: Stage, reports: Seq<Report>, st: RestoreStep) -> nat
    decreases reports.len(),
{
    if reports.len() == 0 {
        0
    } else {
        (if pending(s) == Pending::Restore(st) {
            1nat
        } else {
            0nat
        }) + attempts(step(s, reports[0]), reports.drop_first(), st)
    }
}

/// The position of `st` among the steps of a close.
pub open spec fn restore_index(st: RestoreStep) -> int {
    match st {
        RestoreStep::DisableRawMode => 0,
        RestoreStep::LeaveAlternateScreen => 1,
        RestoreStep::DisableMouseCapture => 2,
        RestoreStep::ShowCursor => 3,
    }
}

/// Whether restore step `st` has already been carried out by stage `s`.
pub open spec fn restored(s: Stage, st: RestoreStep) -> nat {
    match s {
        Stage::Closing { next, .. } => if restore_index(st) < next {
            1
        } else {
            0
        },
        Stage::Finished { outcome: Outcome::Ran { .. } } => 1,
        _ => 0,
    }
}

proof fn lemma_restored_step(s: Stage, r: Report, st: RestoreStep)
    requires
        s.wf(),
        accepts(s, r),
    ensures
        step(s, r).wf(),
        restored(step(s, r), st) == restored(s, st) + (if pending(s) == Pending::Restore(st) {
            1nat
        } else {
            0nat
        }),
{
    if s is Closing {
        assert(pending(s) == Pending::Restore(st) <==> restore_index(st) == s->next);
    }
}

proof fn lemma_restored_run(s: Stage, reports: Seq<Report>, st: RestoreStep)
    requires
        s.wf(),
        answers_all(s, reports),
    ensures
        run_to(s, reports).wf(),
        restored(run_to(s, reports), st) == restored(s, st) + attempts(s, reports, st),
    decreases reports.len(),
{
    if reports.len() > 0 {
        lemma_restored_step(s, reports[0], st);
        lemma_restored_run(step(s, reports[0]), reports.drop_first(), st);
    }
}

/// Over a whole run: driven from a new shell by reports that each answer
/// the command asked, a run that finishes has carried out every restore step
/// exactly once when its session was opened, and none when opening failed.
pub proof fn lemma_close_once_per_open(reports: Seq<Report>, st: RestoreStep)
    requires
        answers_all(Stage::Opening { entered: 0 }, reports),
        run_to(Stage::Opening { entered: 0 }, reports) is Finished,
    ensures
        attempts(Stage::Opening { entered: 0 }, reports, st) == (if opened(
            run_to(Stage::Opening { entered: 0 }, reports),
        ) {
            1nat
        } else {
            0nat
        }),
{
    lemma_restored_run(Stage::Opening { entered: 0 }, reports, st);
}

/// The commands carried out (asked for and answered) on the way from `s`
/// through `reports`, in order.
pub open spec fn commands(s: Stage, reports: Seq<Report>) -> Seq<Pending>
    decreases reports.len(),
{
    if reports.len() == 0 {
        Seq::empty()
    } else {
        seq![pending(s)] + commands(step(s, reports[0]), reports.drop_first())
    }
}

proof fn lemma_read_after_paint_step(s: Stage, r: Report)
    requires
        s.wf(),
        accepts(s, r),
        pending(step(s, r)) is Read,
    ensures
        pending(s) is Paint,
{
}

proof fn lemma_read_after_paint_run(s: Stage, reports: Seq<Report>)
    requires
        s.wf(),
        answers_all(s, reports),
    ensures
        commands(s, reports).len() == reports.len(),
        reports.len() > 0 ==> commands(s, reports)[0] == pending(s),
        forall|i: int|
            1 <= i < commands(s, reports).len() && (#[trigger] commands(s, reports)[i]) is Read
                ==> commands(s, reports)[i - 1] is Paint,
    decreases reports.len(),
{
    if reports.len() > 0 {
        let t = step(s, reports[0]);
        let rest = reports.drop_first();
        lemma_open_close_pairing(s, reports[0]);
        lemma_read_after_paint_run(t, rest);
        let c = commands(s, reports);
        let c2 = commands(t, rest);
        assert(c == seq![pending(s)] + c2);
        assert forall|i: int| 1 <= i < c.len() && (#[trigger] c[i]) is Read implies c[i
            - 1] is Paint by {
            assert(c[i] == c2[i - 1]);
            if i == 1 {
                lemma_read_after_paint_step(s, reports[0]);
            } else {
                assert(c[i - 1] == c2[i - 2]);
            }
        }
    }
}

/// Paint comes before read in every tick: in a run from a new shell, driven
/// by reports that each answer the command asked, every read of an input
/// event comes right after a paint.
pub proof fn lemma_paint_precedes_read(reports: Seq<Report>)
    requires
        answers_all(Stage::Opening { entered: 0 }, reports),
    ensures
        forall|i: int|
            0 <= i < commands(Stage::Opening { entered: 0 }, reports).len() && (#[trigger] commands(
                Stage::Opening { entered: 0 },
                reports,
            )[i]) is Read ==> i > 0 && commands(Stage::Opening { entered: 0 }, reports)[i
                - 1] is Paint,
{
    lemma_read_after_paint_run(Stage::Opening { entered: 0 }, reports);
}

/// A command for the driver of a shell.
#[derive(Debug)]
pub enum Command {
    /// Switch the terminal into this mode.
    Enter(ModeStep),
    /// Read the size of the viewport.
    QuerySize,
    /// Switch the terminal out of this mode again (a failed open).
    Undo(ModeStep),
    /// Paint this frame.
    Paint(FrameDescription),
    /// Block for one input event.
    Read,
    /// Take this step of restoring the terminal.
    Restore(RestoreStep),
    /// The run is over: exit with this outcome.
    Exit(Outcome),
}

impl Command {
    /// Whether this command is the one `p` describes.
    pub open spec fn fits(self, p: Pending) -> bool {
        match p {
            Pending::Enter(m) => self == Command::Enter(m),
            Pending::QuerySize => self is QuerySize,
            Pending::Undo(m) => self == Command::Undo(m),
            Pending::Paint(v) => self is Paint && self->Paint_0@ == tab_bar(v),
            Pending::Read => self is Read,
            Pending::Restore(st) => self == Command::Restore(st),
            Pending::Exit(o) => self == Command::Exit(o),
        }
    }
}

/// One run of the tab bar shell: open the terminal session, run the render
/// loop, close the session. It does no I/O itself: its driver carries out
/// each command and reports how it went.
#[derive(Clone, Copy, Debug, PartialEq, Eq, Structural)]
pub struct Shell {
    pub stage: Stage,
}

fn mode_at(i: u8) -> (r: ModeStep)
    requires
        i < MODE_STEPS,
    ensures
        r == mode_step(i as int),
{
    if i == 0 {
        ModeStep::RawMode
    } else if i == 1 {
        ModeStep::AlternateScreen
    } else {
        ModeStep::MouseCapture
    }
}

fn restore_at(i: u8) -> (r: RestoreStep)
    ensures
        r == restore_step(i as int),
{
    if i == 0 {
        RestoreStep::DisableRawMode
    } else if i == 1 {
        RestoreStep::LeaveAlternateScreen
    } else if i == 2 {
        RestoreStep::DisableMouseCapture
    } else {
        RestoreStep::ShowCursor
    }
}

impl Shell {
    /// A run that has not yet entered any mode.
    pub fn new() -> (r: Shell)
        ensures
            r.stage == (Stage::Opening { entered: 0 }),
            r.stage.wf(),
    {
        Shell { stage: Stage::Opening { entered: 0 } }
    }

    /// The command to carry out next.
    pub fn command(&self) -> (r: Command)
        requires
            self.stage.wf(),
        ensures
            r.fits(pending(self.stage)),
    {
        match self.stage {
            Stage::Opening { entered } => {
                if entered < MODE_STEPS {
                    Command::Enter(mode_at(entered))
                } else {
                    Command::QuerySize
                }
            },
            Stage::RollingBack { left } => Command::Undo(mode_at(left - 1)),
            Stage::Running { lp } => match lp.next_action() {
                LoopAction::Paint(f) => Command::Paint(f),
                _ => Command::Read,
            },
            Stage::Closing { next, .. } => Command::Restore(restore_at(next)),
            Stage::Finished { outcome } => Command::Exit(outcome),
        }
    }

    /// Whether `r` answers the command this shell waits for.
    pub fn accepts(&self, r: &Report) -> (b: bool)
        ensures
            b == (self.stage.wf() && accepts(self.stage, *r)),
    {
        let wf = match self.stage {
            Stage::Opening { entered } => entered <= MODE_STEPS,
            Stage::RollingBack { left } => 1 <= left && left <= MODE_STEPS,
            Stage::Running { lp } => lp.is_running(),
            Stage::Closing { next, .. } => next < RESTORE_STEPS,
            Stage::Finished { .. } => true,
        };
        if !wf {
            return false;
        }
        match self.stage {
            Stage::Opening { entered } => {
                if entered < MODE_STEPS {
                    matches!(r, Report::Succeeded | Report::Failed)
                } else {
                    matches!(r, Report::Size(_) | Report::Failed)
                }
            },
            Stage::Running { lp } => {
                if lp.state == LoopState::AwaitPaint {
                    matches!(r, Report::Succeeded | Report::Failed)
                } else {
                    matches!(r, Report::Input(_) | Report::Failed)
                }
            },
            Stage::Finished { .. } => false,
            _ => matches!(r, Report::Succeeded | Report::Failed),
        }
    }

    /// Takes in how the last command went.
    pub fn report(&mut self, r: Report)
        requires
            old(self).stage.wf(),
            accepts(old(self).stage, r),
        ensures
            final(self).stage == step(old(self).stage, r),
            final(self).stage.wf(),
    {
        match self.stage {
            Stage::Opening { entered } => {
                match r {
                    Report::Failed => {
                        if entered == 0 {
                            self.stage = Stage::Finished { outcome: Outcome::InitFailed };
                        } else {
                            self.stage = Stage::RollingBack { left: entered };
                        }
                    },
                    Report::Size(v) => {
                        self.stage = Stage::Running { lp: RenderLoop::new(v) };
                    },
                    _ => {
                        self.stage = Stage::Opening { entered: entered + 1 };
                    },
                }
            },
            Stage::RollingBack { left } => {
                if left <= 1 {
                    self.stage = Stage::Finished { outcome: Outcome::InitFailed };
                } else {
                    self.stage = Stage::RollingBack { left: left - 1 };
                }
            },
            Stage::Running { lp } => {
                let mut lp = lp;
                match r {
                    Report::Failed => lp.failed(),
                    Report::Input(ev) => lp.received(ev),
                    _ => lp.painted(),
                }
                self.stage = match lp.state {
                    LoopState::Stopped => Stage::Closing {
                        next: 0,
                        end: LoopEnd::Quit,
                        restore_failed: false,
                    },
                    LoopState::Failed(e) => Stage::Closing {
                        next: 0,
                        end: LoopEnd::Failed(e),
                        restore_failed: false,
                    },
                    _ => Stage::Running { lp },
                };
            },
            Stage::Closing { next, end, restore_failed } => {
                let failed = restore_failed || matches!(r, Report::Failed);
                if next + 1 < RESTORE_STEPS {
                    self.stage = Stage::Closing { next: next + 1, end, restore_failed: failed };
                } else {
                    self.stage = Stage::Finished {
                        outcome: Outcome::Ran { end, restore_failed: failed },
                    };
                }
            },
            Stage::Finished { .. } => {},
        }
    }
}

} // verus!
