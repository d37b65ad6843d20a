use tab_shell::frame::Viewport;
use tab_shell::input::InputEvent;
use tab_shell::render_loop::RenderError;
use tab_shell::session::{Command, LoopEnd, ModeStep, Outcome, Report, RestoreStep, Shell, Stage};

#[derive(Debug, PartialEq)]
enum Done {
    Enter(ModeStep),
    QuerySize,
    Undo(ModeStep),
    Paint,
    Read,
    Restore(RestoreStep),
}

/// A scripted terminal: which command fails, and the events it delivers.
#[derive(Default)]
struct Script {
    fail_enter: Option<ModeStep>,
    fail_size: bool,
    fail_paint_on_tick: Option<usize>,
    fail_read_on_tick: Option<usize>,
    fail_restore: Vec<RestoreStep>,
    events: Vec<InputEvent>,
}

fn run(script: &Script) -> (Vec<Done>, Outcome) {
    let mut shell = Shell::new();
    let mut log = Vec::new();
    let mut ticks = 0;
    let mut reads = 0;
    loop {
        let report = match shell.command() {
            Command::Enter(m) => {
                log.push(Done::Enter(m));
                if script.fail_enter == Some(m) {
                    Report::Failed
                } else {
                    Report::Succeeded
                }
            }
            Command::QuerySize => {
                log.push(Done::QuerySize);
                if script.fail_size {
                    Report::Failed
                } else {
                    Report::Size(Viewport::new(0, 0, 80, 24))
                }
            }
            Command::Undo(m) => {
                log.push(Done::Undo(m));
                Report::Succeeded
            }
            Command::Paint(_) => {
                ticks += 1;
                log.push(Done::Paint);
                if script.fail_paint_on_tick == Some(ticks) {
                    Report::Failed
                } else {
                    Report::Succeeded
                }
            }
            Command::Read => {
                log.push(Done::Read);
                if script.fail_read_on_tick == Some(ticks) {
                    Report::Failed
                } else {
                    let ev = script.events[reads];
                    reads += 1;
                    Report::Input(ev)
                }
            }
            Command::Restore(st) => {
                log.push(Done::Restore(st));
                if script.fail_restore.contains(&st) {
                    Report::Failed
                } else {
                    Report::Succeeded
                }
            }
            Command::Exit(o) => return (log, o),
        };
        assert!(shell.accepts(&report));
        shell.report(report);
    }
}

fn count(log: &[Done], d: &Done) -> usize {
    log.iter().filter(|x| *x == d).count()
}

const CLOSE: [RestoreStep; 4] = [
    RestoreStep::DisableRawMode,
    RestoreStep::LeaveAlternateScreen,
    RestoreStep::DisableMouseCapture,
    RestoreStep::ShowCursor,
];

fn assert_closed_once(log: &[Done]) {
    for st in CLOSE {
        assert_eq!(count(log, &Done::Restore(st)), 1);
    }
    let tail: Vec<&Done> = log[log.len() - 4..].iter().collect();
    let expected: Vec<Done> = CLOSE.iter().map(|s| Done::Restore(*s)).collect();
    assert_eq!(tail, expected.iter().collect::<Vec<_>>());
}

#[test]
fn quit_key_paints_once_and_closes_once() {
    let script = Script { events: vec![InputEvent::KeyChar('q')], ..Default::default() };
    let (log, outcome) = run(&script);
    assert_eq!(count(&log, &Done::Paint), 1);
    assert_closed_once(&log);
    assert_eq!(outcome, Outcome::Ran { end: LoopEnd::Quit, restore_failed: false });
    assert_eq!(outcome.exit_code(), 0);
}

#[test]
fn other_key_then_quit_paints_twice_and_stops() {
    let script = Script {
        events: vec![InputEvent::KeyChar('x'), InputEvent::KeyChar('q')],
        ..Default::default()
    };
    let (log, outcome) = run(&script);
    assert_eq!(count(&log, &Done::Paint), 2);
    assert_eq!(outcome, Outcome::Ran { end: LoopEnd::Quit, restore_failed: false });
    assert_closed_once(&log);
}

#[test]
fn paint_failure_on_second_tick_still_closes_once() {
    let script = Script {
        events: vec![InputEvent::KeyChar('x'), InputEvent::KeyChar('q')],
        fail_paint_on_tick: Some(2),
        ..Default::default()
    };
    let (log, outcome) = run(&script);
    assert_eq!(count(&log, &Done::Paint), 2);
    assert_eq!(count(&log, &Done::Read), 1);
    assert_eq!(
        outcome,
        Outcome::Ran { end: LoopEnd::Failed(RenderError::Paint), restore_failed: false }
    );
    assert_eq!(outcome.exit_code(), 1);
    assert_closed_once(&log);
}

#[test]
fn read_failure_still_closes_once() {
    let script = Script { fail_read_on_tick: Some(1), ..Default::default() };
    let (log, outcome) = run(&script);
    assert_eq!(
        outcome,
        Outcome::Ran { end: LoopEnd::Failed(RenderError::Read), restore_failed: false }
    );
    assert_closed_once(&log);
}

#[test]
fn open_enters_modes_in_order_then_reads_size() {
    let script = Script { events: vec![InputEvent::KeyChar('q')], ..Default::default() };
    let (log, _) = run(&script);
    assert_eq!(
        &log[..5],
        &[
            Done::Enter(ModeStep::RawMode),
            Done::Enter(ModeStep::AlternateScreen),
            Done::Enter(ModeStep::MouseCapture),
            Done::QuerySize,
            Done::Paint,
        ]
    );
    assert_eq!(log[5], Done::Read);
}

#[test]
fn failed_first_mode_needs_no_rollback_or_close() {
    let script = Script { fail_enter: Some(ModeStep::RawMode), ..Default::default() };
    let (log, outcome) = run(&script);
    assert_eq!(log, vec![Done::Enter(ModeStep::RawMode)]);
    assert_eq!(outcome, Outcome::InitFailed);
    assert_eq!(outcome.exit_code(), 1);
}

#[test]
fn failed_mouse_capture_rolls_back_entered_modes() {
    let script = Script { fail_enter: Some(ModeStep::MouseCapture), ..Default::default() };
    let (log, outcome) = run(&script);
    assert_eq!(
        log,
        vec![
            Done::Enter(ModeStep::RawMode),
            Done::Enter(ModeStep::AlternateScreen),
            Done::Enter(ModeStep::MouseCapture),
            Done::Undo(ModeStep::AlternateScreen),
            Done::Undo(ModeStep::RawMode),
        ]
    );
    assert_eq!(outcome, Outcome::InitFailed);
}

#[test]
fn failed_size_query_rolls_back_every_mode() {
    let script = Script { fail_size: true, ..Default::default() };
    let (log, outcome) = run(&script);
    assert_eq!(
        &log[3..],
        &[
            Done::QuerySize,
            Done::Undo(ModeStep::MouseCapture),
            Done::Undo(ModeStep::AlternateScreen),
            Done::Undo(ModeStep::RawMode),
        ]
    );
    assert_eq!(outcome, Outcome::InitFailed);
    assert_eq!(count(&log, &Done::Paint), 0);
}

#[test]
fn failed_restore_step_does_not_skip_the_others() {
    let script = Script {
        events: vec![InputEvent::KeyChar('q')],
        fail_restore: vec![RestoreStep::DisableRawMode, RestoreStep::DisableMouseCapture],
        ..Default::default()
    };
    let (log, outcome) = run(&script);
    assert_closed_once(&log);
    assert_eq!(outcome, Outcome::Ran { end: LoopEnd::Quit, restore_failed: true });
    assert_eq!(outcome.exit_code(), 0);
}

#[test]
fn finished_shell_accepts_no_report() {
    let mut shell = Shell::new();
    shell.report(Report::Failed);
    assert_eq!(shell.stage, Stage::Finished { outcome: Outcome::InitFailed });
    assert!(!shell.accepts(&Report::Succeeded));
    assert!(!shell.accepts(&Report::Failed));
}

#[test]
fn mismatched_report_is_not_accepted() {
    let shell = Shell::new();
    assert!(!shell.accepts(&Report::Input(InputEvent::KeyChar('q'))));
    assert!(!shell.accepts(&Report::Size(Viewport::new(0, 0, 1, 1))));
    assert!(shell.accepts(&Report::Succeeded));
}

#[test]
fn every_read_follows_a_paint() {
    let mut events = vec![InputEvent::NonKey, InputEvent::OtherKey, InputEvent::KeyChar('Q')];
    events.push(InputEvent::KeyChar('q'));
    let script = Script { events, ..Default::default() };
    let (log, outcome) = run(&script);
    assert_eq!(count(&log, &Done::Paint), 4);
    assert_eq!(count(&log, &Done::Read), 4);
    for i in 0..log.len() {
        if log[i] == Done::Read {
            assert!(i > 0 && log[i - 1] == Done::Paint);
        }
    }
    assert_eq!(outcome, Outcome::Ran { end: LoopEnd::Quit, restore_failed: false });
}
