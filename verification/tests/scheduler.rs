use zaptui::error::{ErrorKind, StopReason};
use zaptui::event::{Event, Source, TerminalInput};
use zaptui::input::{KeyCode, KeyEvent, KeyKind, KeyModifiers};
use zaptui::channel::NOTIFICATION_CAPACITY;
use zaptui::protocol::{
    Action, Arrival, Observation, Outcome, Phase, Probe, Wait, INPUT_POLL_MS,
};
use zaptui::scheduler::Scheduler;
use zaptui::session::SessionState;

type Kernel = Scheduler<&'static str, &'static str>;
type Seen = Observation<&'static str, &'static str>;
type Todo = Action<&'static str, &'static str>;

fn press(c: char) -> KeyEvent {
    KeyEvent::press(KeyCode::Char(c), KeyModifiers::none())
}

fn chord() -> KeyEvent {
    KeyEvent::press(KeyCode::Char('c'), KeyModifiers::control())
}

fn nothing(now_ms: u64) -> Seen {
    Observation::Arrived(Arrival { input: None, notification: None, now_ms })
}

fn key_at(key: KeyEvent, raw: &'static str, now_ms: u64) -> Seen {
    Observation::Arrived(Arrival {
        input: Some(TerminalInput::key(key, raw)),
        notification: None,
        now_ms,
    })
}

fn step(kernel: &mut Kernel, seen: Seen) -> Todo {
    match kernel.advance(seen) {
        Ok(todo) => todo,
        Err(back) => panic!("not accepted: {:?}", back),
    }
}

/// A kernel that has drawn its first frame and served the first tick of
/// either timer: it waits, and nothing is pending.
fn settled() -> Kernel {
    let mut kernel = Kernel::new(0);
    assert_eq!(step(&mut kernel, Observation::Started), Action::AcquireTerminal);
    assert_eq!(step(&mut kernel, Observation::Acquired(true)), Action::Connect);
    assert_eq!(step(&mut kernel, Observation::Connected(true)), Action::Render);
    assert_eq!(
        step(&mut kernel, Observation::Rendered(true)),
        Action::Await(Wait { notifications: true, timeout_ms: 10 })
    );
    assert_eq!(step(&mut kernel, nothing(0)), Action::Dispatch(Event::ForegroundTick));
    assert_eq!(step(&mut kernel, Observation::Completed(Outcome::Handled)), Action::Render);
    assert_eq!(
        step(&mut kernel, Observation::Rendered(true)),
        Action::Await(Wait { notifications: true, timeout_ms: 0 })
    );
    assert_eq!(step(&mut kernel, nothing(0)), Action::Dispatch(Event::BackgroundTick));
    assert_eq!(step(&mut kernel, Observation::Completed(Outcome::Handled)), Action::Render);
    assert_eq!(
        step(&mut kernel, Observation::Rendered(true)),
        Action::Await(Wait { notifications: true, timeout_ms: 10 })
    );
    kernel
}

fn finish(kernel: &mut Kernel, log: &mut Vec<Todo>) {
    log.push(step(kernel, Observation::Probed(Probe::Empty)));
    log.push(step(kernel, Observation::Released(true)));
}

fn releases(log: &[Todo]) -> usize {
    log.iter().filter(|todo| matches!(todo, Action::ReleaseTerminal)).count()
}

#[test]
fn limits_are_ten_milliseconds_and_a_hundred_notifications() {
    assert_eq!(INPUT_POLL_MS, 10);
    assert_eq!(NOTIFICATION_CAPACITY, 100);
}

#[test]
fn run_starts_with_terminal_then_backend_then_first_frame() {
    let mut kernel = Kernel::new(0);
    assert_eq!(kernel.phase, Phase::Idle);
    assert_eq!(kernel.session.state, SessionState::Idle);
    assert_eq!(step(&mut kernel, Observation::Started), Action::AcquireTerminal);
    assert_eq!(kernel.phase, Phase::Acquiring);
    assert_eq!(step(&mut kernel, Observation::Acquired(true)), Action::Connect);
    assert!(kernel.session.is_active());
    assert_eq!(step(&mut kernel, Observation::Connected(true)), Action::Render);
    assert_eq!(kernel.phase, Phase::RenderIfDirty);
    assert!(!kernel.gate.pending());
    assert!(matches!(step(&mut kernel, Observation::Rendered(true)), Action::Await(_)));
    assert_eq!(kernel.phase, Phase::WaitingForEvent);
}

#[test]
fn three_sources_ready_at_once_are_served_by_priority() {
    let mut kernel = settled();
    // 30 s later the foreground timer is due; a key and a notification arrive too.
    let seen = Observation::Arrived(Arrival {
        input: Some(TerminalInput::key(press('a'), "a")),
        notification: Some("msg1"),
        now_ms: 30_000,
    });
    assert_eq!(step(&mut kernel, seen), Action::Dispatch(Event::KeyInput(press('a'), "a")));
    assert_eq!(kernel.phase, Phase::Dispatching(Source::Input));
    assert_eq!(step(&mut kernel, Observation::Completed(Outcome::Handled)), Action::Render);
    assert_eq!(
        step(&mut kernel, Observation::Rendered(true)),
        Action::Await(Wait { notifications: false, timeout_ms: 0 })
    );
    assert_eq!(step(&mut kernel, nothing(30_001)), Action::Dispatch(Event::BackendNotification("msg1")));
    assert_eq!(kernel.phase, Phase::Dispatching(Source::Notification));
    assert_eq!(step(&mut kernel, Observation::Completed(Outcome::Handled)), Action::Render);
    assert_eq!(
        step(&mut kernel, Observation::Rendered(true)),
        Action::Await(Wait { notifications: true, timeout_ms: 0 })
    );
    assert_eq!(step(&mut kernel, nothing(30_002)), Action::Dispatch(Event::ForegroundTick));
    assert_eq!(kernel.phase, Phase::Dispatching(Source::ForegroundTimer));
    assert_eq!(step(&mut kernel, Observation::Completed(Outcome::Handled)), Action::Render);
    assert_eq!(
        step(&mut kernel, Observation::Rendered(true)),
        Action::Await(Wait { notifications: true, timeout_ms: 10 })
    );
    assert!(kernel.intake.is_idle());
}

#[test]
fn later_input_overtakes_a_waiting_notification() {
    let mut kernel = settled();
    let seen = Observation::Arrived(Arrival {
        input: Some(TerminalInput::other("click")),
        notification: Some("msg1"),
        now_ms: 5,
    });
    assert_eq!(step(&mut kernel, seen), Action::Dispatch(Event::MouseInput("click")));
    assert_eq!(step(&mut kernel, Observation::Completed(Outcome::Handled)), Action::Render);
    assert!(matches!(step(&mut kernel, Observation::Rendered(true)), Action::Await(_)));
    // The notification still waits; a key that comes now goes first again.
    assert_eq!(
        step(&mut kernel, key_at(press('b'), "b", 6)),
        Action::Dispatch(Event::KeyInput(press('b'), "b"))
    );
    assert_eq!(step(&mut kernel, Observation::Completed(Outcome::Handled)), Action::Render);
    assert!(matches!(step(&mut kernel, Observation::Rendered(true)), Action::Await(_)));
    assert_eq!(step(&mut kernel, nothing(7)), Action::Dispatch(Event::BackendNotification("msg1")));
}

#[test]
fn second_notification_is_refused_while_one_waits() {
    let mut kernel = settled();
    let seen = Observation::Arrived(Arrival {
        input: Some(TerminalInput::other("click")),
        notification: Some("msg1"),
        now_ms: 5,
    });
    assert_eq!(step(&mut kernel, seen), Action::Dispatch(Event::MouseInput("click")));
    assert_eq!(step(&mut kernel, Observation::Completed(Outcome::Handled)), Action::Render);
    assert_eq!(
        step(&mut kernel, Observation::Rendered(true)),
        Action::Await(Wait { notifications: false, timeout_ms: 0 })
    );
    let second = Observation::Arrived(Arrival { input: None, notification: Some("msg2"), now_ms: 6 });
    assert!(!kernel.would_accept(&second));
    let before = format!("{:?}", kernel);
    let back = kernel.advance(second);
    assert_eq!(
        back,
        Err(Observation::Arrived(Arrival { input: None, notification: Some("msg2"), now_ms: 6 }))
    );
    assert_eq!(format!("{:?}", kernel), before);
    assert_eq!(step(&mut kernel, nothing(6)), Action::Dispatch(Event::BackendNotification("msg1")));
}

#[test]
fn iteration_without_an_event_draws_nothing() {
    let mut kernel = settled();
    for now in 1..50u64 {
        assert_eq!(
            step(&mut kernel, nothing(now * 10)),
            Action::Await(Wait { notifications: true, timeout_ms: 10 })
        );
        assert_eq!(kernel.phase, Phase::WaitingForEvent);
        assert!(!kernel.gate.pending());
    }
}

#[test]
fn each_dispatch_is_followed_by_one_render() {
    let mut kernel = settled();
    let mut renders = 0;
    let mut dispatches = 0;
    for round in 0..5u64 {
        let todo = step(&mut kernel, key_at(press('x'), "x", round));
        assert!(matches!(todo, Action::Dispatch(_)));
        dispatches += 1;
        let mut todo = step(&mut kernel, Observation::Completed(Outcome::Handled));
        while todo == Action::Render {
            renders += 1;
            todo = step(&mut kernel, Observation::Rendered(true));
        }
        assert!(matches!(todo, Action::Await(_)));
        // Two quiet iterations in between: no render.
        assert!(matches!(step(&mut kernel, nothing(round)), Action::Await(_)));
        assert!(matches!(step(&mut kernel, nothing(round)), Action::Await(_)));
    }
    assert_eq!(dispatches, 5);
    assert_eq!(renders, 5);
}

#[test]
fn interrupt_chord_stops_the_loop_with_work_pending() {
    let mut kernel = settled();
    let seen = Observation::Arrived(Arrival {
        input: Some(TerminalInput::key(chord(), "^C")),
        notification: Some("msg1"),
        now_ms: 200_000,
    });
    assert_eq!(step(&mut kernel, seen), Action::PollPending);
    assert_eq!(kernel.phase, Phase::Draining(StopReason::Interrupt));
    let mut log = Vec::new();
    finish(&mut kernel, &mut log);
    assert_eq!(log, vec![Action::ReleaseTerminal, Action::Exit(StopReason::Interrupt)]);
    assert!(kernel.is_stopped());
}

#[test]
fn released_or_repeated_chord_is_an_ordinary_key() {
    let mut kernel = settled();
    let released = KeyEvent {
        code: KeyCode::Char('c'),
        modifiers: KeyModifiers::control(),
        kind: KeyKind::Release,
    };
    assert_eq!(
        step(&mut kernel, key_at(released, "c-up", 1)),
        Action::Dispatch(Event::KeyInput(released, "c-up"))
    );
    assert_eq!(step(&mut kernel, Observation::Completed(Outcome::Handled)), Action::Render);
    assert!(matches!(step(&mut kernel, Observation::Rendered(true)), Action::Await(_)));
    let repeated = KeyEvent { kind: KeyKind::Repeat, ..released };
    assert_eq!(
        step(&mut kernel, key_at(repeated, "c-again", 2)),
        Action::Dispatch(Event::KeyInput(repeated, "c-again"))
    );
}

#[test]
fn quit_from_the_application_stops_the_loop() {
    let mut kernel = settled();
    assert!(matches!(step(&mut kernel, key_at(press('q'), "q", 1)), Action::Dispatch(_)));
    assert_eq!(step(&mut kernel, Observation::Completed(Outcome::Quit)), Action::PollPending);
    assert_eq!(kernel.phase, Phase::Draining(StopReason::Quit));
    let mut log = Vec::new();
    finish(&mut kernel, &mut log);
    assert_eq!(log, vec![Action::ReleaseTerminal, Action::Exit(StopReason::Quit)]);
}

#[test]
fn failed_input_dispatch_is_fatal() {
    let mut kernel = settled();
    assert!(matches!(step(&mut kernel, key_at(press('x'), "x", 1)), Action::Dispatch(_)));
    assert_eq!(step(&mut kernel, Observation::Completed(Outcome::Failed)), Action::PollPending);
    let mut log = Vec::new();
    finish(&mut kernel, &mut log);
    assert_eq!(
        log,
        vec![Action::ReleaseTerminal, Action::Exit(StopReason::Failed(ErrorKind::Dispatch))]
    );
}

#[test]
fn failed_notification_dispatch_is_fatal() {
    let mut kernel = settled();
    let seen = Observation::Arrived(Arrival { input: None, notification: Some("bad"), now_ms: 1 });
    assert_eq!(step(&mut kernel, seen), Action::Dispatch(Event::BackendNotification("bad")));
    assert_eq!(step(&mut kernel, Observation::Completed(Outcome::Failed)), Action::PollPending);
    assert_eq!(kernel.phase, Phase::Draining(StopReason::Failed(ErrorKind::Dispatch)));
}

#[test]
fn failed_periodic_refresh_is_survived() {
    let mut kernel = settled();
    assert_eq!(step(&mut kernel, nothing(30_000)), Action::Dispatch(Event::ForegroundTick));
    assert_eq!(step(&mut kernel, Observation::Completed(Outcome::Failed)), Action::Render);
    assert!(matches!(step(&mut kernel, Observation::Rendered(true)), Action::Await(_)));
    assert_eq!(step(&mut kernel, nothing(120_000)), Action::Dispatch(Event::ForegroundTick));
    assert_eq!(step(&mut kernel, Observation::Completed(Outcome::Failed)), Action::Render);
    assert!(matches!(step(&mut kernel, Observation::Rendered(true)), Action::Await(_)));
    assert_eq!(step(&mut kernel, nothing(120_000)), Action::Dispatch(Event::BackgroundTick));
    assert_eq!(step(&mut kernel, Observation::Completed(Outcome::Failed)), Action::Render);
    assert!(matches!(step(&mut kernel, Observation::Rendered(true)), Action::Await(_)));
    assert_eq!(kernel.phase, Phase::WaitingForEvent);
}

#[test]
fn failed_draw_is_fatal() {
    let mut kernel = settled();
    assert!(matches!(step(&mut kernel, key_at(press('x'), "x", 1)), Action::Dispatch(_)));
    assert_eq!(step(&mut kernel, Observation::Completed(Outcome::Handled)), Action::Render);
    assert_eq!(step(&mut kernel, Observation::Rendered(false)), Action::PollPending);
    assert_eq!(kernel.phase, Phase::Draining(StopReason::Failed(ErrorKind::Dispatch)));
}

#[test]
fn failed_terminal_setup_skips_the_loop_and_still_releases() {
    let mut kernel = Kernel::new(0);
    let mut log = vec![step(&mut kernel, Observation::Started)];
    log.push(step(&mut kernel, Observation::Acquired(false)));
    finish(&mut kernel, &mut log);
    assert_eq!(
        log,
        vec![
            Action::AcquireTerminal,
            Action::PollPending,
            Action::ReleaseTerminal,
            Action::Exit(StopReason::Failed(ErrorKind::TerminalSetup)),
        ]
    );
    assert_eq!(releases(&log), 1);
    assert_eq!(kernel.session.state, SessionState::Released);
}

#[test]
fn failed_connection_skips_the_loop_and_still_releases() {
    let mut kernel = Kernel::new(0);
    let mut log = vec![step(&mut kernel, Observation::Started)];
    log.push(step(&mut kernel, Observation::Acquired(true)));
    log.push(step(&mut kernel, Observation::Connected(false)));
    finish(&mut kernel, &mut log);
    assert_eq!(
        log,
        vec![
            Action::AcquireTerminal,
            Action::Connect,
            Action::PollPending,
            Action::ReleaseTerminal,
            Action::Exit(StopReason::Failed(ErrorKind::Connection)),
        ]
    );
    assert_eq!(releases(&log), 1);
}

#[test]
fn drain_drops_every_buffered_event_before_the_release() {
    for pending in [0usize, 1, 2, 5, 40] {
        let mut kernel = settled();
        assert_eq!(step(&mut kernel, key_at(chord(), "^C", 1)), Action::PollPending);
        let mut log = Vec::new();
        for _ in 0..pending {
            log.push(step(&mut kernel, Observation::Probed(Probe::Pending)));
            log.push(step(&mut kernel, Observation::Discarded(true)));
        }
        log.push(step(&mut kernel, Observation::Probed(Probe::Empty)));
        let discards = log.iter().filter(|todo| matches!(todo, Action::DiscardPending)).count();
        assert_eq!(discards, pending);
        assert_eq!(log.len(), 2 * pending + 1);
        assert_eq!(log.last(), Some(&Action::ReleaseTerminal));
        assert_eq!(releases(&log), 1);
        assert!(log.iter().all(|todo| !matches!(todo, Action::Dispatch(_))));
        assert_eq!(step(&mut kernel, Observation::Released(true)), Action::Exit(StopReason::Interrupt));
    }
}

#[test]
fn failing_drain_goes_on_to_the_release() {
    let mut kernel = settled();
    assert_eq!(step(&mut kernel, key_at(chord(), "^C", 1)), Action::PollPending);
    assert_eq!(step(&mut kernel, Observation::Probed(Probe::Failed)), Action::ReleaseTerminal);
    assert_eq!(step(&mut kernel, Observation::Released(false)), Action::Exit(StopReason::Interrupt));

    let mut kernel = settled();
    assert_eq!(step(&mut kernel, key_at(chord(), "^C", 1)), Action::PollPending);
    assert_eq!(step(&mut kernel, Observation::Probed(Probe::Pending)), Action::DiscardPending);
    assert_eq!(step(&mut kernel, Observation::Discarded(false)), Action::ReleaseTerminal);
    assert_eq!(kernel.session.state, SessionState::Released);
}

#[test]
fn nothing_is_accepted_after_the_exit() {
    let mut kernel = settled();
    assert_eq!(step(&mut kernel, key_at(chord(), "^C", 1)), Action::PollPending);
    let mut log = Vec::new();
    finish(&mut kernel, &mut log);
    assert!(kernel.is_stopped());
    assert_eq!(kernel.advance(Observation::Started), Err(Observation::Started));
    assert_eq!(kernel.advance(Observation::Released(true)), Err(Observation::Released(true)));
    assert_eq!(kernel.advance(nothing(5)), Err(nothing(5)));
    assert_eq!(
        kernel.advance(Observation::Probed(Probe::Empty)),
        Err(Observation::Probed(Probe::Empty))
    );
    assert_eq!(kernel.phase, Phase::Stopped(StopReason::Interrupt));
}

#[test]
fn report_out_of_turn_changes_nothing() {
    let mut kernel = Kernel::new(0);
    assert_eq!(kernel.advance(Observation::Acquired(true)), Err(Observation::Acquired(true)));
    assert_eq!(kernel.advance(Observation::Rendered(true)), Err(Observation::Rendered(true)));
    assert_eq!(kernel.phase, Phase::Idle);
    assert_eq!(step(&mut kernel, Observation::Started), Action::AcquireTerminal);
    assert_eq!(kernel.advance(Observation::Started), Err(Observation::Started));
    assert_eq!(
        kernel.advance(Observation::Completed(Outcome::Quit)),
        Err(Observation::Completed(Outcome::Quit))
    );
    assert_eq!(kernel.phase, Phase::Acquiring);
    let mut kernel = settled();
    assert_eq!(
        kernel.advance(Observation::Probed(Probe::Empty)),
        Err(Observation::Probed(Probe::Empty))
    );
    assert_eq!(kernel.advance(Observation::Discarded(true)), Err(Observation::Discarded(true)));
    assert_eq!(kernel.phase, Phase::WaitingForEvent);
}

#[test]
fn every_exit_path_releases_exactly_once() {
    let mut logs: Vec<Vec<Todo>> = Vec::new();

    // Quit after some work.
    let mut kernel = settled();
    let mut log = vec![step(&mut kernel, key_at(press('q'), "q", 1))];
    log.push(step(&mut kernel, Observation::Completed(Outcome::Quit)));
    log.push(step(&mut kernel, Observation::Probed(Probe::Pending)));
    log.push(step(&mut kernel, Observation::Discarded(true)));
    finish(&mut kernel, &mut log);
    logs.push(log);

    // A loop of survived refresh failures, then the interrupt.
    let mut kernel = settled();
    let mut log = Vec::new();
    for round in 1..4u64 {
        log.push(step(&mut kernel, nothing(round * 30_000)));
        log.push(step(&mut kernel, Observation::Completed(Outcome::Failed)));
        log.push(step(&mut kernel, Observation::Rendered(true)));
    }
    log.push(step(&mut kernel, key_at(chord(), "^C", 100_000)));
    finish(&mut kernel, &mut log);
    logs.push(log);

    // A fatal failure.
    let mut kernel = settled();
    let mut log = vec![step(&mut kernel, key_at(press('x'), "x", 1))];
    log.push(step(&mut kernel, Observation::Completed(Outcome::Failed)));
    finish(&mut kernel, &mut log);
    logs.push(log);

    for log in logs {
        assert_eq!(releases(&log), 1);
        let at = log.iter().position(|todo| matches!(todo, Action::ReleaseTerminal)).unwrap();
        assert!(at > 0);
        assert!(matches!(log[at - 1], Action::PollPending | Action::DiscardPending));
        assert_eq!(at + 2, log.len());
        assert!(matches!(log[at + 1], Action::Exit(_)));
        let first_look = log.iter().position(|todo| matches!(todo, Action::PollPending)).unwrap();
        assert!(log[first_look..].iter().all(|todo| !matches!(
            todo,
            Action::Dispatch(_) | Action::Render | Action::Await(_)
        )));
    }
}

#[test]
fn stalled_loop_sees_one_tick_of_each_timer() {
    let mut kernel = settled();
    // Busy for ten minutes: twenty foreground periods, five background periods.
    assert_eq!(step(&mut kernel, nothing(600_000)), Action::Dispatch(Event::ForegroundTick));
    assert_eq!(step(&mut kernel, Observation::Completed(Outcome::Handled)), Action::Render);
    assert!(matches!(step(&mut kernel, Observation::Rendered(true)), Action::Await(_)));
    assert_eq!(step(&mut kernel, nothing(600_001)), Action::Dispatch(Event::BackgroundTick));
    assert_eq!(step(&mut kernel, Observation::Completed(Outcome::Handled)), Action::Render);
    assert_eq!(
        step(&mut kernel, Observation::Rendered(true)),
        Action::Await(Wait { notifications: true, timeout_ms: 10 })
    );
    assert!(matches!(step(&mut kernel, nothing(600_002)), Action::Await(_)));
    assert!(matches!(step(&mut kernel, nothing(629_999)), Action::Await(_)));
    assert_eq!(step(&mut kernel, nothing(630_000)), Action::Dispatch(Event::ForegroundTick));
}

#[test]
fn results_of_handlers_are_read_as_outcomes() {
    assert_eq!(Outcome::from_handler::<&str>(&Ok(true)), Outcome::Quit);
    assert_eq!(Outcome::from_handler::<&str>(&Ok(false)), Outcome::Handled);
    assert_eq!(Outcome::from_handler(&Err("broken")), Outcome::Failed);
    assert_eq!(Outcome::from_result::<&str>(&Ok(())), Outcome::Handled);
    assert_eq!(Outcome::from_result(&Err("broken")), Outcome::Failed);
    assert_eq!(Probe::from_poll::<&str>(&Ok(true)), Probe::Pending);
    assert_eq!(Probe::from_poll::<&str>(&Ok(false)), Probe::Empty);
    assert_eq!(Probe::from_poll(&Err("broken")), Probe::Failed);
}

#[test]
fn failed_check_for_input_counts_as_no_input() {
    let found: Result<Option<TerminalInput<&str>>, &str> = Ok(Some(TerminalInput::other("click")));
    let arrival: Arrival<&str, &str> = Arrival::gathered(found, Some("msg"), 7);
    assert_eq!(
        arrival,
        Arrival { input: Some(TerminalInput::other("click")), notification: Some("msg"), now_ms: 7 }
    );
    let none: Result<Option<TerminalInput<&str>>, &str> = Ok(None);
    let arrival: Arrival<&str, &str> = Arrival::gathered(none, None, 8);
    assert_eq!(arrival, Arrival { input: None, notification: None, now_ms: 8 });
    let failed: Result<Option<TerminalInput<&str>>, &str> = Err("no terminal");
    let arrival: Arrival<&str, &str> = Arrival::gathered(failed, Some("msg"), 9);
    assert_eq!(arrival, Arrival { input: None, notification: Some("msg"), now_ms: 9 });
}
