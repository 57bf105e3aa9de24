use gui_logic::backend::{
    parse_command, Event, ExitStatus, Exited, Input, Message, Phase, RegisterError, Supervisor,
};

fn record(status: ExitStatus, stdout: &str, stderr: &str) -> Exited {
    Exited { status, stdout: stdout.to_owned(), stderr: stderr.to_owned() }
}

#[test]
fn parse_program_and_args() {
    let r = parse_command("echo hello");
    assert_eq!(r.program, "echo");
    assert_eq!(r.args, vec!["hello".to_owned()]);
}

#[test]
fn parse_empty_line() {
    let r = parse_command("");
    assert_eq!(r.program, "");
    assert!(r.args.is_empty());
}

#[test]
fn parse_single_program() {
    let r = parse_command("ls");
    assert_eq!(r.program, "ls");
    assert!(r.args.is_empty());
}

#[test]
fn parse_keeps_empty_segments() {
    let r = parse_command("a  b ");
    assert_eq!(r.program, "a");
    assert_eq!(r.args, vec!["".to_owned(), "b".to_owned(), "".to_owned()]);
}

#[test]
fn parse_leading_space_gives_empty_program() {
    let r = parse_command(" ls");
    assert_eq!(r.program, "");
    assert_eq!(r.args, vec!["ls".to_owned()]);
}

#[test]
fn exit_status_success() {
    assert!(ExitStatus::Code(0).success());
    assert!(!ExitStatus::Code(1).success());
    assert!(!ExitStatus::Killed.success());
}

#[test]
fn capture_is_idempotent() {
    let e = record(ExitStatus::Code(0), "hello\n", "warning\n");
    let first = e.stdout().clone();
    let second = e.stdout().clone();
    assert_eq!(first, second);
    let err_first = e.stderr().clone();
    let err_second = e.stderr().clone();
    assert_eq!(err_first, err_second);
}

#[test]
fn echo_hello_lifecycle() {
    // One successful run: a Spawned notification, then one Exited with a
    // success status and the captured greeting.
    let mut s = Supervisor::new();
    assert_eq!(s.setup(), Message::Setup);

    let parsed = parse_command("echo hello");
    assert_eq!(parsed.program, "echo");

    let spawned = s.register(42).unwrap();
    assert_eq!(spawned, Message::Spawned(42));

    let out = s.handle_exit(42, Ok(record(ExitStatus::Code(0), "hello\n", "")));
    assert_eq!(out.len(), 1);
    match &out[0] {
        Message::ProcessExited(id, Ok(e)) => {
            assert_eq!(*id, 42);
            assert!(e.status.success());
            assert!(e.stdout().contains("hello"));
        }
        other => panic!("unexpected notification: {:?}", other),
    }
    assert!(s.active.is_empty());
    assert_eq!(s.phase, Phase::Active);
}

#[test]
fn duplicate_id_is_refused() {
    let mut s = Supervisor::new();
    s.setup();
    s.register(7).unwrap();
    assert_eq!(s.register(7), Err(RegisterError::DuplicateId));
    assert_eq!(s.active.len(), 1);
}

#[test]
fn retired_id_is_never_reinserted() {
    let mut s = Supervisor::new();
    s.setup();
    s.register(7).unwrap();
    s.handle_exit(7, Ok(record(ExitStatus::Code(0), "", "")));
    assert_eq!(s.register(7), Err(RegisterError::DuplicateId));
    assert!(s.active.is_empty());
}

#[test]
fn register_before_setup_is_refused() {
    let mut s = Supervisor::new();
    assert_eq!(s.register(1), Err(RegisterError::NotAccepting));
}

#[test]
fn shutdown_kills_all_then_completes() {
    // Two long-running children, then shutdown: both are listed for
    // termination, each yields one Exited with a killed status, and the
    // completion notification comes last.
    let mut s = Supervisor::new();
    s.setup();
    s.register(1).unwrap();
    s.register(2).unwrap();

    let (kill, note) = s.request_shutdown();
    assert_eq!(kill, vec![1, 2]);
    assert!(note.is_none());
    assert_eq!(s.phase, Phase::ShuttingDown);

    let first = s.handle_exit(1, Ok(record(ExitStatus::Killed, "", "")));
    assert_eq!(first.len(), 1);
    match &first[0] {
        Message::ProcessExited(1, Ok(e)) => assert_eq!(e.status, ExitStatus::Killed),
        other => panic!("unexpected notification: {:?}", other),
    }

    let second = s.handle_exit(2, Ok(record(ExitStatus::Killed, "", "")));
    assert_eq!(second.len(), 2);
    match &second[0] {
        Message::ProcessExited(2, Ok(e)) => assert_eq!(e.status, ExitStatus::Killed),
        other => panic!("unexpected notification: {:?}", other),
    }
    assert_eq!(second[1], Message::Closed);

    assert_eq!(s.phase, Phase::Closed);
    assert!(s.active.is_empty());
}

#[test]
fn closed_supervisor_emits_nothing() {
    let mut s = Supervisor::new();
    s.setup();
    let (_, note) = s.request_shutdown();
    assert_eq!(note, Some(Message::Closed));
    assert_eq!(s.phase, Phase::Closed);
    assert!(s.active.is_empty());

    assert_eq!(s.register(9), Err(RegisterError::NotAccepting));
    let out = s.handle_exit(9, Err("late".to_owned()));
    assert!(out.is_empty());
    assert!(s.active.is_empty());
}

#[test]
fn exit_of_unknown_id_is_ignored() {
    let mut s = Supervisor::new();
    s.setup();
    s.register(3).unwrap();
    let out = s.handle_exit(4, Err("unknown".to_owned()));
    assert!(out.is_empty());
    assert_eq!(s.active, vec![3]);
}

#[test]
fn exit_error_is_passed_through() {
    // A child whose status could not be read still produces one
    // notification, carrying the error.
    let mut s = Supervisor::new();
    s.setup();
    s.register(5).unwrap();
    let out = s.handle_exit(5, Err("status unavailable".to_owned()));
    assert_eq!(out.len(), 1);
    assert_eq!(
        out[0],
        Message::ProcessExited(5, Err("status unavailable".to_owned()))
    );
}

#[test]
fn step_multiplexes_events_and_exits() {
    let mut s = Supervisor::new();
    s.setup();

    let waited = s.step(Input::Event(Event::Wait(11)));
    assert_eq!(waited.notifications, vec![Message::Spawned(11)]);
    assert!(waited.kill.is_empty());

    let again = s.step(Input::Event(Event::Wait(11)));
    assert!(again.notifications.is_empty());
    assert!(again.kill.is_empty());

    let closing = s.step(Input::Event(Event::Close));
    assert!(closing.notifications.is_empty());
    assert_eq!(closing.kill, vec![11]);

    let reaped = s.step(Input::Process(11, Ok(record(ExitStatus::Killed, "", ""))));
    assert!(reaped.kill.is_empty());
    assert_eq!(reaped.notifications.len(), 2);
    assert_eq!(reaped.notifications[1], Message::Closed);
    assert_eq!(s.phase, Phase::Closed);
}
