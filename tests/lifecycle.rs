use mineguard::{
    command_text, event_of_line, EventPayload, InstanceStatus, InternalEvent, Lifecycle, ServerError,
    StreamSource, SubscribeError,
};

fn change(old: InstanceStatus, new: InstanceStatus) -> EventPayload {
    EventPayload::StateChange { old, new }
}

#[test]
fn start_with_a_child_is_refused() {
    let mut l = Lifecycle::new();
    assert_eq!(l.validate_start(), Ok(change(InstanceStatus::Stopped, InstanceStatus::Starting)));
    l.attach_child();
    let before = l;
    assert_eq!(l.validate_start(), Err(ServerError::AlreadyRunning));
    assert_eq!(l, before);
    assert!(l.has_child());
}

#[test]
fn stop_and_kill_without_a_child_are_refused() {
    let mut l = Lifecycle::new();
    assert_eq!(l.begin_stop(), Err(ServerError::NotRunning));
    assert_eq!(l.begin_kill(), Err(ServerError::NotRunning));
    assert_eq!(l.status(), InstanceStatus::Stopped);
    assert_eq!(l, Lifecycle::new());
}

#[test]
fn running_only_after_the_ready_line() {
    let mut l = Lifecycle::new();
    l.validate_start().unwrap();
    l.attach_child();
    assert_eq!(l.status(), InstanceStatus::Starting);
    assert_eq!(event_of_line("[12:00:00] [Server thread/INFO]: Starting server"), None);
    assert_eq!(l.status(), InstanceStatus::Starting);
    let signal = event_of_line("[12:00:00] [Server thread/INFO]: Done (0.1s)!").unwrap();
    assert_eq!(
        l.on_signal(signal),
        Some(change(InstanceStatus::Starting, InstanceStatus::Running))
    );
    assert_eq!(l.status(), InstanceStatus::Running);
    assert_eq!(l.on_signal(InternalEvent::ServerStarted), None);
    assert_eq!(l.status(), InstanceStatus::Running);
}

#[test]
fn early_exit_is_a_crash() {
    let mut l = Lifecycle::new();
    l.validate_start().unwrap();
    l.attach_child();
    assert_eq!(
        l.on_stream_closed(),
        Some(change(InstanceStatus::Starting, InstanceStatus::Crashed))
    );
    assert_eq!(l.on_stream_closed(), None);
    assert_eq!(l.status(), InstanceStatus::Crashed);
}

#[test]
fn crash_while_running() {
    let mut l = Lifecycle::new();
    l.validate_start().unwrap();
    l.attach_child();
    l.on_signal(InternalEvent::ServerStarted);
    assert_eq!(
        l.on_stream_closed(),
        Some(change(InstanceStatus::Running, InstanceStatus::Crashed))
    );
}

#[test]
fn stop_then_restart() {
    let mut l = Lifecycle::new();
    l.validate_start().unwrap();
    l.attach_child();
    l.on_signal(InternalEvent::ServerStarted);
    assert_eq!(l.begin_stop(), Ok(change(InstanceStatus::Running, InstanceStatus::Stopping)));
    assert_eq!(l.on_stream_closed(), None);
    assert_eq!(l.finish(), Some(change(InstanceStatus::Stopping, InstanceStatus::Stopped)));
    assert!(!l.has_child());
    assert_eq!(l.finish(), None);
    assert_eq!(l.validate_start(), Ok(change(InstanceStatus::Stopped, InstanceStatus::Starting)));
}

#[test]
fn kill_ends_killed() {
    let mut l = Lifecycle::new();
    l.validate_start().unwrap();
    l.attach_child();
    assert_eq!(l.begin_kill(), Ok(change(InstanceStatus::Starting, InstanceStatus::Killing)));
    assert_eq!(l.finish(), Some(change(InstanceStatus::Killing, InstanceStatus::Killed)));
    assert_eq!(l.status(), InstanceStatus::Killed);
    assert_eq!(l.begin_kill(), Err(ServerError::NotRunning));
}

#[test]
fn stderr_needs_a_started_process() {
    let mut l = Lifecycle::new();
    assert_eq!(l.subscribe(StreamSource::Stderr), Err(SubscribeError::NoStderr));
    assert_eq!(l.subscribe(StreamSource::Stdout), Ok(StreamSource::Stdout));
    assert_eq!(l.subscribe(StreamSource::Event), Ok(StreamSource::Event));
    l.validate_start().unwrap();
    l.attach_child();
    assert_eq!(l.subscribe(StreamSource::Stderr), Ok(StreamSource::Stderr));
}

#[test]
fn commands_end_with_one_newline() {
    assert_eq!(command_text("stop"), "stop\n");
    assert_eq!(command_text("say hi\n"), "say hi\n");
    assert_eq!(command_text(""), "\n");
}
