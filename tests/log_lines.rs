use mineguard::{event_of_line, InternalEvent, LogLevel, LogMeta};

#[test]
fn ready_line_yields_one_start_signal() {
    let line = "[12:34:56] [Server thread/INFO]: Done (3.2s)!";
    let meta = LogMeta::new(line).unwrap().unwrap();
    assert_eq!(meta.time, "12:34:56");
    assert_eq!(meta.thread, "Server thread");
    assert_eq!(meta.level, LogLevel::Info);
    assert_eq!(meta.msg, "Done (3.2s)!");
    assert_eq!(meta.parse_event(), Ok(Some(InternalEvent::ServerStarted)));
    assert_eq!(event_of_line(line), Some(InternalEvent::ServerStarted));
}

#[test]
fn other_thread_level_or_message_yields_nothing() {
    assert_eq!(event_of_line("[12:34:56] [Worker-Main/INFO]: Done (3.2s)!"), None);
    assert_eq!(event_of_line("[12:34:56] [Server thread/WARN]: Done (3.2s)!"), None);
    assert_eq!(event_of_line("[12:34:56] [Server thread/INFO]: Preparing spawn area"), None);
    assert_eq!(event_of_line("[12:34:56] [Server thread/INFO]: Done (s)!"), None);
    assert_eq!(event_of_line("Done (3.2s)!"), None);
}

#[test]
fn ready_marker_may_stand_inside_the_message() {
    assert_eq!(
        event_of_line("  [00:00:01] [Server thread/INFO]: World Done (12s)! For help, type \"help\"  "),
        Some(InternalEvent::ServerStarted)
    );
}

#[test]
fn levels_are_recognised() {
    let warn = LogMeta::new("[1] [a/WARN]: x").unwrap().unwrap();
    assert_eq!(warn.level, LogLevel::Warn);
    let error = LogMeta::new("[1] [a/ERROR]]: x").unwrap().unwrap();
    assert_eq!(error.level, LogLevel::Error);
    let other = LogMeta::new("[1] [a/DEBUG]: x").unwrap().unwrap();
    assert_eq!(other.level, LogLevel::Other);
    assert_eq!(other.thread, "a");
}

#[test]
fn lines_outside_the_grammar_are_no_record() {
    assert_eq!(LogMeta::new("plain text"), Ok(None));
    assert_eq!(LogMeta::new("[12:00:00 no close"), Ok(None));
    assert_eq!(LogMeta::new("[12:00:00] no second bracket"), Ok(None));
    assert_eq!(LogMeta::new("[12:00:00] [Server thread/INFO] missing colon"), Ok(None));
    assert_eq!(LogMeta::new(""), Ok(None));
}

#[test]
fn second_bracket_without_slash_is_no_record() {
    assert_eq!(LogMeta::new("[12:00:00] [Server thread]: hi"), Ok(None));
    assert_eq!(event_of_line("[12:00:00] [Server thread]: Done (1s)!"), None);
}

#[test]
fn records_show_one_field_per_line() {
    let meta = LogMeta::new("[12:34:56] [Server thread/WARN]: Low memory").unwrap().unwrap();
    assert_eq!(
        meta.to_string(),
        "Time: 12:34:56\nThread: Server thread\nLevel: WARN\nMessage: Low memory"
    );
    assert_eq!(LogLevel::Info.to_string(), "INFO");
    assert_eq!(LogLevel::Error.to_string(), "ERROR");
    assert_eq!(LogLevel::Other.to_string(), "OTHER");
}
