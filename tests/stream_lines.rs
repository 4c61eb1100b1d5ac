use mineguard::{EventPayload, InstanceEvent, InstanceStatus, StreamLine, StreamSource};

#[test]
fn display_lines_lose_their_log_prefix() {
    let l = StreamLine::new("[12:34:56] [Server thread/INFO]:   Done (3.2s)!", StreamSource::Stdout);
    assert_eq!(l.line, "Done (3.2s)!");
    assert_eq!(l.source, StreamSource::Stdout);
    let plain = StreamLine::new("no prefix here", StreamSource::Stderr);
    assert_eq!(plain.line, "no prefix here");
    assert_eq!(plain.source, StreamSource::Stderr);
}

#[test]
fn output_lines_are_kept_without_their_prefix() {
    let out = StreamLine::stdout("[12:34:56] [Server thread/INFO]: Done (3.2s)!");
    assert_eq!(out.msg(), "Done (3.2s)!");
    assert_eq!(out.source, StreamSource::Stdout);
    let err = StreamLine::stderr("[12:34:56] [main/WARN]:\tdisk low");
    assert_eq!(err.to_string(), "disk low");
    assert_eq!(err.source, StreamSource::Stderr);
    let plain = StreamLine::stderr("oops");
    assert_eq!(plain.msg(), "oops");
}

#[test]
fn time_token_is_the_first_bracket() {
    let l = StreamLine::stdout("x [12:34:56] [Server thread/INFO]: hi");
    assert_eq!(l.time_token(), Some("12:34:56".to_string()));
    assert_eq!(StreamLine::stdout("no token").time_token(), None);
    assert_eq!(StreamLine::stdout("[a\n] [b]").time_token(), Some("b".to_string()));
}

#[test]
fn timestamps_need_a_time_of_day() {
    assert_eq!(StreamLine::stdout("no token").extract_timestamp(), None);
    assert_eq!(StreamLine::stdout("[Server thread/INFO]").extract_timestamp(), None);
    assert_eq!(StreamLine::stdout("[25:00:00] x").extract_timestamp(), None);
}

#[test]
fn events_take_the_read_time_or_now() {
    let e = InstanceEvent::from_line(StreamLine::stdout("no token"), 7, None, 1234);
    assert_eq!(e.id, 7);
    assert_eq!(e.timestamp, 1234);
    assert_eq!(e.payload, EventPayload::StdLine { line: StreamLine::stdout("no token") });
    let stamped = InstanceEvent::from_line(StreamLine::stdout("x"), 8, Some(99), 1234);
    assert_eq!(stamped.timestamp, 99);
}

#[test]
fn output_events_keep_the_display_line() {
    let e = InstanceEvent::stdout("[12:00:00] [Server thread/INFO]: Done (0.1s)!");
    assert_eq!(
        e.payload,
        EventPayload::StdLine {
            line: StreamLine { line: "Done (0.1s)!".to_string(), source: StreamSource::Stdout }
        }
    );
    let f = InstanceEvent::stdout("no token");
    assert_eq!(f.payload, EventPayload::StdLine { line: StreamLine::stdout("no token") });
}

#[test]
fn line_events_carry_the_line_and_a_v4_id() {
    let e = InstanceEvent::stdout("hello");
    assert_eq!(e.payload, EventPayload::StdLine { line: StreamLine::stdout("hello") });
    assert_eq!((e.id >> 76) & 0xf, 4);
    assert_eq!((e.id >> 62) & 0x3, 2);
    let f = InstanceEvent::stderr("bad");
    assert_eq!(f.payload, EventPayload::StdLine { line: StreamLine::stderr("bad") });
    assert_ne!(e.id, f.id);
}

#[test]
fn state_change_events_record_both_states() {
    let e = InstanceEvent::state_change(InstanceStatus::Starting, InstanceStatus::Running);
    assert_eq!(
        e.payload,
        EventPayload::StateChange { old: InstanceStatus::Starting, new: InstanceStatus::Running }
    );
    let w = InstanceEvent::with_payload(3, 4, e.payload.clone());
    assert_eq!((w.id, w.timestamp), (3, 4));
}

#[test]
fn free_timestamp_reader_agrees_with_lines() {
    assert_eq!(mineguard::extract_timestamp("no token"), None);
    assert_eq!(mineguard::extract_timestamp("[noon] x"), None);
    let line = "[08:15:30] [Server thread/INFO]: x";
    assert_eq!(
        mineguard::extract_timestamp(line).is_some(),
        StreamLine { line: line.to_string(), source: StreamSource::Stdout }.extract_timestamp().is_some()
    );
}

#[test]
fn events_render_their_parts() {
    let line = EventPayload::StdLine { line: StreamLine::stdout("hello") };
    assert_eq!(
        mineguard::stream::render_event("id", "t", &line),
        "UUID: id\nTimestamp:t\nPayload:\nhello\n"
    );
    let change = EventPayload::StateChange { old: InstanceStatus::Stopped, new: InstanceStatus::Starting };
    assert_eq!(
        mineguard::stream::render_event("id", "t", &change),
        "UUID: id\nTimestamp:t\nPayload:\nState changed: Stopped -> Starting\n"
    );
    assert_eq!(InstanceStatus::Crashed.name(), "Crashed");
}

#[test]
fn events_show_uuid_and_utc_time() {
    let e = InstanceEvent::with_payload(
        0x67e5504410b1426f9247bb680e5fe0c8,
        0,
        EventPayload::StdLine { line: StreamLine::stdout("x") },
    );
    assert_eq!(
        e.to_string(),
        "UUID: 67e55044-10b1-426f-9247-bb680e5fe0c8\nTimestamp:1970-01-01 00:00:00 UTC\nPayload:\nx\n"
    );
    let far = InstanceEvent::with_payload(1, i64::MAX, EventPayload::StdLine { line: StreamLine::stdout("y") });
    assert!(far.to_string().contains("\nTimestamp:out of range\n"));
}
