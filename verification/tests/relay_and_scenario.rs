use pty_sessions::relay::pty_event_name;
use pty_sessions::relay::relay_step;
use pty_sessions::relay::RelayStep;
use pty_sessions::table::pty_cleanup;
use pty_sessions::table::pty_kill;
use pty_sessions::table::pty_spawn;
use pty_sessions::table::pty_write;
use pty_sessions::table::PtyResize;
use pty_sessions::table::PtyState;

#[test]
fn event_name_is_prefix_plus_id() {
    assert_eq!(pty_event_name("s1"), "pty_data_s1");
    assert_eq!(pty_event_name(""), "pty_data_");
}

#[test]
fn data_chunk_becomes_text_event() {
    match relay_step(b"hi\r\n") {
        RelayStep::Output(s) => assert_eq!(s, "hi\r\n"),
        RelayStep::Exited(_) => panic!("a nonempty read must be an output chunk"),
    }
}

#[test]
fn invalid_bytes_are_replaced_not_fatal() {
    match relay_step(&[0x68, 0x69, 0xff, 0xfe, 0x21]) {
        RelayStep::Output(s) => assert_eq!(s, "hi\u{fffd}\u{fffd}!"),
        RelayStep::Exited(_) => panic!("a nonempty read must be an output chunk"),
    }
}

#[test]
fn eof_yields_exit_marker() {
    match relay_step(&[]) {
        RelayStep::Exited(s) => assert_eq!(s, "\r\n[Process exited]\r\n"),
        RelayStep::Output(_) => panic!("a zero-byte read must end the stream"),
    }
}

#[test]
fn eof_then_cleanup_removes_session() {
    let mut st = PtyState::new();
    pty_spawn(&mut st, "s1".to_string(), PtyResize { rows: 24, cols: 80 }).unwrap();
    // the relay observed a zero-byte read on s1's stream
    let marker = match relay_step(&[]) {
        RelayStep::Exited(s) => s,
        RelayStep::Output(_) => panic!("a zero-byte read must end the stream"),
    };
    assert_eq!(marker, "\r\n[Process exited]\r\n");
    assert!(pty_cleanup(&mut st, "s1".to_string()));
    assert!(!st.contains(&"s1".to_string()));
}

#[test]
fn full_session_scenario() {
    // spawn("s1", 24, 80): a 24x80 session is registered
    let mut st = PtyState::new();
    pty_spawn(&mut st, "s1".to_string(), PtyResize { rows: 24, cols: 80 }).unwrap();
    assert_eq!(st.dimensions(&"s1".to_string()), Some((24, 80)));
    assert_eq!(pty_event_name("s1"), "pty_data_s1");

    // write("s1", "echo hi\n"): the bytes go to s1's input, in order
    assert!(pty_write(&mut st, "s1".to_string(), "echo hi\n".to_string()));
    assert_eq!(st.write_log(&"s1".to_string()).unwrap(), b"echo hi\n");

    // the child echoes: its output arrives as a text event on s1's stream
    match relay_step(b"hi\r\n") {
        RelayStep::Output(s) => assert_eq!(s, "hi\r\n"),
        RelayStep::Exited(_) => panic!("a nonempty read must be an output chunk"),
    }

    // kill("s1"): termination is requested, the entry drains but stays
    assert!(pty_kill(&mut st, "s1".to_string()));
    assert_eq!(st.is_draining(&"s1".to_string()), Some(true));

    // the relay sees end-of-stream, emits the marker, erases the entry
    match relay_step(&[]) {
        RelayStep::Exited(s) => assert_eq!(s, "\r\n[Process exited]\r\n"),
        RelayStep::Output(_) => panic!("a zero-byte read must end the stream"),
    }
    assert!(pty_cleanup(&mut st, "s1".to_string()));
    assert!(!st.contains(&"s1".to_string()));
}
