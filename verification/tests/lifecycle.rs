use pty_sessions::table::pty_cleanup;
use pty_sessions::table::pty_kill;
use pty_sessions::table::pty_resize;
use pty_sessions::table::pty_spawn;
use pty_sessions::table::pty_write;
use pty_sessions::table::PtyError;
use pty_sessions::table::PtyResize;
use pty_sessions::table::PtyState;

#[test]
fn spawn_then_lookup_succeeds() {
    let mut st = PtyState::new();
    let r = pty_spawn(&mut st, "s1".to_string(), PtyResize { rows: 24, cols: 80 });
    assert!(r.is_ok());
    assert!(st.contains(&"s1".to_string()));
    assert_eq!(st.dimensions(&"s1".to_string()), Some((24, 80)));
    assert_eq!(st.is_draining(&"s1".to_string()), Some(false));
    assert_eq!(st.write_log(&"s1".to_string()).unwrap().len(), 0);
}

#[test]
fn spawn_stays_visible_through_write_resize_kill() {
    let mut st = PtyState::new();
    pty_spawn(&mut st, "s1".to_string(), PtyResize { rows: 1, cols: 1 }).unwrap();
    assert!(pty_write(&mut st, "s1".to_string(), "x".to_string()));
    assert!(st.contains(&"s1".to_string()));
    assert!(pty_resize(&mut st, "s1".to_string(), PtyResize { rows: 50, cols: 120 }));
    assert!(st.contains(&"s1".to_string()));
    assert_eq!(st.dimensions(&"s1".to_string()), Some((50, 120)));
    assert!(pty_kill(&mut st, "s1".to_string()));
    assert!(st.contains(&"s1".to_string()));
    assert_eq!(st.is_draining(&"s1".to_string()), Some(true));
}

#[test]
fn duplicate_spawn_is_rejected() {
    let mut st = PtyState::new();
    pty_spawn(&mut st, "s1".to_string(), PtyResize { rows: 24, cols: 80 }).unwrap();
    let r = pty_spawn(&mut st, "s1".to_string(), PtyResize { rows: 10, cols: 10 });
    assert_eq!(r, Err(PtyError::DuplicateSession));
    assert_eq!(r.unwrap_err().message(), "duplicate session id");
    // the live session is untouched
    assert_eq!(st.dimensions(&"s1".to_string()), Some((24, 80)));
}

#[test]
fn kill_of_absent_id_is_noop_success() {
    let mut st = PtyState::new();
    assert!(!pty_kill(&mut st, "never".to_string()));
    pty_spawn(&mut st, "s1".to_string(), PtyResize { rows: 24, cols: 80 }).unwrap();
    assert!(pty_kill(&mut st, "s1".to_string()));
    assert!(pty_cleanup(&mut st, "s1".to_string()));
    // already removed: a second kill is still a harmless no-op
    assert!(!pty_kill(&mut st, "s1".to_string()));
    assert!(!st.contains(&"s1".to_string()));
}

#[test]
fn kill_twice_changes_nothing_more() {
    let mut st = PtyState::new();
    pty_spawn(&mut st, "s1".to_string(), PtyResize { rows: 24, cols: 80 }).unwrap();
    assert!(pty_kill(&mut st, "s1".to_string()));
    assert!(pty_kill(&mut st, "s1".to_string()));
    assert!(st.contains(&"s1".to_string()));
    assert_eq!(st.is_draining(&"s1".to_string()), Some(true));
    assert_eq!(st.dimensions(&"s1".to_string()), Some((24, 80)));
}

#[test]
fn entry_is_removed_exactly_once() {
    let mut st = PtyState::new();
    pty_spawn(&mut st, "s1".to_string(), PtyResize { rows: 24, cols: 80 }).unwrap();
    // an explicit kill does not remove the entry ...
    assert!(pty_kill(&mut st, "s1".to_string()));
    assert!(st.contains(&"s1".to_string()));
    // ... only the relay's cleanup on end-of-stream does, once
    assert!(pty_cleanup(&mut st, "s1".to_string()));
    assert!(!st.contains(&"s1".to_string()));
    assert!(!pty_cleanup(&mut st, "s1".to_string()));
}

#[test]
fn writes_arrive_in_order_and_do_not_cross() {
    let mut st = PtyState::new();
    pty_spawn(&mut st, "a".to_string(), PtyResize { rows: 24, cols: 80 }).unwrap();
    pty_spawn(&mut st, "b".to_string(), PtyResize { rows: 24, cols: 80 }).unwrap();
    assert!(pty_write(&mut st, "a".to_string(), "echo ".to_string()));
    assert!(pty_write(&mut st, "b".to_string(), "other".to_string()));
    assert!(pty_write(&mut st, "a".to_string(), "hi\n".to_string()));
    assert_eq!(st.write_log(&"a".to_string()).unwrap(), b"echo hi\n");
    assert_eq!(st.write_log(&"b".to_string()).unwrap(), b"other");
}

#[test]
fn write_to_absent_id_is_noop_success() {
    let mut st = PtyState::new();
    assert!(!pty_write(&mut st, "gone".to_string(), "data".to_string()));
    assert!(!st.contains(&"gone".to_string()));
}

#[test]
fn resize_of_absent_id_is_noop_success() {
    let mut st = PtyState::new();
    assert!(!pty_resize(&mut st, "gone".to_string(), PtyResize { rows: 1, cols: 1 }));
    assert!(!st.contains(&"gone".to_string()));
}

#[test]
fn removed_id_can_be_reused_fresh() {
    let mut st = PtyState::new();
    pty_spawn(&mut st, "A".to_string(), PtyResize { rows: 24, cols: 80 }).unwrap();
    pty_write(&mut st, "A".to_string(), "old input".to_string());
    pty_kill(&mut st, "A".to_string());
    pty_cleanup(&mut st, "A".to_string());
    // the id is free again, and nothing of the old session leaks through
    let r = pty_spawn(&mut st, "A".to_string(), PtyResize { rows: 30, cols: 90 });
    assert!(r.is_ok());
    assert_eq!(st.dimensions(&"A".to_string()), Some((30, 90)));
    assert_eq!(st.is_draining(&"A".to_string()), Some(false));
    assert_eq!(st.write_log(&"A".to_string()).unwrap().len(), 0);
}
