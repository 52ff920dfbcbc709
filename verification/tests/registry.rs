use tip_term::{SessionError, TerminalState};

#[test]
fn create_issues_fresh_ids() {
    let mut reg = TerminalState::new();
    let a = reg.create_session(80, 24, 100);
    let b = reg.create_session(80, 24, 101);
    assert_ne!(a, b);
    assert!(reg.has_session(a));
    assert!(reg.has_session(b));
}

#[test]
fn ids_are_never_reused_after_close() {
    let mut reg = TerminalState::new();
    let a = reg.create_session(80, 24, 100);
    reg.close_session(a);
    let b = reg.create_session(80, 24, 100);
    assert_ne!(a, b);
    assert!(!reg.has_session(a));
    assert!(reg.has_session(b));
}

#[test]
fn close_nonexistent_succeeds_then_write_not_found() {
    let mut reg = TerminalState::new();
    // Closing an id that never existed is fine.
    reg.close_session(12345);
    // A later write against that id reports NotFound.
    assert_eq!(reg.write_to_session(12345), Err(SessionError::NotFound));
}

#[test]
fn close_then_write_not_found() {
    let mut reg = TerminalState::new();
    let id = reg.create_session(80, 24, 100);
    assert_eq!(reg.write_to_session(id), Ok(()));
    reg.close_session(id);
    assert_eq!(reg.write_to_session(id), Err(SessionError::NotFound));
    // Closing again still succeeds.
    reg.close_session(id);
    assert_eq!(reg.write_to_session(id), Err(SessionError::NotFound));
}

#[test]
fn close_leaves_other_sessions_alone() {
    let mut reg = TerminalState::new();
    let a = reg.create_session(80, 24, 100);
    let b = reg.create_session(80, 24, 101);
    let c = reg.create_session(80, 24, 102);
    reg.close_session(b);
    assert!(reg.has_session(a));
    assert!(!reg.has_session(b));
    assert!(reg.has_session(c));
    assert_eq!(reg.get_session_info(a), Ok(100));
    assert_eq!(reg.get_session_info(c), Ok(102));
}

#[test]
fn feed_unknown_session_not_found() {
    let mut reg = TerminalState::new();
    assert_eq!(reg.feed_session(7, b"data"), Err(SessionError::NotFound));
}

#[test]
fn feed_reaches_the_right_session() {
    let mut reg = TerminalState::new();
    let a = reg.create_session(10, 3, 100);
    let b = reg.create_session(10, 3, 101);
    assert_eq!(reg.feed_session(a, b"AA"), Ok(()));
    assert_eq!(reg.feed_session(b, b"B"), Ok(()));
    let snap_a = reg.snapshot_session(a).unwrap().expect("a is dirty");
    let snap_b = reg.snapshot_session(b).unwrap().expect("b is dirty");
    assert_eq!(snap_a.cells[0].glyph, 'A');
    assert_eq!(snap_a.cells[1].glyph, 'A');
    assert_eq!(snap_b.cells[0].glyph, 'B');
    assert_eq!(snap_b.cells[1].glyph, ' ');
}

#[test]
fn resize_through_registry() {
    let mut reg = TerminalState::new();
    let id = reg.create_session(80, 24, 100);
    assert_eq!(reg.feed_session(id, b"text"), Ok(()));
    assert_eq!(reg.resize_terminal(id, 40, 10), Ok(()));
    let snap = reg.snapshot_session(id).unwrap().expect("resize marks dirty");
    assert_eq!(snap.cols, 40);
    assert_eq!(snap.rows, 10);
    assert_eq!(snap.cells.len(), 400);
    for cell in &snap.cells {
        assert_eq!(cell.glyph, ' ');
    }
    assert_eq!(reg.resize_terminal(999, 40, 10), Err(SessionError::NotFound));
}

#[test]
fn snapshot_is_edge_triggered_per_session() {
    let mut reg = TerminalState::new();
    let id = reg.create_session(10, 3, 100);
    assert!(reg.snapshot_session(id).unwrap().is_some());
    assert!(reg.snapshot_session(id).unwrap().is_none());
    reg.feed_session(id, b"x").unwrap();
    assert!(reg.snapshot_session(id).unwrap().is_some());
    assert!(reg.snapshot_session(id).unwrap().is_none());
    assert!(matches!(reg.snapshot_session(4242), Err(SessionError::NotFound)));
}

#[test]
fn get_session_info_reports_pid_or_not_found() {
    let mut reg = TerminalState::new();
    let id = reg.create_session(80, 24, 4321);
    assert_eq!(reg.get_session_info(id), Ok(4321));
    assert_eq!(reg.get_session_info(id + 1), Err(SessionError::NotFound));
    reg.close_session(id);
    assert_eq!(reg.get_session_info(id), Err(SessionError::NotFound));
}
