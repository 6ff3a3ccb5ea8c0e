use stdio_utils::fd_table::{FdTable, FileKind, BAD_DESCRIPTOR};
use stdio_utils::{null, override_stdio, OwnedFd, Stdio, StdioOp, StdioOverride};

#[test]
fn restore_round_trip() {
    let mut t = FdTable::new();
    let sink = OwnedFd::from_raw(t.open_file(FileKind::Regular));
    let mut guard = sink.override_stdout(&mut t).unwrap();
    t.write(1, b"redirected").unwrap();
    guard.release(&mut t);
    // after release, conventional output reaches the original target again
    t.write(1, b"back home").unwrap();
    assert_eq!(t.read_all(sink.as_raw()).unwrap(), b"redirected".to_vec());
    assert_eq!(t.read_all(1).unwrap(), b"back home".to_vec());
}

#[test]
fn stdin_reads_pre_populated_file_exactly() {
    let mut t = FdTable::new();
    let source = OwnedFd::from_raw(t.open_file(FileKind::Regular));
    t.write(source.as_raw(), b"hello world!").unwrap();
    let mut guard = source.override_stdin(&mut t).unwrap();
    assert_eq!(t.read_all(0).unwrap(), b"hello world!".to_vec());
    guard.release(&mut t);
}

#[test]
fn release_twice_is_noop() {
    let mut t = FdTable::new();
    let sink = OwnedFd::from_raw(t.open_file(FileKind::Regular));
    let mut guard = sink.override_stdout(&mut t).unwrap();
    let backup = guard.borrow_inner();
    guard.release(&mut t);
    assert!(!t.is_open_fd(backup));
    t.write(1, b"first").unwrap();
    guard.release(&mut t);
    // the second release re-installed nothing
    assert!(!t.is_open_fd(backup));
    t.write(1, b"second").unwrap();
    assert_eq!(t.read_all(1).unwrap(), b"firstsecond".to_vec());
    assert_eq!(t.read_all(sink.as_raw()).unwrap(), b"".to_vec());
}

#[test]
fn lifo_nesting_restores_first_state() {
    let mut t = FdTable::new();
    let first = OwnedFd::from_raw(t.open_file(FileKind::Regular));
    let second = OwnedFd::from_raw(t.open_file(FileKind::Regular));
    let mut g1 = first.override_stdout(&mut t).unwrap();
    let mut g2 = second.override_stdout(&mut t).unwrap();
    t.write(1, b"to second").unwrap();
    g2.release(&mut t);
    t.write(1, b"to first").unwrap();
    g1.release(&mut t);
    t.write(1, b"to stdout").unwrap();
    assert_eq!(t.read_all(first.as_raw()).unwrap(), b"to first".to_vec());
    assert_eq!(t.read_all(second.as_raw()).unwrap(), b"to second".to_vec());
    assert_eq!(t.read_all(1).unwrap(), b"to stdout".to_vec());
}

#[test]
fn wrong_order_release_does_not_crash() {
    let mut t = FdTable::new();
    let first = OwnedFd::from_raw(t.open_file(FileKind::Regular));
    let second = OwnedFd::from_raw(t.open_file(FileKind::Regular));
    let mut g1 = first.override_stdout(&mut t).unwrap();
    let mut g2 = second.override_stdout(&mut t).unwrap();
    // releasing the outer guard first is out of contract but must stay safe
    g1.release(&mut t);
    g2.release(&mut t);
    assert!(t.is_open_fd(1));
}

#[test]
fn forget_makes_override_permanent() {
    let mut t = FdTable::new();
    let sink = OwnedFd::from_raw(t.open_file(FileKind::Regular));
    let guard = sink.override_stdout(&mut t).unwrap();
    let backup = guard.borrow_inner();
    guard.forget(&mut t);
    assert!(!t.is_open_fd(backup));
    t.write(1, b"still redirected").unwrap();
    assert_eq!(t.read_all(sink.as_raw()).unwrap(), b"still redirected".to_vec());
    assert_eq!(t.read_all(1).unwrap(), b"still redirected".to_vec());
}

#[test]
fn into_inner_hands_out_backup() {
    let mut t = FdTable::new();
    let sink = OwnedFd::from_raw(t.open_file(FileKind::Regular));
    let guard = sink.override_stdout(&mut t).unwrap();
    let backup_fd = guard.borrow_inner();
    let backup = guard.into_inner();
    assert_eq!(backup.as_raw(), backup_fd);
    assert!(t.is_open_fd(backup.as_raw()));
    // the caller may restore manually through the install primitive
    t.install(backup.as_raw(), Stdio::Stdout).unwrap();
    t.write(1, b"manual restore").unwrap();
    assert_eq!(t.read_all(1).unwrap(), b"manual restore".to_vec());
    assert_eq!(t.read_all(sink.as_raw()).unwrap(), b"".to_vec());
}

#[test]
fn null_sink_discards_and_reads_empty() {
    let mut t = FdTable::new();
    let f = null(&mut t);
    t.write(f.as_raw(), b"gone").unwrap();
    t.write(f.as_raw(), b"gone again").unwrap();
    assert_eq!(t.read_all(f.as_raw()).unwrap(), b"".to_vec());
}

#[test]
fn cross_stream_independence() {
    let mut t = FdTable::new();
    t.write(0, b"input").unwrap();
    t.write(2, b"error").unwrap();
    let sink = OwnedFd::from_raw(t.open_file(FileKind::Regular));
    let mut guard = sink.override_stdout(&mut t).unwrap();
    assert_eq!(t.read_all(0).unwrap(), b"input".to_vec());
    assert_eq!(t.read_all(2).unwrap(), b"error".to_vec());
    guard.release(&mut t);
    assert_eq!(t.read_all(0).unwrap(), b"input".to_vec());
    assert_eq!(t.read_all(2).unwrap(), b"error".to_vec());
}

#[test]
fn override_fails_when_stream_unset() {
    let mut t = FdTable::new();
    let sink = OwnedFd::from_raw(t.open_file(FileKind::Regular));
    t.close(1).unwrap();
    let e = sink.override_stdout(&mut t).unwrap_err();
    assert_eq!(e.op, StdioOp::QueryCurrent);
    assert_eq!(e.code, BAD_DESCRIPTOR);
}

#[test]
fn override_fails_on_dangling_resource() {
    let mut t = FdTable::new();
    let dangling = OwnedFd::from_raw(99);
    let e = dangling.override_stdout(&mut t).unwrap_err();
    assert_eq!(e.op, StdioOp::Duplicate);
    assert_eq!(e.code, BAD_DESCRIPTOR);
    // the failed override left the stream in place
    t.write(1, b"untouched").unwrap();
    assert_eq!(t.read_all(1).unwrap(), b"untouched".to_vec());
}

#[test]
fn query_failure_beats_duplicate_failure() {
    let mut t = FdTable::new();
    t.close(2).unwrap();
    let e = override_stdio(&mut t, 99, Stdio::Stderr).unwrap_err();
    assert_eq!(e.op, StdioOp::QueryCurrent);
}
