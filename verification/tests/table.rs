use stdio_utils::fd_table::{FdTable, FileKind, BAD_DESCRIPTOR};
use stdio_utils::Stdio;

#[test]
fn fresh_table_has_three_streams() {
    let t = FdTable::new();
    assert!(t.is_open_fd(0));
    assert!(t.is_open_fd(1));
    assert!(t.is_open_fd(2));
    assert!(!t.is_open_fd(3));
    assert_eq!(t.read_all(0).unwrap(), b"".to_vec());
}

#[test]
fn writes_append_in_order() {
    let mut t = FdTable::new();
    t.write(1, b"hello ").unwrap();
    t.write(1, b"world").unwrap();
    assert_eq!(t.read_all(1).unwrap(), b"hello world".to_vec());
}

#[test]
fn dup_shares_the_description() {
    let mut t = FdTable::new();
    let d = t.dup(1).unwrap();
    assert_eq!(d, 3);
    t.write(d, b"via dup").unwrap();
    assert_eq!(t.read_all(1).unwrap(), b"via dup".to_vec());
}

#[test]
fn dup_reuses_lowest_free_descriptor() {
    let mut t = FdTable::new();
    let first = t.dup(0).unwrap();
    assert_eq!(first, 3);
    t.close(first).unwrap();
    let second = t.dup(1).unwrap();
    assert_eq!(second, 3);
}

#[test]
fn dup_of_closed_descriptor_fails() {
    let mut t = FdTable::new();
    assert_eq!(t.dup(7), Err(BAD_DESCRIPTOR));
}

#[test]
fn close_is_exactly_once() {
    let mut t = FdTable::new();
    t.close(1).unwrap();
    assert_eq!(t.close(1), Err(BAD_DESCRIPTOR));
    assert_eq!(t.write(1, b"x"), Err(BAD_DESCRIPTOR));
    assert_eq!(t.read_all(1).unwrap_err(), BAD_DESCRIPTOR);
}

#[test]
fn install_moves_ownership_into_slot() {
    let mut t = FdTable::new();
    let f = t.open_file(FileKind::Regular);
    t.write(f, b"payload").unwrap();
    t.install(f, Stdio::Stdin).unwrap();
    assert!(!t.is_open_fd(f));
    assert_eq!(t.read_all(0).unwrap(), b"payload".to_vec());
}

#[test]
fn install_of_closed_descriptor_fails() {
    let mut t = FdTable::new();
    assert_eq!(t.install(42, Stdio::Stdout), Err(BAD_DESCRIPTOR));
    // the slot is untouched
    t.write(1, b"kept").unwrap();
    assert_eq!(t.read_all(1).unwrap(), b"kept".to_vec());
}

#[test]
fn raw_id_of_reports_the_standard_slots() {
    let mut t = FdTable::new();
    assert_eq!(t.raw_id_of(Stdio::Stdin).unwrap(), 0);
    assert_eq!(t.raw_id_of(Stdio::Stdout).unwrap(), 1);
    assert_eq!(t.raw_id_of(Stdio::Stderr).unwrap(), 2);
    t.close(2).unwrap();
    assert_eq!(t.raw_id_of(Stdio::Stderr), Err(BAD_DESCRIPTOR));
}

#[test]
fn stream_selectors_name_their_slots() {
    assert_eq!(Stdio::Stdin.as_raw_fd(), 0);
    assert_eq!(Stdio::Stdout.as_raw_fd(), 1);
    assert_eq!(Stdio::Stderr.as_raw_fd(), 2);
}
