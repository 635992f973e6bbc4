use hidasta::coordinator::{is_pending_kind, Coordinator, Reaction};
use std::io::ErrorKind;
use mio::net::UnixStream;
use mio::Token;

fn conn() -> UnixStream {
    UnixStream::pair().expect("socket pair").0
}

#[test]
fn new_table_is_empty() {
    let c = Coordinator::new();
    assert_eq!(c.count(), 0);
    assert_eq!(c.next_token(), Token(1));
}

#[test]
fn insert_returns_registered_token() {
    let mut c = Coordinator::new();
    assert_eq!(c.insert(conn()), Token(1));
    assert_eq!(c.next_token(), Token(2));
    assert_eq!(c.insert(conn()), Token(2));
    assert_eq!(c.count(), 2);
}

#[test]
fn withdrawal_removes_one_and_continues() {
    let mut c = Coordinator::new();
    c.insert(conn());
    c.insert(conn());
    c.insert(conn());
    let taken = c.take(1).expect("slot 1 is live");
    assert_eq!(c.count(), 2);
    assert!(matches!(c.after_read(1, taken, Ok(0)), Reaction::Continue));
    assert_eq!(c.count(), 2);
    assert!(c.take(1).is_none());
    let taken = c.take(0).expect("slot 0 is live");
    assert!(matches!(c.after_read(0, taken, Err(ErrorKind::ConnectionReset)), Reaction::Continue));
    assert_eq!(c.count(), 1);
}

#[test]
fn stale_slot_is_none() {
    let mut c = Coordinator::new();
    assert!(c.take(0).is_none());
    c.insert(conn());
    let taken = c.take(0).expect("live");
    drop(taken);
    assert!(c.take(0).is_none());
    assert_eq!(c.count(), 0);
}

#[test]
fn freed_slot_is_reused() {
    let mut c = Coordinator::new();
    c.insert(conn());
    c.insert(conn());
    let taken = c.take(0).expect("live");
    assert!(matches!(c.after_read(0, taken, Ok(0)), Reaction::Continue));
    assert_eq!(c.next_token(), Token(1));
    assert_eq!(c.insert(conn()), Token(1));
}

#[test]
fn signal_releases_every_connection() {
    let mut c = Coordinator::new();
    for _ in 0..4 {
        c.insert(conn());
    }
    let taken = c.take(2).expect("live");
    match c.after_read(2, taken, Ok(1)) {
        Reaction::Release(all) => assert_eq!(all.len(), 4),
        Reaction::Continue => panic!("a byte is a signal"),
    }
    assert_eq!(c.count(), 0);
}

#[test]
fn lone_signaller_releases_itself() {
    let mut c = Coordinator::new();
    c.insert(conn());
    let taken = c.take(0).expect("live");
    match c.after_read(0, taken, Ok(3)) {
        Reaction::Release(all) => assert_eq!(all.len(), 1),
        Reaction::Continue => panic!("a byte is a signal"),
    }
}

#[test]
fn pending_read_puts_waiter_back() {
    let mut c = Coordinator::new();
    c.insert(conn());
    c.insert(conn());
    c.insert(conn());
    for kind in [ErrorKind::WouldBlock, ErrorKind::Interrupted] {
        let taken = c.take(1).expect("live");
        assert!(matches!(c.after_read(1, taken, Err(kind)), Reaction::Continue));
        assert_eq!(c.count(), 3);
        assert_eq!(c.next_token(), Token(4));
    }
    let taken = c.take(1).expect("slot 1 is back");
    match c.after_read(1, taken, Ok(1)) {
        Reaction::Release(all) => assert_eq!(all.len(), 3),
        Reaction::Continue => panic!("a byte is a signal"),
    }
}

#[test]
fn pending_kinds() {
    assert!(is_pending_kind(ErrorKind::WouldBlock));
    assert!(is_pending_kind(ErrorKind::Interrupted));
    assert!(!is_pending_kind(ErrorKind::ConnectionReset));
    assert!(!is_pending_kind(ErrorKind::NotFound));
}
