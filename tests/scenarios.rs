use hidasta::bootstrap::{Invocation, Mode, Next};
use hidasta::coordinator::{Coordinator, Reaction};
use hidasta::detach::{after_fork, DetachStep, Stage};
use hidasta::token::{socket_idx, source_of, Source};
use mio::net::UnixStream;
use nix::unistd::{ForkResult, Pid};
use std::io::{Error, ErrorKind};

fn conn() -> UnixStream {
    UnixStream::pair().expect("socket pair").0
}

fn signal_token(c: &mut Coordinator, token: mio::Token, bytes: usize) -> Reaction {
    match source_of(token) {
        Source::Waiter(slot) => {
            let taken = c.take(slot).expect("live");
            c.after_read(slot, taken, Ok(bytes))
        }
        Source::Listener => panic!("a waiter token"),
    }
}

#[test]
fn wait_spawns_then_signal_releases() {
    // The waiter finds no coordinator and spawns one.
    let mut waiter = Invocation::new(Mode::Wait);
    let first = waiter.first();
    assert!(matches!(first, Next::Attempt(Mode::Wait)));
    assert!(matches!(waiter.after_attempt(Err(Error::from(ErrorKind::NotFound))), Next::Spawn));
    let parent = ForkResult::Parent { child: Pid::from_raw(7) };
    assert_eq!(after_fork(Stage::First, &parent), DetachStep::ReturnToCaller);
    assert_eq!(after_fork(Stage::Second, &ForkResult::Child), DetachStep::RunLoop);
    assert!(matches!(waiter.after_spawn(Ok(())), Next::Attempt(Mode::Wait)));

    // The coordinator accepts the retried wait, then the signaller.
    let mut coordinator = Coordinator::new();
    coordinator.insert(conn());
    let signaller = coordinator.insert(conn());
    assert_eq!(socket_idx(signaller), 1);
    let mut signal = Invocation::new(Mode::Signal);
    assert!(matches!(signal.after_attempt(Ok(())), Next::Finish(Ok(()))));
    match signal_token(&mut coordinator, signaller, 1) {
        Reaction::Release(all) => assert_eq!(all.len(), 2),
        Reaction::Continue => panic!("released"),
    }
    assert_eq!(coordinator.count(), 0);

    // The shutdown ends the wait with success.
    assert!(matches!(waiter.after_attempt(Ok(())), Next::Finish(Ok(()))));
}

#[test]
fn signal_on_unbound_path_succeeds() {
    let mut signal = Invocation::new(Mode::Signal);
    assert!(matches!(signal.after_attempt(Err(Error::from(ErrorKind::NotFound))), Next::Finish(Ok(()))));
    let mut signal = Invocation::new(Mode::Signal);
    assert!(matches!(
        signal.after_attempt(Err(Error::from(ErrorKind::ConnectionRefused))),
        Next::Finish(Ok(()))
    ));
}

#[test]
fn ten_waiters_one_coordinator() {
    let mut spawner = Invocation::new(Mode::Wait);
    assert!(matches!(spawner.after_attempt(Err(Error::from(ErrorKind::NotFound))), Next::Spawn));
    assert!(matches!(spawner.after_spawn(Ok(())), Next::Attempt(Mode::Wait)));

    let mut coordinator = Coordinator::new();
    for _ in 0..10 {
        coordinator.insert(conn());
    }
    assert_eq!(coordinator.count(), 10);
    let signaller = coordinator.insert(conn());
    match signal_token(&mut coordinator, signaller, 1) {
        Reaction::Release(all) => assert_eq!(all.len(), 11),
        Reaction::Continue => panic!("released"),
    }
    assert_eq!(coordinator.count(), 0);
    for _ in 0..10 {
        let mut waiter = Invocation::new(Mode::Wait);
        assert!(matches!(waiter.after_attempt(Ok(())), Next::Finish(Ok(()))));
    }
}

#[test]
fn withdrawn_waiter_releases_no_one() {
    let mut coordinator = Coordinator::new();
    coordinator.insert(conn());
    let leaver = coordinator.insert(conn());
    coordinator.insert(conn());
    assert!(matches!(signal_token(&mut coordinator, leaver, 0), Reaction::Continue));
    assert_eq!(coordinator.count(), 2);
}
