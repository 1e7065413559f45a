use mio_compat::events::Events;
use mio_compat::poll::{wait_outcome, Waited};
use mio_compat::RawEvent;
use mio_compat::vectored::scatter_counts;
use mio_compat::{Error, EventedFd, Evented, Poller, PollOpt, Ready, Token};
use std::time::Duration;

#[test]
fn scatter_fills_buffers_in_order() {
    assert_eq!(scatter_counts(&vec![4, 4, 4], 10), vec![4, 4, 2]);
    assert_eq!(scatter_counts(&vec![4, 4, 4], 3), vec![3, 0, 0]);
    assert_eq!(scatter_counts(&vec![4, 0, 4], 6), vec![4, 0, 2]);
    assert_eq!(scatter_counts(&vec![2, 3], 9), vec![2, 3]);
    assert_eq!(scatter_counts(&vec![], 5), Vec::<usize>::new());
    assert_eq!(scatter_counts(&vec![5], 0), vec![0]);
}

#[test]
fn descriptor_with_bad_arguments_is_refused() {
    let poll = Poller::new().unwrap();
    let fd: i32 = 0;
    let source = EventedFd(&fd);
    assert!(matches!(poll.register(&source, Token(1), Ready::readable(), PollOpt::level()), Err(Error::InvalidOptions)));
    assert!(matches!(source.reregister(&poll, Token(1), Ready::readable(), PollOpt::oneshot()), Err(Error::InvalidOptions)));
}

#[test]
fn descriptor_with_empty_interest_is_deregistered() {
    let poll = Poller::new().unwrap();
    let fd: i32 = 0;
    let source = EventedFd(&fd);
    // Never registered, so stopping the watch is the system's error, not a refusal.
    assert!(matches!(source.register(&poll, Token(1), Ready::empty(), PollOpt::edge()), Err(Error::Io(_))));
    assert!(matches!(source.reregister(&poll, Token(1), Ready::empty(), PollOpt::edge()), Err(Error::Io(_))));
}

#[test]
fn descriptor_errors_of_the_system_come_through() {
    let poll = Poller::new().unwrap();
    let fd: i32 = -1;
    let source = EventedFd(&fd);
    let r = poll.register(&source, Token(1), Ready::readable(), PollOpt::edge());
    match r {
        Err(e) => assert!(e.is_io() && !e.is_invalid_input()),
        Ok(()) => panic!("an invalid descriptor was registered"),
    }
    assert!(matches!(poll.deregister(&source), Err(Error::Io(_))));
    let mut events = Events::with_capacity(4);
    assert_eq!(poll.poll(&mut events, Some(Duration::from_millis(0))).unwrap(), 0);
}

#[test]
fn wait_outcome_for_each_variant() {
    let e = RawEvent { token: 2, readable: true, writable: false, error: false, read_closed: false, write_closed: false, priority: false };
    assert_eq!(wait_outcome(Waited::Events(vec![e]), false).unwrap(), vec![e]);
    assert_eq!(wait_outcome(Waited::Events(vec![e]), true).unwrap(), vec![e]);
    let interrupted = || std::io::Error::from(std::io::ErrorKind::Interrupted);
    assert_eq!(wait_outcome(Waited::Interrupted(interrupted()), true).unwrap(), Vec::new());
    match wait_outcome(Waited::Interrupted(interrupted()), false) {
        Err(Error::Io(err)) => assert_eq!(err.kind(), std::io::ErrorKind::Interrupted),
        other => panic!("{:?}", other),
    }
    let failed = std::io::Error::from(std::io::ErrorKind::InvalidInput);
    match wait_outcome(Waited::Failed(failed), true) {
        Err(Error::Io(err)) => assert_eq!(err.kind(), std::io::ErrorKind::InvalidInput),
        other => panic!("{:?}", other),
    }
}

#[test]
fn software_deregister_always_succeeds() {
    let poll = Poller::new().unwrap();
    let (registration, _set) = mio_compat::Registration::new2();
    assert!(registration.deregister(&poll).is_ok());
    assert!(registration.deregister(&poll).is_ok());
    assert!(registration.register(&poll, Token(3), Ready::all(), PollOpt::edge()).is_ok());
    assert!(registration.reregister(&poll, Token(4), Ready::readable(), PollOpt::edge()).is_ok());
    assert!(matches!(registration.reregister(&poll, Token(4), Ready::writable(), PollOpt::edge()), Err(Error::InvalidInterest)));
    assert!(registration.deregister(&poll).is_ok());
}
