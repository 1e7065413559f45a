use mio_compat::events::Events;
use mio_compat::source::{ReadyQueue, SourceState};
use mio_compat::{Error, Evented, Poller, PollOpt, Ready, Registration, Token};
use std::time::Duration;

fn tokens_of(events: &Events) -> Vec<(Token, Ready)> {
    let mut out = Vec::new();
    let mut it = events.iter();
    while let Some(e) = it.next() {
        out.push((e.token(), e.readiness()));
    }
    out
}

#[test]
fn queue_keeps_one_entry_per_token() {
    let mut q = ReadyQueue::new();
    q.notify(Token(1), Ready::readable());
    q.notify(Token(2), Ready::all());
    q.notify(Token(1), Ready::all());
    assert_eq!(q.len(), 2);
    assert_eq!(q.withdraw(Token(3)), None);
    assert_eq!(q.withdraw(Token(2)), Some(Ready::all()));
    assert_eq!(q.withdraw(Token(2)), None);
    q.notify(Token(5), Ready::readable());
    assert_eq!(q.drain(), vec![(Token(1), Ready::all()), (Token(5), Ready::readable())]);
    assert_eq!(q.len(), 0);
}

#[test]
fn source_state_set_before_register_is_not_lost() {
    let mut s = SourceState::new();
    assert!(matches!(s.set_readiness(Ready::readable()), Ok(None)));
    match s.register(Token(4), Ready::readable(), PollOpt::edge()) {
        Ok((previous, note)) => {
            assert_eq!(previous, None);
            assert_eq!(note, Some((Token(4), Ready::readable())));
        }
        Err(e) => panic!("{:?}", e),
    }
}

#[test]
fn source_state_refuses_bad_arguments_unchanged() {
    let mut s = SourceState::new();
    assert!(matches!(s.register(Token(1), Ready::readable(), PollOpt::level()), Err(Error::InvalidOptions)));
    assert!(matches!(s.register(Token(1), Ready::readable(), PollOpt::edge().union(PollOpt::oneshot())), Err(Error::InvalidOptions)));
    assert!(matches!(s.register(Token(1), Ready::writable(), PollOpt::edge()), Err(Error::InvalidInterest)));
    assert!(matches!(s.register(Token(usize::MAX), Ready::readable(), PollOpt::edge()), Err(Error::ReservedToken)));
    assert!(matches!(s.set_readiness(Ready::writable()), Err(Error::InvalidReadiness)));
    assert_eq!(s, SourceState::new());
}

#[test]
fn source_state_after_deregister_notes_nothing() {
    let mut s = SourceState::new();
    assert!(s.register(Token(9), Ready::all(), PollOpt::edge()).is_ok());
    assert!(matches!(s.set_readiness(Ready::all()), Ok(Some((Token(9), _)))));
    assert_eq!(s.deregister(), Some(Token(9)));
    assert!(matches!(s.set_readiness(Ready::readable()), Ok(None)));
    assert!(matches!(s.set_readiness(Ready::all()), Ok(None)));
    assert_eq!(s.readiness, Ready::all());
    assert_eq!(s.binding, None);
}

#[test]
fn source_state_reregister_moves_binding() {
    let mut s = SourceState::new();
    assert!(s.register(Token(1), Ready::readable(), PollOpt::edge()).is_ok());
    assert!(matches!(s.reregister(Token(2), Ready::all(), PollOpt::edge()), Ok(Some(Token(1)))));
    match s.set_readiness(Ready::all()) {
        Ok(Some((t, r))) => {
            assert_eq!(t, Token(2));
            assert_eq!(r, Ready::all());
        }
        other => panic!("{:?}", other),
    }
}

#[test]
fn zero_timeout_poll_returns_no_events() {
    let poll = Poller::new().unwrap();
    assert!(poll.owns_multiplexer());
    let mut events = Events::with_capacity(16);
    let n = poll.poll(&mut events, Some(Duration::from_millis(0))).unwrap();
    assert_eq!(n, 0);
    assert!(events.is_empty());
    let n = poll.poll_interruptible(&mut events, Some(Duration::from_millis(0))).unwrap();
    assert_eq!(n, 0);
}

#[test]
fn readiness_set_before_register_is_delivered_once() {
    let poll = Poller::new().unwrap();
    let (registration, set) = Registration::new2();
    set.set_readiness(Ready::readable()).unwrap();
    assert_eq!(set.readiness(), Ready::readable());
    poll.register(&registration, Token(3), Ready::readable(), PollOpt::edge()).unwrap();
    let mut events = Events::with_capacity(16);
    let n = poll.poll(&mut events, Some(Duration::from_secs(1))).unwrap();
    assert_eq!(n, 1);
    assert_eq!(tokens_of(&events), vec![(Token(3), Ready::readable())]);
    let n = poll.poll(&mut events, Some(Duration::from_millis(0))).unwrap();
    assert_eq!(n, 0);
}

#[test]
fn deregistered_source_produces_no_events() {
    let poll = Poller::new().unwrap();
    let (registration, set) = Registration::new2();
    poll.register(&registration, Token(5), Ready::readable(), PollOpt::edge()).unwrap();
    poll.deregister(&registration).unwrap();
    set.set_readiness(Ready::readable()).unwrap();
    set.set_readiness(Ready::all()).unwrap();
    let mut events = Events::with_capacity(16);
    let n = poll.poll(&mut events, Some(Duration::from_millis(50))).unwrap();
    assert_eq!(n, 0);
    poll.register(&registration, Token(5), Ready::readable(), PollOpt::edge()).unwrap();
    let n = poll.poll(&mut events, Some(Duration::from_secs(1))).unwrap();
    assert_eq!(n, 1);
    assert_eq!(tokens_of(&events), vec![(Token(5), Ready::readable())]);
}

#[test]
fn events_carry_the_latest_token() {
    let poll = Poller::new().unwrap();
    let (registration, set) = Registration::new2();
    poll.register(&registration, Token(1), Ready::readable(), PollOpt::edge()).unwrap();
    set.set_readiness(Ready::readable()).unwrap();
    poll.reregister(&registration, Token(2), Ready::readable(), PollOpt::edge()).unwrap();
    let mut events = Events::with_capacity(16);
    poll.poll(&mut events, Some(Duration::from_secs(1))).unwrap();
    assert_eq!(tokens_of(&events), vec![(Token(2), Ready::readable())]);
    set.set_readiness(Ready::readable()).unwrap();
    poll.poll(&mut events, Some(Duration::from_secs(1))).unwrap();
    assert_eq!(tokens_of(&events), vec![(Token(2), Ready::readable())]);
}

#[test]
fn invalid_options_are_refused_without_registering() {
    let poll = Poller::new().unwrap();
    let (registration, set) = Registration::new2();
    let level = poll.register(&registration, Token(1), Ready::readable(), PollOpt::level());
    assert!(matches!(level, Err(Error::InvalidOptions)));
    let oneshot = poll.register(&registration, Token(1), Ready::readable(), PollOpt::edge().union(PollOpt::oneshot()));
    assert!(matches!(oneshot, Err(Error::InvalidOptions)));
    assert!(oneshot.unwrap_err().is_invalid_input());
    set.set_readiness(Ready::readable()).unwrap();
    let mut events = Events::with_capacity(16);
    assert_eq!(poll.poll(&mut events, Some(Duration::from_millis(50))).unwrap(), 0);
}

#[test]
fn software_source_argument_errors() {
    let poll = Poller::new().unwrap();
    let (registration, set) = Registration::new2();
    let writable_only = registration.register(&poll, Token(1), Ready::writable(), PollOpt::edge());
    assert!(matches!(writable_only, Err(Error::InvalidInterest)));
    let reserved = poll.register(&registration, Token(usize::MAX), Ready::readable(), PollOpt::edge());
    assert!(matches!(reserved, Err(Error::ReservedToken)));
    assert!(matches!(set.set_readiness(Ready::writable()), Err(Error::InvalidReadiness)));
    assert_eq!(set.readiness(), Ready::empty());
}

#[test]
fn empty_interest_deregisters() {
    let poll = Poller::new().unwrap();
    let (registration, set) = Registration::new2();
    poll.register(&registration, Token(8), Ready::readable(), PollOpt::edge()).unwrap();
    poll.reregister(&registration, Token(8), Ready::empty(), PollOpt::edge()).unwrap();
    set.set_readiness(Ready::readable()).unwrap();
    let mut events = Events::with_capacity(4);
    assert_eq!(poll.poll(&mut events, Some(Duration::from_millis(50))).unwrap(), 0);
}

#[test]
fn borrowing_poller_cannot_wait() {
    let owner = Poller::new().unwrap();
    let borrowed = Poller::from_registry(owner.registry().try_clone().unwrap());
    assert!(!borrowed.owns_multiplexer());
    let mut events = Events::with_capacity(4);
    assert!(matches!(borrowed.poll(&mut events, Some(Duration::from_millis(0))), Err(Error::WrongMode)));
    assert!(matches!(borrowed.poll_interruptible(&mut events, None), Err(Error::WrongMode)));
    let (registration, _set) = Registration::new2();
    let r = borrowed.register(&registration, Token(1), Ready::readable(), PollOpt::edge());
    assert!(matches!(r, Err(Error::WrongMode)));
}

#[test]
fn many_producer_handles_coalesce_into_one_event() {
    let poll = Poller::new().unwrap();
    let (registration, set) = Registration::new2();
    poll.register(&registration, Token(11), Ready::readable(), PollOpt::edge()).unwrap();
    let producers: Vec<_> = (0..64).map(|_| set.clone()).collect();
    for p in &producers {
        p.set_readiness(Ready::readable()).unwrap();
    }
    let mut events = Events::with_capacity(64);
    let n = poll.poll(&mut events, Some(Duration::from_secs(1))).unwrap();
    assert_eq!(n, 1);
    assert_eq!(tokens_of(&events), vec![(Token(11), Ready::readable())]);
}
