use mio_compat::convert::{millis, millis_from_parts};
use mio_compat::events::{Event, Events};
use mio_compat::{
    convert_event_to_ready, convert_interests_to_ready, convert_ready_to_interests, validate_args,
    Error, Interests, PollOpt, RawEvent, Ready, Token,
};
use std::time::Duration;

fn raw(token: usize, readable: bool, writable: bool) -> RawEvent {
    RawEvent {
        token,
        readable,
        writable,
        error: true,
        read_closed: true,
        write_closed: false,
        priority: true,
    }
}

#[test]
fn ready_flags_and_set_algebra() {
    let r = Ready::readable();
    let w = Ready::writable();
    assert!(Ready::empty().is_empty());
    assert!(r.is_readable() && !r.is_writable());
    assert!(w.is_writable() && !w.is_readable());
    let both = r.union(w);
    assert_eq!(both, Ready::all());
    assert_eq!(both.intersect(w), w);
    assert!(r.intersect(w).is_empty());
    assert!(both.contains(r) && !r.contains(both));
    let mut m = Ready::empty();
    m.insert(w);
    assert_eq!(m, w);
    m.remove(w);
    assert!(m.is_empty());
}

#[test]
fn ready_integer_codes() {
    assert_eq!(Ready::empty().as_usize(), 0);
    assert_eq!(Ready::readable().as_usize(), 1);
    assert_eq!(Ready::writable().as_usize(), 2);
    assert_eq!(Ready::all().as_usize(), 3);
    for r in [Ready::empty(), Ready::readable(), Ready::writable(), Ready::all()] {
        assert_eq!(Ready::from_usize(r.as_usize()), r);
    }
    assert_eq!(Ready::from_usize(5), Ready::readable());
}

#[test]
fn ready_to_interests_each_combination() {
    assert_eq!(convert_ready_to_interests(Ready::empty()), None);
    assert_eq!(convert_ready_to_interests(Ready::readable()), Some(Interests::Readable));
    assert_eq!(convert_ready_to_interests(Ready::writable()), Some(Interests::Writable));
    assert_eq!(convert_ready_to_interests(Ready::all()), Some(Interests::Both));
}

#[test]
fn interests_back_to_ready() {
    assert_eq!(convert_interests_to_ready(Interests::Readable), Ready::readable());
    assert_eq!(convert_interests_to_ready(Interests::Writable), Ready::writable());
    assert_eq!(convert_interests_to_ready(Interests::Both), Ready::all());
}

#[test]
fn union_of_readiness_watches_union_of_interests() {
    let all = [Ready::empty(), Ready::readable(), Ready::writable(), Ready::all()];
    for r1 in all {
        for r2 in all {
            let joint = convert_ready_to_interests(r1.union(r2)).map(convert_interests_to_ready);
            let a = convert_ready_to_interests(r1).map(convert_interests_to_ready).unwrap_or(Ready::empty());
            let b = convert_ready_to_interests(r2).map(convert_interests_to_ready).unwrap_or(Ready::empty());
            assert_eq!(joint.unwrap_or(Ready::empty()), a.union(b));
        }
    }
    assert_eq!(
        convert_ready_to_interests(Ready::readable().union(Ready::writable())),
        Some(Interests::Both)
    );
}

#[test]
fn event_signals_outside_the_flag_model_are_dropped() {
    assert_eq!(convert_event_to_ready(&raw(3, false, false)), Ready::empty());
    assert_eq!(convert_event_to_ready(&raw(3, true, false)), Ready::readable());
    assert_eq!(convert_event_to_ready(&raw(3, false, true)), Ready::writable());
    assert_eq!(convert_event_to_ready(&raw(3, true, true)), Ready::all());
}

#[test]
fn only_edge_options_are_accepted() {
    assert!(validate_args(PollOpt::edge()).is_ok());
    let refused = [
        PollOpt::empty(),
        PollOpt::level(),
        PollOpt::oneshot(),
        PollOpt::edge().union(PollOpt::oneshot()),
        PollOpt::edge().union(PollOpt::level()),
    ];
    for opts in refused {
        match validate_args(opts) {
            Err(e) => {
                assert!(matches!(e, Error::InvalidOptions));
                assert!(e.is_invalid_input());
                assert!(!e.is_io());
            }
            Ok(()) => panic!("accepted {:?}", opts),
        }
    }
    let o = PollOpt::edge().union(PollOpt::level());
    assert!(o.is_edge() && o.is_level() && !o.is_oneshot());
}

#[test]
fn millis_round_up_and_saturate() {
    assert_eq!(millis_from_parts(0, 0), 0);
    assert_eq!(millis_from_parts(0, 1), 1);
    assert_eq!(millis_from_parts(1, 1_000_000), 1001);
    assert_eq!(millis_from_parts(2, 999_999_999), 3000);
    assert_eq!(millis_from_parts(u64::MAX / 1000, 999_999_999), u64::MAX);
    assert_eq!(millis_from_parts(u64::MAX, 0), u64::MAX);
    assert_eq!(millis(Duration::from_micros(1500)), 2);
    assert_eq!(millis(Duration::from_secs(7)), 7000);
    assert_eq!(millis(Duration::new(u64::MAX, 0)), u64::MAX);
}

#[test]
fn events_buffer_fill_and_walk() {
    let mut events = Events::with_capacity(8);
    assert_eq!(events.capacity(), 8);
    assert!(events.is_empty());
    let reported = vec![raw(1, true, false), raw(usize::MAX, true, false), raw(2, false, true)];
    let pending = vec![(Token(7), Ready::readable())];
    events.fill(&reported, usize::MAX, &pending);
    assert_eq!(events.len(), 3);
    assert_eq!(events.get(0), Some(Event::new(Ready::readable(), Token(1))));
    assert_eq!(events.get(1), Some(Event::new(Ready::writable(), Token(2))));
    assert_eq!(events.get(2), Some(Event::new(Ready::readable(), Token(7))));
    assert_eq!(events.get(3), None);
    let mut it = events.iter();
    let mut tokens = Vec::new();
    while let Some(e) = it.next() {
        tokens.push(e.token());
    }
    assert_eq!(tokens, vec![Token(1), Token(2), Token(7)]);
    assert_eq!(events.get(1).unwrap().readiness(), Ready::writable());
    events.clear();
    assert!(events.is_empty());
    assert_eq!(events.capacity(), 8);
    events.fill(&vec![raw(4, true, true)], usize::MAX, &Vec::new());
    let mut owned = events.into_iter();
    assert_eq!(owned.next(), Some(Event::new(Ready::all(), Token(4))));
    assert_eq!(owned.next(), None);
    assert_eq!(owned.next(), None);
}
