use vstd::prelude::*;

use crate::error::Error;
use crate::ready::{ready_of, PollOpt, Ready};

verus! {

/// What the underlying multiplexer is asked to watch: never nothing.
#[derive(Clone, Copy, Debug, PartialEq, Eq, Structural)]
pub enum Interests {
    Readable,
    Writable,
    Both,
}

impl Interests {
    /// The readiness flags this interest watches.
    pub open spec fn watches(self) -> Ready {
        match self {
            Interests::Readable => ready_of(true, false),
            Interests::Writable => ready_of(false, true),
            Interests::Both => ready_of(true, true),
        }
    }
}

/// What an optional interest watches; `None` watches nothing.
pub open spec fn watched(i: Option<Interests>) -> Ready {
    match i {
        Some(x) => x.watches(),
        None => ready_of(false, false),
    }
}

/// The interest that watches exactly the flags of `ready`, or `None` when no
/// flag is set.
pub open spec fn interest_of(ready: Ready) -> Option<Interests> {
    if ready.readable && ready.writable {
        Some(Interests::Both)
    } else if ready.readable {
        Some(Interests::Readable)
    } else if ready.writable {
        Some(Interests::Writable)
    } else {
        None
    }
}

/// Translates a readiness to the multiplexer's interest. `None` means there is
/// nothing to watch, which callers treat as a deregistration.
pub fn convert_ready_to_interests(ready: Ready) -> (r: Option<Interests>)
    ensures
        r == interest_of(ready),
        watched(r) == ready,
        r is None <==> ready.is_empty_spec(),
{
    if ready.is_readable() && ready.is_writable() {
        Some(Interests::Both)
    } else if ready.is_readable() {
        Some(Interests::Readable)
    } else if ready.is_writable() {
        Some(Interests::Writable)
    } else {
        None
    }
}

/// Translates the multiplexer's interest back to readiness flags.
pub fn convert_interests_to_ready(interests: Interests) -> (r: Ready)
    ensures
        r == interests.watches(),
        !r.is_empty_spec(),
{
    let mut ready = Ready::empty();
    match interests {
        Interests::Readable => ready.insert(Ready::readable()),
        Interests::Writable => ready.insert(Ready::writable()),
        Interests::Both => {
            ready.insert(Ready::readable());
            ready.insert(Ready::writable());
        },
    }
    ready
}

/// An event as the multiplexer reports it: its token and every signal it
/// carries, of which the flag model keeps readable and writable.
#[derive(Clone, Copy, Debug, PartialEq, Eq, Structural)]
pub struct RawEvent {
    pub token: usize,
    pub readable: bool,
    pub writable: bool,
    pub error: bool,
    pub read_closed: bool,
    pub write_closed: bool,
    pub priority: bool,
}

/// The readiness flags of a multiplexer event; the signals that the flag model
/// does not represent are dropped.
pub fn convert_event_to_ready(event: &RawEvent) -> (r: Ready)
    ensures
        r == ready_of(event.readable, event.writable),
{
    let mut ready = Ready::empty();
    if event.readable {
        ready.insert(Ready::readable());
    }
    if event.writable {
        ready.insert(Ready::writable());
    }
    ready
}

/// Accepts only edge-triggered options without one-shot or level.
pub fn validate_args(opts: PollOpt) -> (r: Result<(), Error>)
    ensures
        r is Ok <==> opts.is_supported(),
        r is Err ==> r == Err::<(), Error>(Error::InvalidOptions),
{
    if !opts.is_edge() || opts.is_level() || opts.is_oneshot() {
        return Err(Error::InvalidOptions);
    }
    Ok(())
}

/// Translating the union of two readinesses watches the union of what each
/// translates to.
pub proof fn lemma_interest_of_union(r1: Ready, r2: Ready)
    ensures
        watched(interest_of(r1.union_spec(r2))) == watched(interest_of(r1)).union_spec(
            watched(interest_of(r2)),
        ),
        interest_of(r1.union_spec(r2)) is None <==> (interest_of(r1) is None && interest_of(
            r2,
        ) is None),
{
}

/// Translating a non-empty readiness to an interest and back gives it unchanged.
pub proof fn lemma_interest_round_trip(ready: Ready)
    requires
        !ready.is_empty_spec(),
    ensures
        interest_of(ready) matches Some(i) && i.watches() == ready,
{
}

} // verus!
