use std::sync::Arc;

use vstd::prelude::*;
use vstd::rwlock::{RwLock, RwLockPredicate};

use crate::error::Error;
use crate::evented::Evented;
use crate::events::{os_events, pending_events, Event, Events};
use crate::interest::RawEvent;
use crate::interest::{convert_interests_to_ready, convert_ready_to_interests, validate_args};
use crate::platform::{poll_with_waker, poll_wait, waker_wake};
use crate::ready::{ready_of, PollOpt, Ready, Token, WAKE_TOKEN};
use crate::source::{lemma_pending_wf, pending_wf, ReadyQueue};

verus! {

/// The outcome of one wait on the multiplexer.
pub enum Waited {
    /// The wait ended; these are the events it collected.
    Events(Vec<RawEvent>),
    /// A signal interrupted the wait.
    Interrupted(std::io::Error),
    /// The wait failed otherwise.
    Failed(std::io::Error),
}

/// What a wait's outcome leaves to deliver: the events the multiplexer
/// reported; none when a signal interrupted a wait that may be interrupted;
/// otherwise the multiplexer's error.
pub fn wait_outcome(waited: Waited, interruptible: bool) -> (r: Result<Vec<RawEvent>, Error>)
    ensures
        waited matches Waited::Events(raw) ==> (r matches Ok(v) && v@ == raw@),
        waited matches Waited::Interrupted(e) ==> if interruptible {
            r matches Ok(v) && v@.len() == 0
        } else {
            r == Err::<Vec<RawEvent>, Error>(Error::Io(e))
        },
        waited matches Waited::Failed(e) ==> r == Err::<Vec<RawEvent>, Error>(Error::Io(e)),
{
    match waited {
        Waited::Events(raw) => Ok(raw),
        Waited::Interrupted(e) => {
            if interruptible {
                Ok(Vec::new())
            } else {
                Err(Error::Io(e))
            }
        },
        Waited::Failed(e) => Err(Error::Io(e)),
    }
}

/// What a wait may deliver: the multiplexer's events, without the poller's
/// own wakeups, then pending software readiness, one entry per token, each
/// readable.
pub open spec fn deliverable(events: Seq<Event>) -> bool {
    exists|raw: Seq<RawEvent>, p: Seq<(Token, Ready)>|
        pending_wf(p) && events == #[trigger] os_events(raw, WAKE_TOKEN) + #[trigger] pending_events(p)
}

/// No event the multiplexer reports is handed out under the poller's own token.
pub proof fn lemma_os_events_skip(raw: Seq<RawEvent>, wake: usize)
    ensures
        forall|i: int| 0 <= i < os_events(raw, wake).len() ==> (#[trigger] os_events(raw, wake)[i]).token.0 != wake,
    decreases raw.len(),
{
    if raw.len() > 0 {
        lemma_os_events_skip(raw.drop_last(), wake);
        let rest = os_events(raw.drop_last(), wake);
        let all = os_events(raw, wake);
        assert forall|i: int| 0 <= i < all.len() implies (#[trigger] all[i]).token.0 != wake by {
            if i < rest.len() {
                assert(all[i] == rest[i]);
            }
        }
    }
}

/// A deliverable buffer holds no event under the poller's own token.
pub proof fn lemma_deliverable_skips_wake(events: Seq<Event>)
    requires
        deliverable(events),
    ensures
        forall|i: int| 0 <= i < events.len() ==> (#[trigger] events[i]).token.0 != WAKE_TOKEN,
{
    let (raw, p) = choose|raw: Seq<RawEvent>, p: Seq<(Token, Ready)>|
        pending_wf(p) && events == #[trigger] os_events(raw, WAKE_TOKEN) + #[trigger] pending_events(p);
    lemma_os_events_skip(raw, WAKE_TOKEN);
    let o = os_events(raw, WAKE_TOKEN);
    assert forall|i: int| 0 <= i < events.len() implies (#[trigger] events[i]).token.0 != WAKE_TOKEN by {
        if i < o.len() {
            assert(events[i] == o[i]);
        } else {
            assert(events[i] == pending_events(p)[i - o.len()]);
            assert(p[i - o.len()].0.0 != WAKE_TOKEN);
        }
    }
}

/// A lock predicate that every value meets.
pub struct AnyValue;

impl<V> RwLockPredicate<V> for AnyValue {
    open spec fn inv(self, v: V) -> bool {
        true
    }
}

/// The predicate of a poller's pending queue: it is well formed.
pub struct PendingWf;

impl RwLockPredicate<ReadyQueue> for PendingWf {
    open spec fn inv(self, q: ReadyQueue) -> bool {
        pending_wf(q@)
    }
}

/// The wakeup side of an owning poller: its one waker and the queue of
/// software readiness that its next wait hands out. Shared with the software
/// sources bound to the poller.
pub struct Wakeup {
    waker: mio::Waker,
    pending: RwLock<ReadyQueue, PendingWf>,
}

impl Wakeup {
    /// Notes readiness for `token` and wakes the poller; only waking can fail.
    pub fn notify(&self, token: Token, readiness: Ready) -> (r: Result<(), Error>)
        requires
            readiness.readable,
            token.0 != WAKE_TOKEN,
        ensures
            r matches Err(e) ==> e is Io,
    {
        let (mut queue, handle) = self.pending.acquire_write();
        proof {
            lemma_pending_wf(queue@, token, readiness);
        }
        queue.notify(token, readiness);
        handle.release_write(queue);
        match waker_wake(&self.waker) {
            Ok(()) => Ok(()),
            Err(e) => Err(Error::Io(e)),
        }
    }

    /// Removes the pending entry of `token`; returns its readiness, if any,
    /// which is readable.
    pub fn withdraw(&self, token: Token) -> (r: Option<Ready>)
        ensures
            r matches Some(x) ==> x.readable,
    {
        let (mut queue, handle) = self.pending.acquire_write();
        proof {
            lemma_pending_wf(queue@, token, ready_of(false, false));
        }
        let ghost before = queue@;
        let found = queue.withdraw(token);
        proof {
            if let Some(x) = found {
                let k = choose|k: int| 0 <= k < before.len() && before[k] == (token, x);
                assert(before[k].1.readable);
            }
        }
        handle.release_write(queue);
        found
    }

    /// Takes every pending entry, in the order they were noted: one per
    /// token, each readable.
    pub fn drain(&self) -> (r: Vec<(Token, Ready)>)
        ensures
            pending_wf(r@),
    {
        let (mut queue, handle) = self.pending.acquire_write();
        let all = queue.drain();
        handle.release_write(queue);
        all
    }
}

/// What an owning poller holds besides its registry.
struct Owner {
    mux: RwLock<mio::Poll, AnyValue>,
    wake: Arc<Wakeup>,
}

/// The poller: registers event sources and waits for their readiness.
///
/// It either owns its multiplexer, and then can wait on it, or only holds the
/// registry of a multiplexer that an enclosing reactor owns, and then only
/// registers.
pub struct Poller {
    registry: mio::Registry,
    owner: Option<Owner>,
}

impl Poller {
    /// Whether this poller owns its multiplexer.
    pub closed spec fn owning(&self) -> bool {
        self.owner is Some
    }

    /// A poller that owns a new multiplexer.
    pub fn new() -> (r: Result<Poller, Error>)
        ensures
            r matches Ok(p) ==> p.owning(),
            r matches Err(e) ==> e is Io,
    {
        let (mux, registry, waker) = match poll_with_waker(WAKE_TOKEN) {
            Ok(parts) => parts,
            Err(e) => return Err(Error::Io(e)),
        };
        let wake = Wakeup { waker, pending: RwLock::new(ReadyQueue::new(), Ghost(PendingWf)) };
        let owner = Owner { mux: RwLock::new(mux, Ghost(AnyValue)), wake: Arc::new(wake) };
        Ok(Poller { registry, owner: Some(owner) })
    }

    /// A poller over the registry of a multiplexer owned elsewhere. It can
    /// register descriptors but cannot wait.
    pub fn from_registry(registry: mio::Registry) -> (p: Poller)
        ensures
            !p.owning(),
    {
        Poller { registry, owner: None }
    }

    pub fn owns_multiplexer(&self) -> (b: bool)
        ensures
            b == self.owning(),
    {
        self.owner.is_some()
    }

    /// The registry that sources register their descriptors with.
    pub fn registry(&self) -> &mio::Registry {
        &self.registry
    }

    /// The wakeup side, for an owning poller.
    pub fn wakeup(&self) -> (r: Option<&Arc<Wakeup>>)
        ensures
            r is Some <==> self.owning(),
    {
        match &self.owner {
            Some(o) => Some(&o.wake),
            None => None,
        }
    }

    /// Registers `handle` under `token` for the readiness in `interest`. An
    /// empty interest deregisters it instead.
    pub fn register<E: Evented>(&self, handle: &E, token: Token, interest: Ready, opts: PollOpt) -> (r: Result<(), Error>)
        ensures
            !opts.is_supported() ==> r == Err::<(), Error>(Error::InvalidOptions),
            opts.is_supported() && token.0 == WAKE_TOKEN ==> r == Err::<(), Error>(Error::ReservedToken),
    {
        match validate_args(opts) {
            Ok(()) => {},
            Err(e) => return Err(e),
        }
        if token.0 == WAKE_TOKEN {
            return Err(Error::ReservedToken);
        }
        match convert_ready_to_interests(interest) {
            Some(interests) => handle.register(self, token, convert_interests_to_ready(interests), PollOpt::edge()),
            None => self.deregister(handle),
        }
    }

    /// Changes the token and interest of `handle`. An empty interest
    /// deregisters it instead.
    pub fn reregister<E: Evented>(&self, handle: &E, token: Token, interest: Ready, opts: PollOpt) -> (r: Result<(), Error>)
        ensures
            !opts.is_supported() ==> r == Err::<(), Error>(Error::InvalidOptions),
            opts.is_supported() && token.0 == WAKE_TOKEN ==> r == Err::<(), Error>(Error::ReservedToken),
    {
        match validate_args(opts) {
            Ok(()) => {},
            Err(e) => return Err(e),
        }
        if token.0 == WAKE_TOKEN {
            return Err(Error::ReservedToken);
        }
        match convert_ready_to_interests(interest) {
            Some(interests) => handle.reregister(self, token, convert_interests_to_ready(interests), PollOpt::edge()),
            None => self.deregister(handle),
        }
    }

    /// Stops delivering events of `handle`.
    pub fn deregister<E: Evented>(&self, handle: &E) -> (r: Result<(), Error>) {
        handle.deregister(self)
    }

    /// Waits up to `timeout` (forever when `None`) and refills `events` with
    /// what became ready: the multiplexer's events, without the poller's own
    /// wakeups, then the pending software readiness. Returns how many events
    /// it holds. A signal that interrupts the wait is an error (see
    /// `wait_outcome`).
    pub fn poll(&self, events: &mut Events, timeout: Option<std::time::Duration>) -> (r: Result<usize, Error>)
        ensures
            !self.owning() ==> r matches Err(Error::WrongMode),
            self.owning() ==> !(r matches Err(Error::WrongMode)),
            r matches Ok(n) ==> n == final(events)@.len() && deliverable(final(events)@),
            r matches Ok(n) ==> forall|i: int|
                0 <= i < n ==> (#[trigger] final(events)@[i]).token.0 != WAKE_TOKEN,
            r is Err ==> final(events)@.len() == 0,
            final(events).capacity_spec() == old(events).capacity_spec(),
    {
        self.wait(events, timeout, false)
    }

    /// Like `poll`, but a signal that interrupts the wait ends it early with
    /// the software readiness already pending, instead of an error.
    pub fn poll_interruptible(&self, events: &mut Events, timeout: Option<std::time::Duration>) -> (r: Result<usize, Error>)
        ensures
            !self.owning() ==> r matches Err(Error::WrongMode),
            self.owning() ==> !(r matches Err(Error::WrongMode)),
            r matches Ok(n) ==> n == final(events)@.len() && deliverable(final(events)@),
            r matches Ok(n) ==> forall|i: int|
                0 <= i < n ==> (#[trigger] final(events)@[i]).token.0 != WAKE_TOKEN,
            r is Err ==> final(events)@.len() == 0,
            final(events).capacity_spec() == old(events).capacity_spec(),
    {
        self.wait(events, timeout, true)
    }

    fn wait(&self, events: &mut Events, timeout: Option<std::time::Duration>, interruptible: bool) -> (r: Result<usize, Error>)
        ensures
            !self.owning() ==> r matches Err(Error::WrongMode),
            self.owning() ==> !(r matches Err(Error::WrongMode)),
            r matches Ok(n) ==> n == final(events)@.len() && deliverable(final(events)@),
            r matches Ok(n) ==> forall|i: int|
                0 <= i < n ==> (#[trigger] final(events)@[i]).token.0 != WAKE_TOKEN,
            r is Err ==> final(events)@.len() == 0,
            final(events).capacity_spec() == old(events).capacity_spec(),
    {
        events.clear();
        let owner = match &self.owner {
            Some(o) => o,
            None => return Err(Error::WrongMode),
        };
        let (mut mux, handle) = owner.mux.acquire_write();
        let waited = poll_wait(&mut mux, events.capacity(), timeout);
        handle.release_write(mux);
        let raw = match wait_outcome(waited, interruptible) {
            Ok(raw) => raw,
            Err(e) => return Err(e),
        };
        let pending = owner.wake.drain();
        let ghost before = events@;
        events.fill(&raw, WAKE_TOKEN, &pending);
        proof {
            assert(before + os_events(raw@, WAKE_TOKEN) + pending_events(pending@) =~= os_events(raw@, WAKE_TOKEN) + pending_events(pending@));
            assert(deliverable(events@));
            lemma_deliverable_skips_wake(events@);
        }
        Ok(events.len())
    }
}

} // verus!
