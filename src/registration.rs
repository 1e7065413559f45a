use std::sync::atomic::{AtomicUsize, Ordering};
use std::sync::Arc;

use vstd::prelude::*;
use vstd::rwlock::{RwLock, RwLockPredicate};

use crate::error::Error;
use crate::evented::Evented;
use crate::poll::{Poller, Wakeup};
use crate::ready::{PollOpt, Ready, Token, WAKE_TOKEN};
use crate::source::{registration_error, Binding, SourceState};

verus! {

/// The binding of a software source together with the poller it is bound to.
struct Bound {
    binding: Binding,
    wake: Arc<Wakeup>,
}

/// What the lock of a binding keeps: a bound source watches readable, under a
/// token other than the poller's own.
struct BoundWf;

impl RwLockPredicate<Option<Bound>> for BoundWf {
    closed spec fn inv(self, bound: Option<Bound>) -> bool {
        bound matches Some(b) ==> b.binding.interest.readable && b.binding.token.0 != WAKE_TOKEN
    }
}

/// The state a `Registration` shares with its `SetReadiness` handles: the
/// readiness last set, and the binding, each under its own synchronization.
pub struct RegistrationInner {
    readiness: AtomicUsize,
    bound: RwLock<Option<Bound>, BoundWf>,
}

impl RegistrationInner {
    pub fn new() -> RegistrationInner {
        RegistrationInner {
            readiness: AtomicUsize::new(Ready::empty().as_usize()),
            bound: RwLock::new(None, Ghost(BoundWf)),
        }
    }

    /// The readiness last set. Other threads may set it at any moment.
    pub fn readiness(&self) -> Ready {
        Ready::from_usize(self.readiness.load(Ordering::Acquire))
    }

    fn state(&self, bound: &Option<Bound>) -> (s: SourceState)
        ensures
            s.binding == match bound {
                Some(b) => Some(b.binding),
                None => None::<Binding>,
            },
    {
        let binding = match bound {
            Some(b) => Some(b.binding),
            None => None,
        };
        SourceState { readiness: self.readiness(), binding }
    }

    /// Sets the readiness, which must hold readable, and when the source is
    /// bound notes it, within the interest, for the poller's next wait.
    pub fn set_readiness(&self, ready: Ready) -> (r: Result<(), Error>)
        ensures
            !ready.readable ==> r == Err::<(), Error>(Error::InvalidReadiness),
            ready.readable ==> (r matches Err(e) ==> e is Io),
    {
        let read = self.bound.acquire_read();
        let bound = read.borrow();
        let mut state = self.state(bound);
        let r = match state.set_readiness(ready) {
            Err(e) => Err(e),
            Ok(note) => {
                self.readiness.store(ready.as_usize(), Ordering::Release);
                Self::send_ready(bound, note)
            },
        };
        read.release_read();
        r
    }

    /// Notes `note` with the poller the source is bound to.
    fn send_ready(bound: &Option<Bound>, note: Option<(Token, Ready)>) -> (r: Result<(), Error>)
        requires
            note matches Some((t, x)) ==> x.readable && t.0 != WAKE_TOKEN,
        ensures
            note is None || bound is None ==> r is Ok,
            r matches Err(e) ==> e is Io,
    {
        match (note, bound) {
            (Some((token, readiness)), Some(b)) => b.wake.notify(token, readiness),
            _ => Ok(()),
        }
    }

    /// Withdraws the pending entry of `previous` from the poller of `bound`.
    fn withdraw_from(bound: &Option<Bound>, previous: Option<Token>) -> (r: Option<Ready>)
        ensures
            r matches Some(x) ==> x.readable,
    {
        match (previous, bound) {
            (Some(token), Some(b)) => b.wake.withdraw(token),
            _ => None,
        }
    }

    /// Binds the source to `token` with the poller whose wakeup side is
    /// `wake`; readiness already set readable is noted at once under the new
    /// token.
    pub fn register(&self, wake: Option<&Arc<Wakeup>>, token: Token, interest: Ready, opts: PollOpt) -> (r: Result<(), Error>)
        ensures
            registration_error(token, interest, opts) matches Some(e) ==> r == Err::<(), Error>(e),
            registration_error(token, interest, opts) is None && wake is None ==> r == Err::<
                (),
                Error,
            >(Error::WrongMode),
            registration_error(token, interest, opts) is None && wake is Some ==> r is Ok,
    {
        let (bound, write) = self.bound.acquire_write();
        let mut state = self.state(&bound);
        match state.register(token, interest, opts) {
            Err(e) => {
                write.release_write(bound);
                Err(e)
            },
            Ok((previous, note)) => match wake {
                None => {
                    write.release_write(bound);
                    Err(Error::WrongMode)
                },
                Some(w) => {
                    let _ = Self::withdraw_from(&bound, previous);
                    let binding = Binding { token, interest };
                    write.release_write(Some(Bound { binding, wake: w.clone() }));
                    if let Some((t, readiness)) = note {
                        let _ = w.notify(t, readiness);
                    }
                    Ok(())
                },
            },
        }
    }

    /// Moves the binding to `token` and `interest` with the poller whose
    /// wakeup side is `wake`, without noting the readiness again; an entry
    /// still pending under the old token moves to the new one.
    pub fn reregister(&self, wake: Option<&Arc<Wakeup>>, token: Token, interest: Ready, opts: PollOpt) -> (r: Result<(), Error>)
        ensures
            registration_error(token, interest, opts) matches Some(e) ==> r == Err::<(), Error>(e),
            registration_error(token, interest, opts) is None && wake is None ==> r == Err::<
                (),
                Error,
            >(Error::WrongMode),
            registration_error(token, interest, opts) is None && wake is Some ==> r is Ok,
    {
        let (bound, write) = self.bound.acquire_write();
        let mut state = self.state(&bound);
        match state.reregister(token, interest, opts) {
            Err(e) => {
                write.release_write(bound);
                Err(e)
            },
            Ok(previous) => match wake {
                None => {
                    write.release_write(bound);
                    Err(Error::WrongMode)
                },
                Some(w) => {
                    let moved = Self::withdraw_from(&bound, previous);
                    let binding = Binding { token, interest };
                    write.release_write(Some(Bound { binding, wake: w.clone() }));
                    if let Some(readiness) = moved {
                        let _ = w.notify(token, readiness.intersect(interest));
                    }
                    Ok(())
                },
            },
        }
    }

    /// Unbinds the source and withdraws its pending entry. The readiness is
    /// kept, and setting it later notes nothing until the next registration.
    pub fn deregister(&self) {
        let (bound, write) = self.bound.acquire_write();
        let mut state = self.state(&bound);
        let previous = state.deregister();
        let _ = Self::withdraw_from(&bound, previous);
        write.release_write(None);
    }
}

/// A software event source: registered with a `Poller` like a descriptor,
/// made ready by its `SetReadiness` handles.
#[derive(Clone)]
pub struct Registration {
    inner: Arc<RegistrationInner>,
}

impl Registration {
    /// A new source, unregistered and not ready, with its producer handle.
    pub fn new2() -> (Registration, SetReadiness) {
        let inner = Arc::new(RegistrationInner::new());
        (Registration { inner: inner.clone() }, SetReadiness::new(inner))
    }
}

impl Evented for Registration {
    /// Registers the source; the interest must hold readable and the poller
    /// must own its multiplexer.
    fn register(&self, poll: &Poller, token: Token, interest: Ready, opts: PollOpt) -> (r: Result<(), Error>)
        ensures
            registration_error(token, interest, opts) matches Some(e) ==> r == Err::<(), Error>(e),
            registration_error(token, interest, opts) is None ==> (r is Ok <==> poll.owning()),
            registration_error(token, interest, opts) is None && !poll.owning() ==> r == Err::<
                (),
                Error,
            >(Error::WrongMode),
    {
        self.inner.register(poll.wakeup(), token, interest, opts)
    }

    /// Moves the registration to `token` and `interest`; the same arguments
    /// are refused as by `register`.
    fn reregister(&self, poll: &Poller, token: Token, interest: Ready, opts: PollOpt) -> (r: Result<(), Error>)
        ensures
            registration_error(token, interest, opts) matches Some(e) ==> r == Err::<(), Error>(e),
            registration_error(token, interest, opts) is None ==> (r is Ok <==> poll.owning()),
            registration_error(token, interest, opts) is None && !poll.owning() ==> r == Err::<
                (),
                Error,
            >(Error::WrongMode),
    {
        self.inner.reregister(poll.wakeup(), token, interest, opts)
    }

    /// Unbinds the source; this always succeeds.
    fn deregister(&self, _poll: &Poller) -> (r: Result<(), Error>)
        ensures
            r is Ok,
    {
        self.inner.deregister();
        Ok(())
    }
}

/// The producer side of a software source; clones share the source.
#[derive(Clone)]
pub struct SetReadiness {
    inner: Arc<RegistrationInner>,
}

impl SetReadiness {
    fn new(inner: Arc<RegistrationInner>) -> SetReadiness {
        SetReadiness { inner }
    }

    /// The readiness last set.
    pub fn readiness(&self) -> Ready {
        self.inner.readiness()
    }

    /// Sets the readiness, which must hold readable. When the source is
    /// registered, the poller's next wait reports it under the source's
    /// token.
    pub fn set_readiness(&self, ready: Ready) -> (r: Result<(), Error>)
        ensures
            !ready.readable ==> r == Err::<(), Error>(Error::InvalidReadiness),
            ready.readable ==> (r matches Err(e) ==> e is Io),
    {
        self.inner.set_readiness(ready)
    }
}

} // verus!
