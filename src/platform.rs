//! The boundary with the operating system's multiplexer, reached through mio.
//! The declared outside types, the `external_body` functions and the
//! `assume_specification`s here are taken on trust; the rest of the crate is
//! proved against what they state.
use vstd::prelude::*;

use crate::interest::{Interests, RawEvent};
use crate::convert::{nanos_of, secs_of};
use crate::poll::Waited;

verus! {

/// An error of the operating system, carried through unchanged.
#[verifier::external_type_specification]
#[verifier::external_body]
pub struct ExIoError(std::io::Error);

/// mio's poller: the owner of an epoll (or kqueue) instance.
#[verifier::external_type_specification]
#[verifier::external_body]
pub struct ExMioPoll(mio::Poll);

/// mio's handle for registering sources with a poller.
#[verifier::external_type_specification]
#[verifier::external_body]
pub struct ExMioRegistry(mio::Registry);

/// mio's cross-thread wakeup for a poller.
#[verifier::external_type_specification]
#[verifier::external_body]
pub struct ExMioWaker(mio::Waker);

} // verus!

verus! {

/// mio's description of what to watch.
#[verifier::external_type_specification]
#[verifier::external_body]
pub struct ExMioInterest(mio::Interest);

/// Relies on `mio::Poll::new`, `mio::Registry::try_clone` and
/// `mio::Waker::new`: a new poller, a second handle on its registry, and the
/// poller's one waker, whose wakeups arrive as readable events carrying
/// `token`; or the error of the first system call that failed. The poller is
/// new, so mio's debug check that a poller has at most one waker holds.
#[verifier::external_body]
pub(crate) fn poll_with_waker(token: usize) -> (r: Result<(mio::Poll, mio::Registry, mio::Waker), std::io::Error>) {
    let poll = mio::Poll::new()?;
    let registry = poll.registry().try_clone()?;
    let waker = mio::Waker::new(&registry, mio::Token(token))?;
    Ok((poll, registry, waker))
}

/// Relies on `mio::Waker::wake`: wakes the poller's current or next wait.
#[verifier::external_body]
pub(crate) fn waker_wake(waker: &mio::Waker) -> (r: Result<(), std::io::Error>) {
    waker.wake()
}

/// Relies on `mio::Poll::poll`: waits up to `timeout` (forever when `None`)
/// for events, and hands each one out with its token and signals.
#[verifier::external_body]
pub(crate) fn poll_wait(poll: &mut mio::Poll, capacity: usize, timeout: Option<std::time::Duration>) -> (r: Waited) {
    let mut events = mio::Events::with_capacity(capacity);
    match poll.poll(&mut events, timeout) {
        Ok(()) => Waited::Events(events.iter().map(|e| RawEvent {
            token: e.token().0,
            readable: e.is_readable(),
            writable: e.is_writable(),
            error: e.is_error(),
            read_closed: e.is_read_closed(),
            write_closed: e.is_write_closed(),
            priority: e.is_priority(),
        }).collect()),
        Err(e) if e.kind() == std::io::ErrorKind::Interrupted => Waited::Interrupted(e),
        Err(e) => Waited::Failed(e),
    }
}

/// Relies on mio's `Interest` constants and `Interest::add`: the mio interest
/// with the same flags.
#[verifier::external_body]
pub(crate) fn mio_interest(interests: Interests) -> (r: mio::Interest) {
    match interests {
        Interests::Readable => mio::Interest::READABLE,
        Interests::Writable => mio::Interest::WRITABLE,
        Interests::Both => mio::Interest::READABLE.add(mio::Interest::WRITABLE),
    }
}

/// Relies on `mio::Registry::register`: watches descriptor `fd` under `token`.
#[verifier::external_body]
pub(crate) fn fd_register(registry: &mio::Registry, fd: i32, token: usize, interest: mio::Interest) -> (r: Result<(), std::io::Error>) {
    registry.register(&mut mio::unix::SourceFd(&fd), mio::Token(token), interest)
}

/// Relies on `mio::Registry::reregister`: changes the token and interest of
/// descriptor `fd`.
#[verifier::external_body]
pub(crate) fn fd_reregister(registry: &mio::Registry, fd: i32, token: usize, interest: mio::Interest) -> (r: Result<(), std::io::Error>) {
    registry.reregister(&mut mio::unix::SourceFd(&fd), mio::Token(token), interest)
}

/// Relies on `mio::Registry::deregister`: stops watching descriptor `fd`.
#[verifier::external_body]
pub(crate) fn fd_deregister(registry: &mio::Registry, fd: i32) -> (r: Result<(), std::io::Error>) {
    registry.deregister(&mut mio::unix::SourceFd(&fd))
}

/// Relies on `Duration::as_secs`: the whole seconds.
pub assume_specification[ core::time::Duration::as_secs ](d: &core::time::Duration) -> (r: u64)
    ensures
        r == secs_of(*d),
;

/// Relies on `Duration::subsec_nanos`, documented to be below one billion.
pub assume_specification[ core::time::Duration::subsec_nanos ](d: &core::time::Duration) -> (r: u32)
    ensures
        r == nanos_of(*d),
        r < 1_000_000_000,
;

} // verus!
