use vstd::prelude::*;

use crate::error::Error;
use crate::evented::Evented;
use crate::interest::{convert_ready_to_interests, validate_args};
use crate::platform::{fd_deregister, fd_register, fd_reregister, mio_interest};
use crate::poll::Poller;
use crate::ready::{PollOpt, Ready, Token};

verus! {

/// A raw descriptor, registered as it is. The descriptor stays the caller's.
#[derive(Debug)]
pub struct EventedFd<'a>(pub &'a i32);

impl<'a> Evented for EventedFd<'a> {
    /// Watches the descriptor; an empty interest stops watching it instead.
    fn register(&self, poll: &Poller, token: Token, interest: Ready, opts: PollOpt) -> (r: Result<(), Error>)
        ensures
            opts.is_supported() ==> (r is Ok || r matches Err(Error::Io(_))),
    {
        match validate_args(opts) {
            Ok(()) => {},
            Err(e) => return Err(e),
        }
        match convert_ready_to_interests(interest) {
            None => self.deregister(poll),
            Some(i) => match fd_register(poll.registry(), *self.0, token.0, mio_interest(i)) {
                Ok(()) => Ok(()),
                Err(e) => Err(Error::Io(e)),
            },
        }
    }

    /// Changes the token and interest; an empty interest stops watching the
    /// descriptor instead.
    fn reregister(&self, poll: &Poller, token: Token, interest: Ready, opts: PollOpt) -> (r: Result<(), Error>)
        ensures
            opts.is_supported() ==> (r is Ok || r matches Err(Error::Io(_))),
    {
        match validate_args(opts) {
            Ok(()) => {},
            Err(e) => return Err(e),
        }
        match convert_ready_to_interests(interest) {
            None => self.deregister(poll),
            Some(i) => match fd_reregister(poll.registry(), *self.0, token.0, mio_interest(i)) {
                Ok(()) => Ok(()),
                Err(e) => Err(Error::Io(e)),
            },
        }
    }

    fn deregister(&self, poll: &Poller) -> (r: Result<(), Error>)
        ensures
            r is Ok || r matches Err(Error::Io(_)),
    {
        match fd_deregister(poll.registry(), *self.0) {
            Ok(()) => Ok(()),
            Err(e) => Err(Error::Io(e)),
        }
    }
}

} // verus!
