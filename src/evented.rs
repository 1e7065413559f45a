use vstd::prelude::*;

use crate::error::Error;
use crate::poll::Poller;
use crate::ready::{PollOpt, Ready, Token};

verus! {

/// A source of readiness events that can be registered with a `Poller`.
/// Every implementation refuses options other than edge-triggered alone
/// before anything reaches the multiplexer.
pub trait Evented {
    /// Starts delivering the readiness in `interest` under `token`.
    fn register(&self, poll: &Poller, token: Token, interest: Ready, opts: PollOpt) -> (r: Result<
        (),
        Error,
    >)
        ensures
            !opts.is_supported() ==> r == Err::<(), Error>(Error::InvalidOptions),
    ;

    /// Changes the token and interest of an earlier registration.
    fn reregister(&self, poll: &Poller, token: Token, interest: Ready, opts: PollOpt) -> (r: Result<
        (),
        Error,
    >)
        ensures
            !opts.is_supported() ==> r == Err::<(), Error>(Error::InvalidOptions),
    ;

    /// Stops delivering events.
    fn deregister(&self, poll: &Poller) -> (r: Result<(), Error>);
}

} // verus!
