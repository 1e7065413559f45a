use vstd::prelude::*;

verus! {

/// What an operation of this library can fail with.
#[derive(Debug)]
pub enum Error {
    /// A registration asked for options other than edge-triggered without one-shot.
    InvalidOptions,
    /// The interest given does not suit the source (a software source must be
    /// registered for readable; a descriptor needs a non-empty interest).
    InvalidInterest,
    /// A software source was set to a readiness without the readable flag.
    InvalidReadiness,
    /// The token is the one the poller keeps for its own wakeups.
    ReservedToken,
    /// The operation needs a poller that owns its multiplexer.
    WrongMode,
    /// The underlying multiplexer failed; its error is kept as it came.
    Io(std::io::Error),
}

impl Error {
    /// Errors caused by an argument the caller passed.
    pub open spec fn is_invalid_input_spec(&self) -> bool {
        match self {
            Error::InvalidOptions | Error::InvalidInterest | Error::InvalidReadiness
            | Error::ReservedToken => true,
            _ => false,
        }
    }

    pub fn is_invalid_input(&self) -> (b: bool)
        ensures
            b == self.is_invalid_input_spec(),
    {
        match self {
            Error::InvalidOptions | Error::InvalidInterest | Error::InvalidReadiness
            | Error::ReservedToken => true,
            _ => false,
        }
    }

    /// Whether the error came from the underlying multiplexer.
    pub fn is_io(&self) -> (b: bool)
        ensures
            b == (self is Io),
    {
        match self {
            Error::Io(_) => true,
            _ => false,
        }
    }
}

} // verus!
