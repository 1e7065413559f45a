pub mod convert;
pub mod error;
pub mod event;
pub mod evented;
pub mod events;
pub mod interest;
mod platform;
pub mod poll;
pub mod ready;
pub mod registration;
pub mod source;
pub mod unix;
pub mod vectored;

pub use convert::millis;
pub use error::Error;
pub use evented::Evented;
pub use events::{Event, Events};
pub use interest::{convert_event_to_ready, convert_interests_to_ready, convert_ready_to_interests, validate_args, Interests, RawEvent};
pub use poll::Poller;
pub use ready::{PollOpt, Ready, Token};
pub use registration::{Registration, SetReadiness};
pub use unix::EventedFd;
