pub use crate::evented::Evented;
pub use crate::events::{Event, Events, IntoIter, Iter};
