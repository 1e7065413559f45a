use vstd::prelude::*;

verus! {

/// The readiness of an event source: a set over the two kinds, readable and
/// writable. Every combination of the two flags is a valid value.
#[derive(Clone, Copy, Debug, PartialEq, Eq, Structural, Hash)]
pub struct Ready {
    pub readable: bool,
    pub writable: bool,
}

/// The spec value of a readiness with the given flags.
pub open spec fn ready_of(readable: bool, writable: bool) -> Ready {
    Ready { readable, writable }
}

/// The integer that encodes a readiness: bit 0 is readable, bit 1 writable.
pub open spec fn ready_code(r: Ready) -> nat {
    (if r.readable { 1nat } else { 0nat }) + (if r.writable { 2nat } else { 0nat })
}

impl Ready {
    pub open spec fn is_empty_spec(self) -> bool {
        !self.readable && !self.writable
    }

    pub open spec fn union_spec(self, other: Ready) -> Ready {
        ready_of(self.readable || other.readable, self.writable || other.writable)
    }

    pub open spec fn intersect_spec(self, other: Ready) -> Ready {
        ready_of(self.readable && other.readable, self.writable && other.writable)
    }

    /// The readiness with no flag set.
    pub fn empty() -> (r: Ready)
        ensures
            r == ready_of(false, false),
    {
        Ready { readable: false, writable: false }
    }

    pub fn readable() -> (r: Ready)
        ensures
            r == ready_of(true, false),
    {
        Ready { readable: true, writable: false }
    }

    pub fn writable() -> (r: Ready)
        ensures
            r == ready_of(false, true),
    {
        Ready { readable: false, writable: true }
    }

    pub fn all() -> (r: Ready)
        ensures
            r == ready_of(true, true),
    {
        Ready { readable: true, writable: true }
    }

    pub fn is_empty(&self) -> (b: bool)
        ensures
            b == self.is_empty_spec(),
    {
        !self.readable && !self.writable
    }

    pub fn is_readable(&self) -> (b: bool)
        ensures
            b == self.readable,
    {
        self.readable
    }

    pub fn is_writable(&self) -> (b: bool)
        ensures
            b == self.writable,
    {
        self.writable
    }

    /// Whether every flag of `other` is set in `self`.
    pub fn contains(&self, other: Ready) -> (b: bool)
        ensures
            b == ((other.readable ==> self.readable) && (other.writable ==> self.writable)),
    {
        (!other.readable || self.readable) && (!other.writable || self.writable)
    }

    /// The flags set in either operand.
    pub fn union(self, other: Ready) -> (r: Ready)
        ensures
            r == self.union_spec(other),
    {
        Ready { readable: self.readable || other.readable, writable: self.writable || other.writable }
    }

    /// The flags set in both operands.
    pub fn intersect(self, other: Ready) -> (r: Ready)
        ensures
            r == self.intersect_spec(other),
    {
        Ready {
            readable: self.readable && other.readable,
            writable: self.writable && other.writable,
        }
    }

    /// Adds the flags of `other` to `self`.
    pub fn insert(&mut self, other: Ready)
        ensures
            *final(self) == old(self).union_spec(other),
    {
        self.readable = self.readable || other.readable;
        self.writable = self.writable || other.writable;
    }

    /// Removes the flags of `other` from `self`.
    pub fn remove(&mut self, other: Ready)
        ensures
            *final(self) == ready_of(
                old(self).readable && !other.readable,
                old(self).writable && !other.writable,
            ),
    {
        self.readable = self.readable && !other.readable;
        self.writable = self.writable && !other.writable;
    }

    /// The integer code of this readiness.
    pub fn as_usize(&self) -> (u: usize)
        ensures
            u as nat == ready_code(*self),
    {
        let low: usize = if self.readable { 1 } else { 0 };
        let high: usize = if self.writable { 2 } else { 0 };
        low + high
    }

    /// Decodes an integer: bit 0 gives readable, bit 1 writable, other bits are
    /// dropped.
    pub fn from_usize(u: usize) -> (r: Ready)
        ensures
            r == ready_of(u % 2 == 1, (u / 2) % 2 == 1),
    {
        Ready { readable: u % 2 == 1, writable: (u / 2) % 2 == 1 }
    }
}

/// Decoding the code of a readiness gives the readiness back.
pub proof fn lemma_ready_code_round_trip(r: Ready)
    ensures
        ready_of(ready_code(r) % 2 == 1, (ready_code(r) / 2) % 2 == 1) == r,
{
}

/// A caller-chosen number that identifies a registration; every event of the
/// registration carries it back unchanged.
#[derive(Clone, Copy, Debug, PartialEq, Eq, Structural, Hash, PartialOrd, Ord)]
pub struct Token(pub usize);

/// The options of a registration. Only edge-triggered delivery, without
/// one-shot, is supported.
#[derive(Clone, Copy, Debug, PartialEq, Eq, Structural, Hash)]
pub struct PollOpt {
    pub edge: bool,
    pub level: bool,
    pub oneshot: bool,
}

impl PollOpt {
    /// The options that registrations accept: edge-triggered and nothing else.
    pub open spec fn is_supported(self) -> bool {
        self.edge && !self.level && !self.oneshot
    }

    pub fn empty() -> (o: PollOpt)
        ensures
            o == (PollOpt { edge: false, level: false, oneshot: false }),
    {
        PollOpt { edge: false, level: false, oneshot: false }
    }

    pub fn edge() -> (o: PollOpt)
        ensures
            o == (PollOpt { edge: true, level: false, oneshot: false }),
    {
        PollOpt { edge: true, level: false, oneshot: false }
    }

    pub fn level() -> (o: PollOpt)
        ensures
            o == (PollOpt { edge: false, level: true, oneshot: false }),
    {
        PollOpt { edge: false, level: true, oneshot: false }
    }

    pub fn oneshot() -> (o: PollOpt)
        ensures
            o == (PollOpt { edge: false, level: false, oneshot: true }),
    {
        PollOpt { edge: false, level: false, oneshot: true }
    }

    /// The options set in either operand.
    pub fn union(self, other: PollOpt) -> (o: PollOpt)
        ensures
            o == (PollOpt {
                edge: self.edge || other.edge,
                level: self.level || other.level,
                oneshot: self.oneshot || other.oneshot,
            }),
    {
        PollOpt {
            edge: self.edge || other.edge,
            level: self.level || other.level,
            oneshot: self.oneshot || other.oneshot,
        }
    }

    pub fn is_edge(&self) -> (b: bool)
        ensures
            b == self.edge,
    {
        self.edge
    }

    pub fn is_level(&self) -> (b: bool)
        ensures
            b == self.level,
    {
        self.level
    }

    pub fn is_oneshot(&self) -> (b: bool)
        ensures
            b == self.oneshot,
    {
        self.oneshot
    }
}

/// The token under which a poller receives its own wakeups; registrations may
/// not use it.
pub const WAKE_TOKEN: usize = usize::MAX;

} // verus!
