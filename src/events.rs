use vstd::prelude::*;

use crate::interest::{convert_event_to_ready, RawEvent};
use crate::ready::{ready_of, Ready, Token};

verus! {

/// A delivered event: the token of the registration and its readiness.
#[derive(Clone, Copy, Debug, PartialEq, Eq, Structural)]
pub struct Event {
    pub readiness: Ready,
    pub token: Token,
}

impl Event {
    pub fn new(readiness: Ready, token: Token) -> (e: Event)
        ensures
            e == (Event { readiness, token }),
    {
        Event { readiness, token }
    }

    pub fn readiness(&self) -> (r: Ready)
        ensures
            r == self.readiness,
    {
        self.readiness
    }

    pub fn token(&self) -> (t: Token)
        ensures
            t == self.token,
    {
        self.token
    }
}

/// The events that the multiplexer reported, in order, without those that
/// carry `wake` (the poller's own wakeups), each reduced to the flag model.
pub open spec fn os_events(raw: Seq<RawEvent>, wake: usize) -> Seq<Event>
    decreases raw.len(),
{
    if raw.len() == 0 {
        Seq::empty()
    } else {
        let rest = os_events(raw.drop_last(), wake);
        let e = raw.last();
        if e.token == wake {
            rest
        } else {
            rest.push(Event { readiness: ready_of(e.readable, e.writable), token: Token(e.token) })
        }
    }
}

/// Pending software readiness, as events.
pub open spec fn pending_events(pending: Seq<(Token, Ready)>) -> Seq<Event> {
    pending.map_values(|p: (Token, Ready)| Event { readiness: p.1, token: p.0 })
}

/// A reusable buffer of delivered events. Its capacity is a hint for how many
/// events one wait collects; the buffer itself grows as needed.
#[derive(Debug)]
pub struct Events {
    inner: Vec<Event>,
    capacity: usize,
}

impl View for Events {
    type V = Seq<Event>;

    closed spec fn view(&self) -> Seq<Event> {
        self.inner@
    }
}

impl Events {
    /// The capacity the buffer was created with.
    pub closed spec fn capacity_spec(&self) -> usize {
        self.capacity
    }

    pub fn with_capacity(capacity: usize) -> (r: Events)
        ensures
            r@ == Seq::<Event>::empty(),
            r.capacity_spec() == capacity,
    {
        Events { inner: Vec::with_capacity(capacity), capacity }
    }

    /// The event at `idx`, if there is one.
    pub fn get(&self, idx: usize) -> (r: Option<Event>)
        ensures
            idx < self@.len() ==> r == Some(self@[idx as int]),
            idx >= self@.len() ==> r is None,
    {
        if idx < self.inner.len() {
            Some(self.inner[idx])
        } else {
            None
        }
    }

    pub fn len(&self) -> (n: usize)
        ensures
            n == self@.len(),
    {
        self.inner.len()
    }

    pub fn capacity(&self) -> (n: usize)
        ensures
            n == self.capacity_spec(),
    {
        self.capacity
    }

    pub fn is_empty(&self) -> (b: bool)
        ensures
            b == (self@.len() == 0),
    {
        self.inner.len() == 0
    }

    /// Walks the events from the first.
    pub fn iter(&self) -> (it: Iter<'_>)
        ensures
            it.events() == self@,
            it.pos() == 0,
    {
        Iter { inner: self, pos: 0 }
    }

    /// Walks the events from the first, taking the buffer.
    pub fn into_iter(self) -> (it: IntoIter)
        ensures
            it.events() == self@,
            it.pos() == 0,
    {
        IntoIter { inner: self, pos: 0 }
    }

    pub fn clear(&mut self)
        ensures
            final(self)@ == Seq::<Event>::empty(),
            final(self).capacity_spec() == old(self).capacity_spec(),
    {
        self.inner.clear();
    }

    /// Appends the events of one wait: first those the multiplexer reported,
    /// in order and without the poller's own wakeups (`wake`), then the
    /// pending software readiness, in order.
    pub fn fill(&mut self, raw: &Vec<RawEvent>, wake: usize, pending: &Vec<(Token, Ready)>)
        ensures
            final(self)@ == old(self)@ + os_events(raw@, wake) + pending_events(pending@),
            final(self).capacity_spec() == old(self).capacity_spec(),
    {
        let ghost start = self@;
        let mut i: usize = 0;
        while i < raw.len()
            invariant
                i <= raw@.len(),
                self@ == start + os_events(raw@.take(i as int), wake),
                self.capacity_spec() == old(self).capacity_spec(),
            decreases raw@.len() - i,
        {
            let e = &raw[i];
            assert(raw@.take(i + 1).drop_last() =~= raw@.take(i as int));
            if e.token != wake {
                let readiness = convert_event_to_ready(e);
                self.inner.push(Event { readiness, token: Token(e.token) });
            }
            i = i + 1;
        }
        assert(raw@.take(raw@.len() as int) =~= raw@);
        let ghost mid = self@;
        let mut j: usize = 0;
        while j < pending.len()
            invariant
                j <= pending@.len(),
                self@ == mid + pending_events(pending@.take(j as int)),
                self.capacity_spec() == old(self).capacity_spec(),
            decreases pending@.len() - j,
        {
            let (token, readiness) = pending[j];
            self.inner.push(Event { readiness, token });
            assert(pending_events(pending@.take(j + 1)) =~= pending_events(pending@.take(j as int)).push(Event { readiness, token }));
            j = j + 1;
        }
        assert(pending@.take(pending@.len() as int) =~= pending@);
    }
}

/// Walks the events of a borrowed buffer.
#[derive(Debug)]
pub struct Iter<'a> {
    inner: &'a Events,
    pos: usize,
}

impl<'a> Iter<'a> {
    pub closed spec fn events(&self) -> Seq<Event> {
        self.inner@
    }

    pub closed spec fn pos(&self) -> nat {
        self.pos as nat
    }

    /// The next event, or `None` once every event was handed out.
    pub fn next(&mut self) -> (r: Option<Event>)
        ensures
            final(self).events() == old(self).events(),
            old(self).pos() < old(self).events().len() ==> r == Some(
                old(self).events()[old(self).pos() as int],
            ) && final(self).pos() == old(self).pos() + 1,
            old(self).pos() >= old(self).events().len() ==> r is None && final(self).pos()
                == old(self).pos(),
    {
        if self.pos < self.inner.inner.len() {
            let e = self.inner.inner[self.pos];
            self.pos = self.pos + 1;
            Some(e)
        } else {
            None
        }
    }
}

/// Walks the events of a buffer it owns.
#[derive(Debug)]
pub struct IntoIter {
    inner: Events,
    pos: usize,
}

impl IntoIter {
    pub closed spec fn events(&self) -> Seq<Event> {
        self.inner@
    }

    pub closed spec fn pos(&self) -> nat {
        self.pos as nat
    }

    /// The next event, or `None` once every event was handed out.
    pub fn next(&mut self) -> (r: Option<Event>)
        ensures
            final(self).events() == old(self).events(),
            old(self).pos() < old(self).events().len() ==> r == Some(
                old(self).events()[old(self).pos() as int],
            ) && final(self).pos() == old(self).pos() + 1,
            old(self).pos() >= old(self).events().len() ==> r is None && final(self).pos()
                == old(self).pos(),
    {
        if self.pos < self.inner.inner.len() {
            let e = self.inner.inner[self.pos];
            self.pos = self.pos + 1;
            Some(e)
        } else {
            None
        }
    }
}

} // verus!
