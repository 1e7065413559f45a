//! The decisions of a software event source, apart from the threads and locks
//! that carry them out: a source is either unbound or bound to one token of a
//! poller, and a poller keeps a queue of pending readiness, at most one entry
//! per token, that its next wait hands out as events.
use vstd::prelude::*;

use crate::error::Error;
use crate::ready::{ready_of, PollOpt, Ready, Token, WAKE_TOKEN};

verus! {

/// The queue without the entries of token `t`.
pub open spec fn without(q: Seq<(Token, Ready)>, t: Token) -> Seq<(Token, Ready)> {
    q.filter(|e: (Token, Ready)| e.0 != t)
}

/// Whether the queue holds an entry of token `t`.
pub open spec fn queued(q: Seq<(Token, Ready)>, t: Token) -> bool {
    exists|i: int| 0 <= i < q.len() && (#[trigger] q[i]).0 == t
}

/// No two entries of the queue share a token.
pub open spec fn tokens_unique(q: Seq<(Token, Ready)>) -> bool {
    forall|i: int, j: int| 0 <= i < j < q.len() ==> (#[trigger] q[i]).0 != (#[trigger] q[j]).0
}

/// A poller's pending queue as its lock keeps it: one entry per token, every
/// entry readable and none under the poller's own token.
pub open spec fn pending_wf(q: Seq<(Token, Ready)>) -> bool {
    &&& tokens_unique(q)
    &&& forall|k: int| 0 <= k < q.len() ==> (#[trigger] q[k]).1.readable && q[k].0.0 != WAKE_TOKEN
}

/// The readiness of the entry of token `t`, for a queue that holds one.
pub open spec fn pending_readiness(q: Seq<(Token, Ready)>, t: Token) -> Ready {
    q[choose|k: int| 0 <= k < q.len() && (#[trigger] q[k]).0 == t].1
}

/// The queue after readiness `r` was noted for token `t`: an earlier entry of
/// `t` gives way to the new one, which goes last.
pub open spec fn notified(q: Seq<(Token, Ready)>, t: Token, r: Ready) -> Seq<(Token, Ready)> {
    without(q, t).push((t, r))
}

/// Removing a token's entries, unfolded at the last entry.
pub proof fn lemma_without_last(q: Seq<(Token, Ready)>, t: Token)
    requires
        q.len() > 0,
    ensures
        without(q, t) == if q.last().0 != t {
            without(q.drop_last(), t).push(q.last())
        } else {
            without(q.drop_last(), t)
        },
{
    reveal_with_fuel(Seq::filter, 1);
}

/// The pending readiness of a poller.
pub struct ReadyQueue {
    entries: Vec<(Token, Ready)>,
}

impl View for ReadyQueue {
    type V = Seq<(Token, Ready)>;

    closed spec fn view(&self) -> Seq<(Token, Ready)> {
        self.entries@
    }
}

impl ReadyQueue {
    pub fn new() -> (q: ReadyQueue)
        ensures
            q@ == Seq::<(Token, Ready)>::empty(),
    {
        ReadyQueue { entries: Vec::new() }
    }

    pub fn len(&self) -> (n: usize)
        ensures
            n == self@.len(),
    {
        self.entries.len()
    }

    /// Removes the entry of `token` and returns its readiness, if there was one.
    pub fn withdraw(&mut self, token: Token) -> (r: Option<Ready>)
        ensures
            final(self)@ == without(old(self)@, token),
            r is Some <==> queued(old(self)@, token),
            r matches Some(x) ==> old(self)@.contains((token, x)),
    {
        let ghost q = self@;
        let mut kept: Vec<(Token, Ready)> = Vec::new();
        let mut found: Option<Ready> = None;
        let mut i: usize = 0;
        while i < self.entries.len()
            invariant
                i <= q.len(),
                self@ == q,
                kept@ == without(q.take(i as int), token),
                found is Some <==> queued(q.take(i as int), token),
                found matches Some(x) ==> q.contains((token, x)),
            decreases q.len() - i,
        {
            let e = self.entries[i];
            let ghost prefix = q.take(i as int);
            let ghost next = q.take(i + 1);
            assert(next.drop_last() =~= prefix);
            assert(next.last() == e);
            proof {
                lemma_without_last(next, token);
            }
            if e.0 != token {
                kept.push(e);
            } else if found.is_none() {
                found = Some(e.1);
                assert(q[i as int] == (token, e.1));
            }
            proof {
                if queued(next, token) {
                    let k = choose|k: int| 0 <= k < next.len() && (#[trigger] next[k]).0 == token;
                    if k < i {
                        assert(prefix[k] == next[k]);
                    }
                }
                if queued(prefix, token) {
                    let k = choose|k: int| 0 <= k < prefix.len() && (#[trigger] prefix[k]).0 == token;
                    assert(next[k] == prefix[k]);
                }
                if e.0 == token {
                    assert(next[i as int] == e);
                }
            }
            i = i + 1;
        }
        assert(q.take(q.len() as int) =~= q);
        self.entries = kept;
        found
    }

    /// Notes readiness `readiness` for `token`, replacing an earlier entry of it.
    pub fn notify(&mut self, token: Token, readiness: Ready)
        ensures
            final(self)@ == notified(old(self)@, token, readiness),
    {
        let _ = self.withdraw(token);
        self.entries.push((token, readiness));
    }

    /// Hands out every entry, in order, and leaves the queue empty.
    pub fn drain(&mut self) -> (r: Vec<(Token, Ready)>)
        ensures
            r@ == old(self)@,
            final(self)@ == Seq::<(Token, Ready)>::empty(),
    {
        let mut out: Vec<(Token, Ready)> = Vec::new();
        std::mem::swap(&mut out, &mut self.entries);
        out
    }
}

/// Removing a token's entries keeps a queue free of shared tokens and leaves
/// no entry of that token.
pub proof fn lemma_without(q: Seq<(Token, Ready)>, t: Token)
    ensures
        forall|i: int| 0 <= i < without(q, t).len() ==> (#[trigger] without(q, t)[i]).0 != t,
        forall|i: int|
            0 <= i < without(q, t).len() ==> q.contains(#[trigger] without(q, t)[i]),
        tokens_unique(q) ==> tokens_unique(without(q, t)),
        !queued(q, t) ==> without(q, t) == q,
    decreases q.len(),
{
    let p = |e: (Token, Ready)| e.0 != t;
    if q.len() > 0 {
        lemma_without(q.drop_last(), t);
        lemma_without_last(q, t);
        let w = without(q, t);
        let wd = without(q.drop_last(), t);
        assert forall|i: int| 0 <= i < w.len() implies q.contains(#[trigger] w[i]) by {
            if i < wd.len() {
                assert(q.drop_last().contains(wd[i]));
                let k = choose|k: int| 0 <= k < q.drop_last().len() && q.drop_last()[k] == wd[i];
                assert(q[k] == wd[i]);
            } else {
                assert(q[q.len() - 1] == w[i]);
            }
        }
        if tokens_unique(q) {
            assert(tokens_unique(q.drop_last())) by {
                assert forall|i: int, j: int|
                    0 <= i < j < q.drop_last().len() implies (#[trigger] q.drop_last()[i]).0
                    != (#[trigger] q.drop_last()[j]).0 by {
                    assert(q.drop_last()[i] == q[i] && q.drop_last()[j] == q[j]);
                }
            }
            if p(q.last()) {
                assert forall|i: int, j: int|
                    0 <= i < j < w.len() implies (#[trigger] w[i]).0 != (#[trigger] w[j]).0 by {
                    if j == w.len() - 1 {
                        assert(q.drop_last().contains(wd[i]));
                        let k = choose|k: int|
                            0 <= k < q.drop_last().len() && q.drop_last()[k] == wd[i];
                        assert(q[k] == wd[i]);
                        assert(q[q.len() - 1] == w[j]);
                    } else {
                        assert(w[i] == wd[i] && w[j] == wd[j]);
                    }
                }
            }
        }
        if !queued(q, t) {
            assert(!queued(q.drop_last(), t)) by {
                if queued(q.drop_last(), t) {
                    let k = choose|k: int|
                        0 <= k < q.drop_last().len() && (#[trigger] q.drop_last()[k]).0 == t;
                    assert(q[k] == q.drop_last()[k]);
                }
            }
            assert(q.last() == q[q.len() - 1]);
            assert(q.drop_last().push(q.last()) =~= q);
        }
    }
}

/// Noting readiness keeps a queue free of shared tokens, and leaves exactly
/// one entry of the token noted.
pub proof fn lemma_notified(q: Seq<(Token, Ready)>, t: Token, r: Ready)
    ensures
        tokens_unique(q) ==> tokens_unique(notified(q, t, r)),
        queued(notified(q, t, r), t),
        forall|i: int|
            0 <= i < notified(q, t, r).len() && (#[trigger] notified(q, t, r)[i]).0 == t ==> i
                == notified(q, t, r).len() - 1,
{
    lemma_without(q, t);
    let n = notified(q, t, r);
    assert(n[n.len() - 1].0 == t);
    assert forall|i: int| 0 <= i < n.len() && (#[trigger] n[i]).0 == t implies i == n.len() - 1 by {
        if i < n.len() - 1 {
            assert(n[i] == without(q, t)[i]);
        }
    }
    if tokens_unique(q) {
        assert forall|i: int, j: int| 0 <= i < j < n.len() implies (#[trigger] n[i]).0
            != (#[trigger] n[j]).0 by {
            if j < n.len() - 1 {
                assert(n[i] == without(q, t)[i] && n[j] == without(q, t)[j]);
            } else {
                assert(n[i] == without(q, t)[i]);
            }
        }
    }
}

/// Noting readable readiness under a token other than the poller's own, and
/// removing a token's entries, keep a pending queue well formed.
pub proof fn lemma_pending_wf(q: Seq<(Token, Ready)>, t: Token, r: Ready)
    requires
        pending_wf(q),
    ensures
        pending_wf(without(q, t)),
        r.readable && t.0 != WAKE_TOKEN ==> pending_wf(notified(q, t, r)),
{
    lemma_without(q, t);
    lemma_notified(q, t, r);
    let w = without(q, t);
    assert forall|k: int| 0 <= k < w.len() implies (#[trigger] w[k]).1.readable && w[k].0.0
        != WAKE_TOKEN by {
        assert(q.contains(w[k]));
    }
    if r.readable && t.0 != WAKE_TOKEN {
        let n = notified(q, t, r);
        assert forall|k: int| 0 <= k < n.len() implies (#[trigger] n[k]).1.readable && n[k].0.0
            != WAKE_TOKEN by {
            if k < w.len() {
                assert(n[k] == w[k]);
            }
        }
    }
}

/// The registration of a software source: its token and its interest.
#[derive(Clone, Copy, Debug, PartialEq, Eq, Structural)]
pub struct Binding {
    pub token: Token,
    pub interest: Ready,
}

/// What a software source holds: the readiness last set, and the registration
/// it is bound to, if any.
#[derive(Clone, Copy, Debug, PartialEq, Eq, Structural)]
pub struct SourceState {
    pub readiness: Ready,
    pub binding: Option<Binding>,
}

/// Why a registration with these arguments is refused, if it is.
pub open spec fn registration_error(token: Token, interest: Ready, opts: PollOpt) -> Option<Error> {
    if !opts.is_supported() {
        Some(Error::InvalidOptions)
    } else if token.0 == WAKE_TOKEN {
        Some(Error::ReservedToken)
    } else if !interest.readable {
        Some(Error::InvalidInterest)
    } else {
        None
    }
}

/// The readiness a bound source reports: what is set, within the interest.
pub open spec fn reported(readiness: Ready, interest: Ready) -> Ready {
    readiness.intersect_spec(interest)
}

impl SourceState {
    /// A source that was never set nor registered.
    pub fn new() -> (s: SourceState)
        ensures
            s == (SourceState { readiness: ready_of(false, false), binding: None }),
    {
        SourceState { readiness: Ready::empty(), binding: None }
    }

    /// Sets the readiness. It must hold readable; when the source is bound,
    /// the returned entry is to be noted in its poller's queue.
    pub fn set_readiness(&mut self, ready: Ready) -> (r: Result<Option<(Token, Ready)>, Error>)
        ensures
            !ready.readable ==> r == Err::<Option<(Token, Ready)>, Error>(Error::InvalidReadiness)
                && *final(self) == *old(self),
            ready.readable ==> *final(self) == (SourceState { readiness: ready, ..*old(self) }),
            ready.readable ==> r == Ok::<Option<(Token, Ready)>, Error>(
                match old(self).binding {
                    Some(b) => Some((b.token, reported(ready, b.interest))),
                    None => None,
                },
            ),
    {
        if !ready.is_readable() {
            return Err(Error::InvalidReadiness);
        }
        self.readiness = ready;
        match self.binding {
            Some(b) => Ok(Some((b.token, ready.intersect(b.interest)))),
            None => Ok(None),
        }
    }

    /// Binds the source to `token`. Returns the token of the binding it
    /// replaces, whose entry is to be withdrawn, and, when the readiness
    /// already set is readable, the entry to note under the new token, so
    /// that readiness set before the registration is not lost.
    pub fn register(&mut self, token: Token, interest: Ready, opts: PollOpt) -> (r: Result<
        (Option<Token>, Option<(Token, Ready)>),
        Error,
    >)
        ensures
            registration_error(token, interest, opts) matches Some(e) ==> r == Err::<
                (Option<Token>, Option<(Token, Ready)>),
                Error,
            >(e) && *final(self) == *old(self),
            registration_error(token, interest, opts) is None ==> *final(self) == (SourceState {
                readiness: old(self).readiness,
                binding: Some(Binding { token, interest }),
            }) && r == Ok::<(Option<Token>, Option<(Token, Ready)>), Error>(
                (
                    match old(self).binding {
                        Some(b) => Some(b.token),
                        None => None,
                    },
                    if old(self).readiness.readable {
                        Some((token, reported(old(self).readiness, interest)))
                    } else {
                        None
                    },
                ),
            ),
    {
        match check_registration(token, interest, opts) {
            Some(e) => Err(e),
            None => {
                let previous = match self.binding {
                    Some(b) => Some(b.token),
                    None => None,
                };
                self.binding = Some(Binding { token, interest });
                let pending = if self.readiness.is_readable() {
                    Some((token, self.readiness.intersect(interest)))
                } else {
                    None
                };
                Ok((previous, pending))
            },
        }
    }

    /// Moves the binding to `token` and `interest` without asserting the
    /// readiness again. Returns the token of the binding it replaces: an entry
    /// still pending under it moves to the new token, within the new interest.
    pub fn reregister(&mut self, token: Token, interest: Ready, opts: PollOpt) -> (r: Result<
        Option<Token>,
        Error,
    >)
        ensures
            registration_error(token, interest, opts) matches Some(e) ==> r == Err::<
                Option<Token>,
                Error,
            >(e) && *final(self) == *old(self),
            registration_error(token, interest, opts) is None ==> *final(self) == (SourceState {
                readiness: old(self).readiness,
                binding: Some(Binding { token, interest }),
            }) && r == Ok::<Option<Token>, Error>(
                match old(self).binding {
                    Some(b) => Some(b.token),
                    None => None,
                },
            ),
    {
        match check_registration(token, interest, opts) {
            Some(e) => Err(e),
            None => {
                let previous = match self.binding {
                    Some(b) => Some(b.token),
                    None => None,
                };
                self.binding = Some(Binding { token, interest });
                Ok(previous)
            },
        }
    }

    /// Unbinds the source; returns the token whose pending entry is to be
    /// withdrawn. The readiness is kept.
    pub fn deregister(&mut self) -> (r: Option<Token>)
        ensures
            *final(self) == (SourceState { readiness: old(self).readiness, binding: None }),
            r == match old(self).binding {
                Some(b) => Some(b.token),
                None => None::<Token>,
            },
    {
        let previous = match self.binding {
            Some(b) => Some(b.token),
            None => None,
        };
        self.binding = None;
        previous
    }
}

/// An operation on a software source.
#[derive(Clone, Copy, Debug, PartialEq, Eq, Structural)]
pub enum SourceOp {
    SetReadiness(Ready),
    Register(Token, Ready, PollOpt),
    Reregister(Token, Ready, PollOpt),
    Deregister,
}

/// The token of a binding, if any.
pub open spec fn token_of(b: Option<Binding>) -> Option<Token> {
    match b {
        Some(x) => Some(x.token),
        None => None,
    }
}

/// The source and its poller's queue after `op`. A refused operation changes
/// neither.
pub open spec fn step(s: SourceState, q: Seq<(Token, Ready)>, op: SourceOp) -> (
    SourceState,
    Seq<(Token, Ready)>,
) {
    match op {
        SourceOp::SetReadiness(r) => {
            if !r.readable {
                (s, q)
            } else {
                let next = SourceState { readiness: r, binding: s.binding };
                match s.binding {
                    Some(b) => (next, notified(q, b.token, reported(r, b.interest))),
                    None => (next, q),
                }
            }
        },
        SourceOp::Register(t, i, o) => {
            if registration_error(t, i, o) is Some {
                (s, q)
            } else {
                let next = SourceState {
                    readiness: s.readiness,
                    binding: Some(Binding { token: t, interest: i }),
                };
                let cleared = match s.binding {
                    Some(b) => without(q, b.token),
                    None => q,
                };
                if s.readiness.readable {
                    (next, notified(cleared, t, reported(s.readiness, i)))
                } else {
                    (next, cleared)
                }
            }
        },
        SourceOp::Reregister(t, i, o) => {
            if registration_error(t, i, o) is Some {
                (s, q)
            } else {
                let next = SourceState {
                    readiness: s.readiness,
                    binding: Some(Binding { token: t, interest: i }),
                };
                match s.binding {
                    Some(b) => if queued(q, b.token) {
                        (next, notified(without(q, b.token), t, reported(pending_readiness(q, b.token), i)))
                    } else {
                        (next, q)
                    },
                    None => (next, q),
                }
            }
        },
        SourceOp::Deregister => {
            let next = SourceState { readiness: s.readiness, binding: None };
            match s.binding {
                Some(b) => (next, without(q, b.token)),
                None => (next, q),
            }
        },
    }
}

/// The source and its poller's queue after the operations, in order.
pub open spec fn run(s: SourceState, q: Seq<(Token, Ready)>, ops: Seq<SourceOp>) -> (
    SourceState,
    Seq<(Token, Ready)>,
)
    decreases ops.len(),
{
    if ops.len() == 0 {
        (s, q)
    } else {
        let before = run(s, q, ops.drop_last());
        step(before.0, before.1, ops.last())
    }
}

/// The token of the latest accepted register or reregister among the
/// operations, `None` when a deregister came after it, and `start` when
/// neither occurs.
pub open spec fn latest_token(start: Option<Token>, ops: Seq<SourceOp>) -> Option<Token>
    decreases ops.len(),
{
    if ops.len() == 0 {
        start
    } else {
        match ops.last() {
            SourceOp::Register(t, i, o) => if registration_error(t, i, o) is None {
                Some(t)
            } else {
                latest_token(start, ops.drop_last())
            },
            SourceOp::Reregister(t, i, o) => if registration_error(t, i, o) is None {
                Some(t)
            } else {
                latest_token(start, ops.drop_last())
            },
            SourceOp::Deregister => None,
            SourceOp::SetReadiness(_) => latest_token(start, ops.drop_last()),
        }
    }
}

/// Every entry of the queue carries the token the source is bound to (so an
/// unbound source has none).
pub open spec fn entries_current(s: SourceState, q: Seq<(Token, Ready)>) -> bool {
    forall|k: int| 0 <= k < q.len() ==> Some((#[trigger] q[k]).0) == token_of(s.binding)
}

proof fn lemma_without_current(q: Seq<(Token, Ready)>, t: Token)
    requires
        forall|k: int| 0 <= k < q.len() ==> (#[trigger] q[k]).0 == t,
    ensures
        without(q, t).len() == 0,
{
    lemma_without(q, t);
    if without(q, t).len() > 0 {
        let e = without(q, t)[0];
        assert(q.contains(e));
    }
}

proof fn lemma_step_current(s: SourceState, q: Seq<(Token, Ready)>, op: SourceOp)
    requires
        entries_current(s, q),
    ensures
        entries_current(step(s, q, op).0, step(s, q, op).1),
{
    if let Some(b) = s.binding {
        lemma_without_current(q, b.token);
    } else {
        assert(q.len() == 0) by {
            if q.len() > 0 {
                assert(Some(q[0].0) == token_of(s.binding));
            }
        }
    }
    match op {
        SourceOp::SetReadiness(r) => {
            if let Some(b) = s.binding {
                assert(without(q, b.token) =~= Seq::<(Token, Ready)>::empty());
            }
        },
        SourceOp::Register(t, i, o) => {
            if let Some(b) = s.binding {
                assert(without(q, b.token) =~= Seq::<(Token, Ready)>::empty());
                assert(without(Seq::<(Token, Ready)>::empty(), t) =~= Seq::<(Token, Ready)>::empty());
            } else {
                assert(without(q, t) =~= Seq::<(Token, Ready)>::empty());
            }
        },
        SourceOp::Reregister(t, i, o) => {
            if let Some(b) = s.binding {
                assert(without(q, b.token) =~= Seq::<(Token, Ready)>::empty());
                assert(without(Seq::<(Token, Ready)>::empty(), t) =~= Seq::<(Token, Ready)>::empty());
                if !queued(q, b.token) {
                    assert(q.len() == 0) by {
                        if q.len() > 0 {
                            assert(q[0].0 == b.token);
                        }
                    }
                }
            }
        },
        SourceOp::Deregister => {},
    }
}

/// Every pending entry of a source carries the token of its latest accepted
/// register or reregister, never one of an earlier registration; after a
/// deregister it has none. Holds from any state whose entries are current.
pub proof fn lemma_events_carry_latest_token(
    s: SourceState,
    q: Seq<(Token, Ready)>,
    ops: Seq<SourceOp>,
)
    requires
        entries_current(s, q),
    ensures
        token_of(run(s, q, ops).0.binding) == latest_token(token_of(s.binding), ops),
        forall|k: int|
            0 <= k < run(s, q, ops).1.len() ==> Some((#[trigger] run(s, q, ops).1[k]).0)
                == latest_token(token_of(s.binding), ops),
    decreases ops.len(),
{
    if ops.len() > 0 {
        lemma_events_carry_latest_token(s, q, ops.drop_last());
        let before = run(s, q, ops.drop_last());
        lemma_step_current(before.0, before.1, ops.last());
    }
}

/// Readiness set while a source is unregistered is not lost: setting it
/// readable and then registering for readable leaves exactly one pending
/// entry for the new token, readable, for the poller's next wait.
pub proof fn lemma_readiness_before_register_is_delivered(
    s: SourceState,
    q: Seq<(Token, Ready)>,
    token: Token,
    interest: Ready,
    opts: PollOpt,
)
    requires
        s.binding is None,
        !queued(q, token),
        registration_error(token, interest, opts) is None,
    ensures
        ({
            let ops = seq![SourceOp::SetReadiness(ready_of(true, false)), SourceOp::Register(token, interest, opts)];
            let after = run(s, q, ops);
            &&& after.1 == q.push((token, ready_of(true, false)))
            &&& forall|k: int|
                0 <= k < after.1.len() && (#[trigger] after.1[k]).0 == token ==> k == q.len()
        }),
{
    let ops = seq![SourceOp::SetReadiness(ready_of(true, false)), SourceOp::Register(token, interest, opts)];
    assert(ops.drop_last().drop_last() =~= Seq::<SourceOp>::empty());
    assert(ops.drop_last().last() == SourceOp::SetReadiness(ready_of(true, false)));
    assert(ops.last() == SourceOp::Register(token, interest, opts));
    lemma_without(q, token);
    let set = step(s, q, SourceOp::SetReadiness(ready_of(true, false)));
    assert(run(s, q, ops.drop_last().drop_last()) == (s, q));
    assert(run(s, q, ops.drop_last()) == set);
    assert(set.1 == q);
    let after = run(s, q, ops);
    assert(after == step(set.0, set.1, SourceOp::Register(token, interest, opts)));
    assert(after.1 == notified(q, token, ready_of(true, false)));
    assert forall|k: int| 0 <= k < after.1.len() && (#[trigger] after.1[k]).0 == token implies k
        == q.len() by {
        if k < q.len() {
            assert(after.1[k] == q[k]);
        }
    }
}

/// Once a source is deregistered, setting its readiness, any number of times,
/// adds nothing to its poller's queue, and it stays unregistered.
pub proof fn lemma_deregistered_source_is_silent(
    s: SourceState,
    q: Seq<(Token, Ready)>,
    readies: Seq<Ready>,
)
    ensures
        ({
            let off = step(s, q, SourceOp::Deregister);
            let ops = readies.map_values(|r: Ready| SourceOp::SetReadiness(r));
            &&& run(off.0, off.1, ops).1 == off.1
            &&& run(off.0, off.1, ops).0.binding is None
            &&& s.binding matches Some(b) ==> !queued(off.1, b.token)
        }),
    decreases readies.len(),
{
    let off = step(s, q, SourceOp::Deregister);
    let ops = readies.map_values(|r: Ready| SourceOp::SetReadiness(r));
    if readies.len() > 0 {
        lemma_deregistered_source_is_silent(s, q, readies.drop_last());
        assert(ops.drop_last() =~= readies.drop_last().map_values(
            |r: Ready| SourceOp::SetReadiness(r),
        ));
    }
    if let Some(b) = s.binding {
        lemma_without(q, b.token);
    }
}

/// A registration with options other than edge-triggered alone is refused as
/// invalid input and changes neither the source nor its poller's queue.
pub proof fn lemma_unsupported_options_change_nothing(
    s: SourceState,
    q: Seq<(Token, Ready)>,
    token: Token,
    interest: Ready,
    opts: PollOpt,
)
    requires
        !opts.is_supported(),
    ensures
        registration_error(token, interest, opts) == Some(Error::InvalidOptions),
        Error::InvalidOptions.is_invalid_input_spec(),
        step(s, q, SourceOp::Register(token, interest, opts)) == (s, q),
        step(s, q, SourceOp::Reregister(token, interest, opts)) == (s, q),
{
}

/// Checks the arguments of a registration of a software source.
pub fn check_registration(token: Token, interest: Ready, opts: PollOpt) -> (r: Option<Error>)
    ensures
        r == registration_error(token, interest, opts),
{
    if !opts.is_edge() || opts.is_level() || opts.is_oneshot() {
        Some(Error::InvalidOptions)
    } else if token.0 == WAKE_TOKEN {
        Some(Error::ReservedToken)
    } else if !interest.is_readable() {
        Some(Error::InvalidInterest)
    } else {
        None
    }
}

} // verus!
