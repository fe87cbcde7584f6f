//! The shutdown broadcast: an event without payload that fires at most once
//! and that every subscriber observes exactly once, whether it subscribed
//! before the firing or after it.
//!
//! The latch is the state that the broadcast carries; a channel that wakes
//! the subscribers when the latch changes is the driver's part.

use vstd::prelude::*;

verus! {

/// Whether shutdown has been requested.
#[derive(Debug, Clone, Copy, PartialEq, Eq)]
pub struct ShutdownLatch {
    fired: bool,
}

impl View for ShutdownLatch {
    type V = bool;

    /// Whether the latch has fired.
    closed spec fn view(&self) -> bool {
        self.fired
    }
}

/// One subscriber's end of the broadcast.
#[derive(Debug)]
pub struct ShutdownSubscription {
    resolved: bool,
}

impl View for ShutdownSubscription {
    type V = bool;

    /// Whether the subscription has resolved.
    closed spec fn view(&self) -> bool {
        self.resolved
    }
}

/// A signal of the operating system that asks the process to stop.
#[derive(Debug, Clone, Copy, PartialEq, Eq, Structural)]
pub enum Signal {
    /// The interactive interrupt.
    Interrupt,
    /// The request to terminate.
    Terminate,
}

/// What a subscriber's poll gives on a latch that has or has not `fired`,
/// for a subscription that has or has not `resolved` before: whether the
/// subscription has resolved after the poll, and whether it resolves now.
pub open spec fn poll_result(fired: bool, resolved: bool) -> (bool, bool) {
    (resolved || fired, fired && !resolved)
}

/// Something that is done to a latch or to a subscription to it.
pub enum BroadcastOp {
    Fire,
    Poll,
}

/// A latch and one subscription to it.
pub struct Broadcast {
    pub fired: bool,
    pub resolved: bool,
}

impl Broadcast {
    /// The latch and the subscription after `op`.
    pub open spec fn apply(self, op: BroadcastOp) -> Broadcast {
        match op {
            BroadcastOp::Fire => Broadcast { fired: true, ..self },
            BroadcastOp::Poll => Broadcast {
                resolved: poll_result(self.fired, self.resolved).0,
                ..self
            },
        }
    }

    /// The latch and the subscription after all of `ops`, in order.
    pub open spec fn run(self, ops: Seq<BroadcastOp>) -> Broadcast
        decreases ops.len(),
    {
        if ops.len() == 0 {
            self
        } else {
            self.run(ops.drop_last()).apply(ops.last())
        }
    }

    /// How many of the polls among `ops` resolve the subscription.
    pub open spec fn resolutions(self, ops: Seq<BroadcastOp>) -> nat
        decreases ops.len(),
    {
        if ops.len() == 0 {
            0
        } else {
            let before = self.run(ops.drop_last());
            self.resolutions(ops.drop_last()) + if ops.last() is Poll && poll_result(
                before.fired,
                before.resolved,
            ).1 {
                1nat
            } else {
                0nat
            }
        }
    }
}

/// Firing is idempotent and lasting: a latch that has fired stays fired
/// whatever is done, and a subscription that has resolved stays resolved.
pub proof fn lemma_fired_stays_fired(state: Broadcast, ops: Seq<BroadcastOp>)
    ensures
        state.fired ==> state.run(ops).fired,
        state.resolved ==> state.run(ops).resolved,
        state.run(ops).resolved ==> state.resolved || state.run(ops).fired,
    decreases ops.len(),
{
    if ops.len() > 0 {
        lemma_fired_stays_fired(state, ops.drop_last());
    }
}

/// A subscription resolves at most once, however often the latch is fired
/// and the subscription polled: the polls that resolve it are one if it
/// went from unresolved to resolved, and none otherwise.
pub proof fn lemma_resolves_at_most_once(state: Broadcast, ops: Seq<BroadcastOp>)
    ensures
        state.resolutions(ops) == if !state.resolved && state.run(ops).resolved {
            1nat
        } else {
            0nat
        },
    decreases ops.len(),
{
    if ops.len() > 0 {
        lemma_resolves_at_most_once(state, ops.drop_last());
        lemma_fired_stays_fired(state, ops.drop_last());
    }
}

/// No firing is missed by a subscriber that is there when the latch fires:
/// if the latch is fired at `ops[i]` and the subscription polled at a later
/// `ops[j]`, the subscription has resolved.
pub proof fn lemma_poll_after_fire_resolves(state: Broadcast, ops: Seq<BroadcastOp>, i: int, j: int)
    requires
        0 <= i < j < ops.len(),
        ops[i] is Fire,
        ops[j] is Poll,
    ensures
        state.run(ops).resolved,
{
    lemma_run_split(state, ops, i + 1);
    assert(ops.take(i + 1).last() == ops[i]);
    let fired = state.run(ops.take(i + 1));
    assert(fired.fired);
    assert(ops.skip(i + 1)[j - i - 1] == ops[j]);
    lemma_poll_on_fired_resolves(fired, ops.skip(i + 1), j - i - 1);
}

/// No firing is missed by a subscriber that comes late: a subscription to a
/// latch that has fired already has resolved once it is polled.
pub proof fn lemma_poll_on_fired_resolves(state: Broadcast, ops: Seq<BroadcastOp>, j: int)
    requires
        state.fired,
        0 <= j < ops.len(),
        ops[j] is Poll,
    ensures
        state.run(ops).resolved,
    decreases ops.len(),
{
    if j == ops.len() - 1 {
        lemma_fired_stays_fired(state, ops.drop_last());
    } else {
        lemma_poll_on_fired_resolves(state, ops.drop_last(), j);
    }
}

/// Running through `ops` is running through its first `i`, then the rest.
pub proof fn lemma_run_split(state: Broadcast, ops: Seq<BroadcastOp>, i: int)
    requires
        0 <= i <= ops.len(),
    ensures
        state.run(ops) == state.run(ops.take(i)).run(ops.skip(i)),
    decreases ops.len(),
{
    if i == ops.len() {
        assert(ops.take(i) =~= ops);
        assert(ops.skip(i) =~= Seq::<BroadcastOp>::empty());
    } else {
        lemma_run_split(state, ops.drop_last(), i);
        assert(ops.drop_last().take(i) =~= ops.take(i));
        assert(ops.drop_last().skip(i) =~= ops.skip(i).drop_last());
    }
}

impl ShutdownLatch {
    /// A latch that has not fired.
    pub fn new() -> (latch: ShutdownLatch)
        ensures
            !latch@,
    {
        ShutdownLatch { fired: false }
    }

    /// Fires the latch. Tells whether this call was the one that fired it:
    /// on a latch that has fired already the call changes nothing.
    pub fn fire(&mut self) -> (first: bool)
        ensures
            final(self)@,
            first == !old(self)@,
    {
        let first = !self.fired;
        self.fired = true;
        first
    }

    /// Whether the latch has fired.
    pub fn is_fired(&self) -> (fired: bool)
        ensures
            fired == self@,
    {
        self.fired
    }

    /// A new subscription, which has not resolved.
    pub fn subscribe(&self) -> (subscription: ShutdownSubscription)
        ensures
            !subscription@,
    {
        ShutdownSubscription { resolved: false }
    }
}

impl ShutdownSubscription {
    /// Looks at the latch. Tells whether the subscription resolves now: it
    /// does on the first look at a latch that has fired, and never again.
    pub fn poll(&mut self, latch: &ShutdownLatch) -> (now: bool)
        ensures
            (final(self)@, now) == poll_result(latch@, old(self)@),
    {
        let now = latch.is_fired() && !self.resolved;
        self.resolved = self.resolved || latch.is_fired();
        now
    }

    /// Whether the subscription has resolved.
    pub fn has_resolved(&self) -> (resolved: bool)
        ensures
            resolved == self@,
    {
        self.resolved
    }
}

/// What is written out when `signal` arrives.
pub open spec fn notice_text(signal: Signal) -> Seq<char> {
    match signal {
        Signal::Interrupt => "Received Ctrl+C, shutting down gracefully..."@,
        Signal::Terminate => "Received SIGTERM, shutting down gracefully..."@,
    }
}

/// What is written out when `signal` arrives.
pub fn signal_notice(signal: Signal) -> (notice: &'static str)
    ensures
        notice@ == notice_text(signal),
{
    match signal {
        Signal::Interrupt => "Received Ctrl+C, shutting down gracefully...",
        Signal::Terminate => "Received SIGTERM, shutting down gracefully...",
    }
}

/// Turns a signal into a shutdown request: either signal fires the latch.
/// Tells whether this call was the one that fired it.
pub fn forward_signal(signal: Signal, latch: &mut ShutdownLatch) -> (first: bool)
    ensures
        final(latch)@,
        first == !old(latch)@,
{
    latch.fire()
}

} // verus!
