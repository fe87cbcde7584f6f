//! The address discovery task: after an initial delay it asks the helper for
//! its onion address again and again, publishes the first answer that holds
//! one, and gives up once the deadline has passed. The deadline is counted
//! from the moment the task begins, so the initial delay is part of it.
//!
//! The task decides; its driver sleeps, runs the query and reads the clock.

use crate::address::{
    find_onion_address, first_address, is_onion_address, lemma_first_address_is_address,
    AddressMatcher, PatternRejected,
};
use crate::cell::{address_cell, AddressReader, AddressWriter};
use vstd::prelude::*;

verus! {

/// How long the task waits before its first query, in milliseconds.
pub const INITIAL_DELAY_MS: u64 = 2_000;

/// How long after its start the task keeps asking, in milliseconds.
pub const DISCOVERY_TIMEOUT_MS: u64 = 30_000;

/// How long the task waits between two queries, in milliseconds.
pub const RETRY_INTERVAL_MS: u64 = 5_000;

/// How a query of the helper ended.
#[derive(Debug, Clone, PartialEq, Eq)]
pub enum QueryReport {
    /// The query could not be run.
    Failed,
    /// The query ran; `success` tells whether it exited with status zero.
    Completed { success: bool, stdout: String },
}

impl View for QueryReport {
    type V = Option<Seq<char>>;

    /// The output of a query that succeeded.
    open spec fn view(&self) -> Option<Seq<char>> {
        match self {
            QueryReport::Completed { success, stdout } => if *success {
                Some(stdout@)
            } else {
                None
            },
            QueryReport::Failed => None,
        }
    }
}

/// What the driver reports to the task. Times are milliseconds on a clock
/// that does not run backwards.
#[derive(Debug, Clone, PartialEq, Eq)]
pub enum DiscoveryEvent {
    /// The task is to start; `now_ms` is the moment of its start.
    Begin { now_ms: u64 },
    /// The delay that the task asked for is over.
    DelayElapsed { now_ms: u64 },
    /// The query that the task asked for has ended.
    QueryFinished { report: QueryReport, now_ms: u64 },
}

/// An event as the decisions see it.
pub enum DiscoveryInput {
    Begin { now: int },
    DelayElapsed { now: int },
    QueryFinished { output: Option<Seq<char>>, now: int },
}

impl View for DiscoveryEvent {
    type V = DiscoveryInput;

    open spec fn view(&self) -> DiscoveryInput {
        match self {
            DiscoveryEvent::Begin { now_ms } => DiscoveryInput::Begin { now: *now_ms as int },
            DiscoveryEvent::DelayElapsed { now_ms } => DiscoveryInput::DelayElapsed {
                now: *now_ms as int,
            },
            DiscoveryEvent::QueryFinished { report, now_ms } => DiscoveryInput::QueryFinished {
                output: report@,
                now: *now_ms as int,
            },
        }
    }
}

/// How the task ended.
#[derive(Debug, Clone, Copy, PartialEq, Eq, Structural)]
pub enum DiscoveryOutcome {
    /// An address was found and published.
    Found,
    /// The deadline passed without an address.
    TimedOut,
}

/// What the task asks its driver to do next.
#[derive(Debug, Clone, Copy, PartialEq, Eq, Structural)]
pub enum DiscoveryAction {
    /// Wait, then report `DelayElapsed`.
    Sleep { millis: u64 },
    /// Run the address query, then report `QueryFinished`.
    RunQuery,
    /// Stop: the task has ended.
    Finish(DiscoveryOutcome),
}

/// Where the task stands.
#[derive(Debug, Clone, Copy, PartialEq, Eq, Structural)]
pub enum DiscoveryPhase {
    /// Not started.
    Idle,
    /// In the initial delay.
    Warming,
    /// A query is running.
    Querying,
    /// Between two queries.
    Pausing,
    /// Ended.
    Done(DiscoveryOutcome),
}

/// The task as the decisions see it.
pub struct DiscoveryState {
    pub phase: DiscoveryPhase,
    /// When the task began. The deadline is counted from here.
    pub started_at: int,
    /// What the task has stored in the address cell.
    pub published: Option<Seq<char>>,
}

/// The address that a query's output holds, if the query succeeded.
pub open spec fn answer(output: Option<Seq<char>>) -> Option<Seq<char>> {
    match output {
        Some(text) => first_address(text),
        None => None,
    }
}

impl DiscoveryState {
    /// A task that has not started, with its cell unset.
    pub open spec fn initial() -> DiscoveryState {
        DiscoveryState { phase: DiscoveryPhase::Idle, started_at: 0, published: None }
    }

    /// The moment from which a query without an address is the last one.
    pub open spec fn deadline(self) -> int {
        self.started_at + DISCOVERY_TIMEOUT_MS
    }

    /// Whether the task has ended.
    pub open spec fn is_done(self) -> bool {
        self.phase is Done
    }

    /// Whether the task has begun, and its deadline is fixed with that.
    pub open spec fn has_begun(self) -> bool {
        !(self.phase is Idle)
    }

    /// What holds of every state that a task can reach: the cell is set
    /// exactly when the task has found an address, and then to an address.
    pub open spec fn wf(self) -> bool {
        &&& self.published is Some <==> self.phase == DiscoveryPhase::Done(DiscoveryOutcome::Found)
        &&& self.published matches Some(a) ==> is_onion_address(a)
    }

    /// The state after `event`, and what the driver is to do; `None` where
    /// the event does not belong to the phase, which leaves the state as it is.
    pub open spec fn step(self, event: DiscoveryInput) -> (
        DiscoveryState,
        Option<DiscoveryAction>,
    ) {
        match (self.phase, event) {
            (DiscoveryPhase::Idle, DiscoveryInput::Begin { now }) => (
                DiscoveryState { phase: DiscoveryPhase::Warming, started_at: now, ..self },
                Some(DiscoveryAction::Sleep { millis: INITIAL_DELAY_MS }),
            ),
            (DiscoveryPhase::Warming, DiscoveryInput::DelayElapsed { now }) => (
                DiscoveryState { phase: DiscoveryPhase::Querying, ..self },
                Some(DiscoveryAction::RunQuery),
            ),
            (DiscoveryPhase::Pausing, DiscoveryInput::DelayElapsed { now }) => (
                DiscoveryState { phase: DiscoveryPhase::Querying, ..self },
                Some(DiscoveryAction::RunQuery),
            ),
            (DiscoveryPhase::Querying, DiscoveryInput::QueryFinished { output, now }) => {
                if answer(output) is Some {
                    (
                        DiscoveryState {
                            phase: DiscoveryPhase::Done(DiscoveryOutcome::Found),
                            published: answer(output),
                            ..self
                        },
                        Some(DiscoveryAction::Finish(DiscoveryOutcome::Found)),
                    )
                } else if now >= self.deadline() {
                    (
                        DiscoveryState {
                            phase: DiscoveryPhase::Done(DiscoveryOutcome::TimedOut),
                            ..self
                        },
                        Some(DiscoveryAction::Finish(DiscoveryOutcome::TimedOut)),
                    )
                } else {
                    (
                        DiscoveryState { phase: DiscoveryPhase::Pausing, ..self },
                        Some(DiscoveryAction::Sleep { millis: RETRY_INTERVAL_MS }),
                    )
                }
            },
            _ => (self, None),
        }
    }

    /// The state after all of `events`, in order.
    pub open spec fn run(self, events: Seq<DiscoveryInput>) -> DiscoveryState
        decreases events.len(),
    {
        if events.len() == 0 {
            self
        } else {
            self.run(events.drop_last()).step(events.last()).0
        }
    }
}

/// Whether `event` is the end of a query whose output holds an address.
pub open spec fn brings_address(event: DiscoveryInput) -> bool {
    event matches DiscoveryInput::QueryFinished { output, .. } && answer(output) is Some
}

/// A step keeps a state well-formed, and the initial state is.
pub proof fn lemma_step_keeps_wf(state: DiscoveryState, event: DiscoveryInput)
    requires
        state.wf(),
    ensures
        state.step(event).0.wf(),
        DiscoveryState::initial().wf(),
{
    if let DiscoveryInput::QueryFinished { output, now } = event {
        if let Some(text) = output {
            lemma_first_address_is_address(text);
        }
    }
}

/// The task never publishes a string that is no onion address: whatever
/// the driver reports, and in whatever order, the cell is unset or holds a
/// string of the right shape.
pub proof fn lemma_publishes_addresses_only(state: DiscoveryState, events: Seq<DiscoveryInput>)
    requires
        state.wf(),
    ensures
        state.run(events).wf(),
        state.run(events).published matches Some(a) ==> is_onion_address(a),
    decreases events.len(),
{
    if events.len() > 0 {
        lemma_publishes_addresses_only(state, events.drop_last());
        lemma_step_keeps_wf(state.run(events.drop_last()), events.last());
    }
}

/// A task that has ended stays as it is, whatever is reported to it.
pub proof fn lemma_done_is_final(state: DiscoveryState, events: Seq<DiscoveryInput>)
    requires
        state.is_done(),
    ensures
        state.run(events) == state,
    decreases events.len(),
{
    if events.len() > 0 {
        lemma_done_is_final(state, events.drop_last());
    }
}

/// Running through `events` is running through its first `i`, then the rest.
pub proof fn lemma_run_split(state: DiscoveryState, events: Seq<DiscoveryInput>, i: int)
    requires
        0 <= i <= events.len(),
    ensures
        state.run(events) == state.run(events.take(i)).run(events.skip(i)),
    decreases events.len(),
{
    if i == events.len() {
        assert(events.take(i) =~= events);
        assert(events.skip(i) =~= Seq::<DiscoveryInput>::empty());
    } else {
        lemma_run_split(state, events.drop_last(), i);
        assert(events.drop_last().take(i) =~= events.take(i));
        assert(events.drop_last().skip(i) =~= events.skip(i).drop_last());
    }
}

/// The cell goes from unset to set at most once: once the task has
/// published, every later look at the cell shows that same address.
pub proof fn lemma_published_once(
    state: DiscoveryState,
    events: Seq<DiscoveryInput>,
    i: int,
    j: int,
)
    requires
        state.wf(),
        0 <= i <= j <= events.len(),
        state.run(events.take(i)).published is Some,
    ensures
        state.run(events.take(j)).published == state.run(events.take(i)).published,
{
    let early = state.run(events.take(i));
    lemma_publishes_addresses_only(state, events.take(i));
    lemma_run_split(state, events.take(j), i);
    assert(events.take(j).take(i) =~= events.take(i));
    lemma_done_is_final(early, events.take(j).skip(i));
}

/// While no query brings an address, the cell stays unset.
pub proof fn lemma_unset_without_address(state: DiscoveryState, events: Seq<DiscoveryInput>)
    requires
        state.published is None,
        forall|i: int| 0 <= i < events.len() ==> !brings_address(#[trigger] events[i]),
    ensures
        state.run(events).published is None,
    decreases events.len(),
{
    if events.len() > 0 {
        lemma_unset_without_address(state, events.drop_last());
        assert(!brings_address(events.last()));
    }
}

/// If no query has brought an address by the time one ends at or after the
/// deadline, the cell stays unset for good: event `k` is the end of such a
/// query, and nothing that is reported after it, not even an address, sets
/// the cell.
pub proof fn lemma_unset_after_deadline(
    state: DiscoveryState,
    events: Seq<DiscoveryInput>,
    k: int,
)
    requires
        state.published is None,
        0 <= k < events.len(),
        forall|i: int| 0 <= i <= k ==> !brings_address(#[trigger] events[i]),
        state.run(events.take(k)).phase is Querying,
        events[k] matches DiscoveryInput::QueryFinished { now, .. } && now >= state.run(
            events.take(k),
        ).deadline(),
    ensures
        state.run(events).published is None,
        state.run(events).phase == DiscoveryPhase::Done(DiscoveryOutcome::TimedOut),
{
    let before = state.run(events.take(k));
    lemma_unset_without_address(state, events.take(k));
    assert(!brings_address(events[k]));
    assert(events.take(k + 1).drop_last() =~= events.take(k));
    let after = state.run(events.take(k + 1));
    assert(after == before.step(events[k]).0);
    lemma_run_split(state, events, k + 1);
    lemma_done_is_final(after, events.skip(k + 1));
}

/// The deadline is fixed once, when the task begins: it is the moment of
/// the start plus the timeout, and no report moves it afterwards, the end of
/// the initial delay no more than any other.
pub proof fn lemma_deadline_is_fixed(state: DiscoveryState, events: Seq<DiscoveryInput>)
    requires
        state.has_begun(),
    ensures
        state.run(events).has_begun(),
        state.run(events).deadline() == state.deadline(),
        state.run(events).started_at == state.started_at,
    decreases events.len(),
{
    if events.len() > 0 {
        lemma_deadline_is_fixed(state, events.drop_last());
    }
}

/// A task that begins at `start` gives up on the first query without an
/// address that ends at `start + DISCOVERY_TIMEOUT_MS` or later: if no query
/// has brought an address by then, the cell stays unset for good, whatever
/// is reported afterwards. Event `k` is the end of that query.
pub proof fn lemma_gives_up_after_timeout(events: Seq<DiscoveryInput>, start: int, k: int)
    requires
        0 < k < events.len(),
        events[0] == (DiscoveryInput::Begin { now: start }),
        forall|i: int| 0 <= i <= k ==> !brings_address(#[trigger] events[i]),
        DiscoveryState::initial().run(events.take(k)).phase is Querying,
        events[k] matches DiscoveryInput::QueryFinished { now, .. } && now >= start
            + DISCOVERY_TIMEOUT_MS,
    ensures
        DiscoveryState::initial().run(events).published is None,
        DiscoveryState::initial().run(events).phase == DiscoveryPhase::Done(
            DiscoveryOutcome::TimedOut,
        ),
{
    let fresh = DiscoveryState::initial();
    let head = events.take(k);
    lemma_run_split(fresh, head, 1);
    assert(head.take(1).drop_last() =~= Seq::<DiscoveryInput>::empty());
    assert(head.take(1).last() == events[0]);
    let begun = fresh.run(head.take(1));
    assert(fresh.run(head.take(1).drop_last()) == fresh);
    assert(begun == fresh.step(events[0]).0);
    lemma_deadline_is_fixed(begun, head.skip(1));
    lemma_unset_after_deadline(fresh, events, k);
}

/// A task that has ended asks for nothing more: no query is started after
/// the task has given up or has published.
pub proof fn lemma_done_asks_nothing(state: DiscoveryState, event: DiscoveryInput)
    requires
        state.is_done(),
    ensures
        state.step(event) == (state, None::<DiscoveryAction>),
{
}

/// The discovery task. It owns the writing end of the address cell.
pub struct DiscoveryTask {
    matcher: AddressMatcher,
    writer: AddressWriter,
    phase: DiscoveryPhase,
    started_at: u64,
}

impl View for DiscoveryTask {
    type V = DiscoveryState;

    closed spec fn view(&self) -> DiscoveryState {
        DiscoveryState {
            phase: self.phase,
            started_at: self.started_at as int,
            published: self.writer@,
        }
    }
}

impl DiscoveryTask {
    /// A task that has not started, and a reading end of its cell, which is
    /// unset. Fails where the address pattern does not compile.
    pub fn new() -> (r: Result<(DiscoveryTask, AddressReader), PatternRejected>)
        ensures
            r matches Ok(pair) ==> pair.0@ == DiscoveryState::initial() && pair.1.cell_id()
                == pair.0.cell_id(),
    {
        match AddressMatcher::new() {
            Ok(matcher) => Ok(Self::with_matcher(matcher)),
            Err(e) => Err(e),
        }
    }

    /// A task that has not started and that recognises addresses with
    /// `matcher`, and a reading end of its cell, which is unset.
    pub fn with_matcher(matcher: AddressMatcher) -> (pair: (DiscoveryTask, AddressReader))
        ensures
            pair.0@ == DiscoveryState::initial(),
            pair.1.cell_id() == pair.0.cell_id(),
    {
        let (writer, reader) = address_cell();
        let task = DiscoveryTask { matcher, writer, phase: DiscoveryPhase::Idle, started_at: 0 };
        (task, reader)
    }

    /// Which cell the task publishes into.
    pub closed spec fn cell_id(&self) -> nat {
        self.writer.cell_id()
    }

    /// Where the task stands.
    pub fn phase(&self) -> (phase: DiscoveryPhase)
        ensures
            phase == self@.phase,
    {
        self.phase
    }

    /// Takes `event` in and says what the driver is to do next. An event
    /// that does not belong to the phase changes nothing and gives `None`.
    /// Where the step stores something in the cell, it is an onion address.
    pub fn step(&mut self, event: DiscoveryEvent) -> (action: Option<DiscoveryAction>)
        ensures
            (final(self)@, action) == old(self)@.step(event@),
            final(self)@.published == old(self)@.published || (final(self)@.published matches Some(
                a,
            ) && is_onion_address(a)),
            final(self).cell_id() == old(self).cell_id(),
    {
        match event {
            DiscoveryEvent::Begin { now_ms } => {
                match self.phase {
                    DiscoveryPhase::Idle => {
                        self.phase = DiscoveryPhase::Warming;
                        self.started_at = now_ms;
                        Some(DiscoveryAction::Sleep { millis: INITIAL_DELAY_MS })
                    },
                    _ => None,
                }
            },
            DiscoveryEvent::DelayElapsed { now_ms } => {
                match self.phase {
                    DiscoveryPhase::Warming => {
                        self.phase = DiscoveryPhase::Querying;
                        Some(DiscoveryAction::RunQuery)
                    },
                    DiscoveryPhase::Pausing => {
                        self.phase = DiscoveryPhase::Querying;
                        Some(DiscoveryAction::RunQuery)
                    },
                    _ => None,
                }
            },
            DiscoveryEvent::QueryFinished { report, now_ms } => {
                match self.phase {
                    DiscoveryPhase::Querying => {
                        let found = match &report {
                            QueryReport::Completed { success, stdout } => {
                                if *success {
                                    find_onion_address(&self.matcher, stdout.as_str())
                                } else {
                                    None
                                }
                            },
                            QueryReport::Failed => None,
                        };
                        match found {
                            Some(address) => {
                                self.writer.publish(address);
                                self.phase = DiscoveryPhase::Done(DiscoveryOutcome::Found);
                                Some(DiscoveryAction::Finish(DiscoveryOutcome::Found))
                            },
                            None => {
                                if now_ms >= self.started_at && now_ms - self.started_at
                                    >= DISCOVERY_TIMEOUT_MS {
                                    self.phase = DiscoveryPhase::Done(DiscoveryOutcome::TimedOut);
                                    Some(DiscoveryAction::Finish(DiscoveryOutcome::TimedOut))
                                } else {
                                    self.phase = DiscoveryPhase::Pausing;
                                    Some(DiscoveryAction::Sleep { millis: RETRY_INTERVAL_MS })
                                }
                            },
                        }
                    },
                    _ => None,
                }
            },
        }
    }
}

} // verus!
