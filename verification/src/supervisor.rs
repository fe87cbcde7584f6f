//! The supervisor of the helper process: it has the helper launched, has it
//! launched again when it exits or cannot be launched, gives up once the
//! restart budget is spent, and has it killed when shutdown is requested.
//!
//! The supervisor decides; its driver launches, watches, sleeps and kills.

use vstd::prelude::*;

verus! {

/// How many times the helper is launched before the supervisor gives up.
pub const MAX_RELAUNCHES: u32 = 5;

/// How long the supervisor waits before it launches the helper again, in
/// seconds.
pub const RESTART_BACKOFF_SECS: u64 = 3;

/// How the helper process ended.
#[derive(Debug, Clone, Copy, PartialEq, Eq)]
pub enum HelperExit {
    /// It exited with status zero.
    Succeeded,
    /// It exited with another status, or was ended by a signal.
    Failed { code: Option<i32> },
    /// Waiting for it failed.
    Unknown,
}

/// What the driver reports to the supervisor.
#[derive(Debug, Clone, Copy, PartialEq, Eq)]
pub enum SupervisorEvent {
    /// The supervisor is to start.
    Begin,
    /// The helper has been launched.
    Launched,
    /// The helper could not be launched.
    LaunchFailed,
    /// The helper has ended on its own.
    Exited(HelperExit),
    /// Shutdown was requested while the helper was running.
    ShutdownRequested,
    /// The backoff delay is over.
    BackoffElapsed,
    /// The helper has been killed and reaped.
    Reaped,
}

/// What the supervisor asks its driver to do next.
#[derive(Debug, Clone, Copy, PartialEq, Eq)]
pub enum SupervisorAction {
    /// Launch the helper, then report `Launched` or `LaunchFailed`. `attempt`
    /// counts the launches, this one included.
    Launch { attempt: u32 },
    /// Wait until the helper ends or shutdown is requested, whichever comes
    /// first, then report `Exited` or `ShutdownRequested`.
    Watch,
    /// Wait, then report `BackoffElapsed`.
    Backoff { secs: u64 },
    /// Kill the helper and wait until it is reaped, then report `Reaped`.
    Terminate,
    /// End in success: the helper was stopped on request.
    Stop,
    /// Request shutdown of the whole system and end in failure: the restart
    /// budget is spent.
    GiveUp,
}

/// Where the supervisor stands.
#[derive(Debug, Clone, Copy, PartialEq, Eq, Structural)]
pub enum SupervisorPhase {
    /// Not started.
    Idle,
    /// A launch is under way.
    Launching,
    /// The helper is running.
    Running,
    /// The helper has ended or could not be launched; the backoff delay runs.
    BackingOff,
    /// Shutdown was requested; the helper is being killed.
    ShuttingDown,
    /// Ended: the helper was stopped on request.
    Stopped,
    /// Ended: the restart budget is spent.
    Failed,
}

/// How the supervisor ended.
#[derive(Debug, Clone, Copy, PartialEq, Eq, Structural)]
pub enum SupervisorOutcome {
    Stopped,
    Failed,
}

/// The supervisor as the decisions see it.
pub struct SupervisorState {
    pub phase: SupervisorPhase,
    /// How many times the helper has been launched.
    pub attempts: nat,
}

impl SupervisorState {
    /// A supervisor that has not started.
    pub open spec fn initial() -> SupervisorState {
        SupervisorState { phase: SupervisorPhase::Idle, attempts: 0 }
    }

    /// Whether the supervisor has ended.
    pub open spec fn is_terminal(self) -> bool {
        self.phase is Stopped || self.phase is Failed
    }

    /// Whether the helper will not be launched again, whatever happens.
    pub open spec fn is_winding_down(self) -> bool {
        self.phase is ShuttingDown || self.is_terminal()
    }

    /// What holds of every state that a supervisor can reach.
    pub open spec fn wf(self) -> bool {
        &&& self.attempts <= MAX_RELAUNCHES
        &&& self.phase is Idle <==> self.attempts == 0
        &&& self.phase is Failed ==> self.attempts == MAX_RELAUNCHES
    }

    /// What happens on entry to a launch: the helper is launched if the
    /// budget allows one more launch, else the supervisor gives up.
    pub open spec fn enter_launching(self) -> (SupervisorState, Option<SupervisorAction>) {
        if self.attempts >= MAX_RELAUNCHES {
            (
                SupervisorState { phase: SupervisorPhase::Failed, ..self },
                Some(SupervisorAction::GiveUp),
            )
        } else {
            (
                SupervisorState { phase: SupervisorPhase::Launching, attempts: self.attempts + 1 },
                Some(SupervisorAction::Launch { attempt: (self.attempts + 1) as u32 }),
            )
        }
    }

    /// The state after `event`, and what the driver is to do; `None` where
    /// the event does not belong to the phase, which leaves the state as it is.
    pub open spec fn step(self, event: SupervisorEvent) -> (
        SupervisorState,
        Option<SupervisorAction>,
    ) {
        match (self.phase, event) {
            (SupervisorPhase::Idle, SupervisorEvent::Begin) => self.enter_launching(),
            (SupervisorPhase::Launching, SupervisorEvent::Launched) => (
                SupervisorState { phase: SupervisorPhase::Running, ..self },
                Some(SupervisorAction::Watch),
            ),
            (SupervisorPhase::Launching, SupervisorEvent::LaunchFailed) => (
                SupervisorState { phase: SupervisorPhase::BackingOff, ..self },
                Some(SupervisorAction::Backoff { secs: RESTART_BACKOFF_SECS }),
            ),
            (SupervisorPhase::Running, SupervisorEvent::Exited(_)) => (
                SupervisorState { phase: SupervisorPhase::BackingOff, ..self },
                Some(SupervisorAction::Backoff { secs: RESTART_BACKOFF_SECS }),
            ),
            (SupervisorPhase::Running, SupervisorEvent::ShutdownRequested) => (
                SupervisorState { phase: SupervisorPhase::ShuttingDown, ..self },
                Some(SupervisorAction::Terminate),
            ),
            (SupervisorPhase::BackingOff, SupervisorEvent::BackoffElapsed) => self.enter_launching(),
            (SupervisorPhase::ShuttingDown, SupervisorEvent::Reaped) => (
                SupervisorState { phase: SupervisorPhase::Stopped, ..self },
                Some(SupervisorAction::Stop),
            ),
            _ => (self, None),
        }
    }

    /// The state after all of `events`, in order.
    pub open spec fn run(self, events: Seq<SupervisorEvent>) -> SupervisorState
        decreases events.len(),
    {
        if events.len() == 0 {
            self
        } else {
            self.run(events.drop_last()).step(events.last()).0
        }
    }

    /// How many times the supervisor asks for a launch while it takes in
    /// `events`, in order.
    pub open spec fn launches(self, events: Seq<SupervisorEvent>) -> nat
        decreases events.len(),
    {
        if events.len() == 0 {
            0
        } else {
            let asked = self.run(events.drop_last()).step(events.last()).1;
            self.launches(events.drop_last()) + if asked matches Some(
                SupervisorAction::Launch { .. },
            ) {
                1nat
            } else {
                0nat
            }
        }
    }
}

/// Whether `event` tells that the helper is not running though it should be:
/// it has ended, with whatever status, or it could not be launched.
pub open spec fn is_fault(state: SupervisorState, event: SupervisorEvent) -> bool {
    ||| state.phase is Running && event is Exited
    ||| state.phase is Launching && event is LaunchFailed
}

/// A step keeps a state well-formed, and the initial state is.
pub proof fn lemma_step_keeps_wf(state: SupervisorState, event: SupervisorEvent)
    requires
        state.wf(),
    ensures
        state.step(event).0.wf(),
        SupervisorState::initial().wf(),
{
}

/// Every state that a run reaches is well-formed, and the attempt counter
/// never goes down on the way: it grows by one with each launch.
pub proof fn lemma_attempts_count_launches(state: SupervisorState, events: Seq<SupervisorEvent>)
    requires
        state.wf(),
    ensures
        state.run(events).wf(),
        state.run(events).attempts == state.attempts + state.launches(events),
    decreases events.len(),
{
    if events.len() > 0 {
        lemma_attempts_count_launches(state, events.drop_last());
        lemma_step_keeps_wf(state.run(events.drop_last()), events.last());
    }
}

/// The restart budget: whatever is reported, and in whatever order, the
/// helper is launched at most `MAX_RELAUNCHES` times.
pub proof fn lemma_launches_within_budget(events: Seq<SupervisorEvent>)
    ensures
        SupervisorState::initial().launches(events) <= MAX_RELAUNCHES,
{
    lemma_attempts_count_launches(SupervisorState::initial(), events);
}

/// When the helper ends, with whatever status, or cannot be launched, the
/// supervisor asks for the backoff delay and launches nothing meanwhile. When
/// the delay is over it asks for one more launch if fewer than
/// `MAX_RELAUNCHES` launches have been made, and gives up for good if all of
/// them have: from then on nothing is launched, whatever is reported.
pub proof fn lemma_fault_restarts_within_budget(
    state: SupervisorState,
    fault: SupervisorEvent,
    later: Seq<SupervisorEvent>,
)
    requires
        is_fault(state, fault),
    ensures
        state.step(fault) == (
            SupervisorState { phase: SupervisorPhase::BackingOff, ..state },
            Some(SupervisorAction::Backoff { secs: RESTART_BACKOFF_SECS }),
        ),
        state.attempts < MAX_RELAUNCHES ==> state.step(fault).0.step(
            SupervisorEvent::BackoffElapsed,
        ) == (
            SupervisorState { phase: SupervisorPhase::Launching, attempts: state.attempts + 1 },
            Some(SupervisorAction::Launch { attempt: (state.attempts + 1) as u32 }),
        ),
        state.attempts >= MAX_RELAUNCHES ==> state.step(fault).0.step(
            SupervisorEvent::BackoffElapsed,
        ) == (
            SupervisorState { phase: SupervisorPhase::Failed, ..state },
            Some(SupervisorAction::GiveUp),
        ),
        state.attempts >= MAX_RELAUNCHES ==> state.step(fault).0.step(
            SupervisorEvent::BackoffElapsed,
        ).0.launches(later) == 0,
{
    if state.attempts >= MAX_RELAUNCHES {
        let failed = state.step(fault).0.step(SupervisorEvent::BackoffElapsed).0;
        lemma_no_launch_when_winding_down(failed, later);
    }
}

/// There is one helper at a time: a launch is asked for only while none is
/// running or being killed, and the helper counts as running only once a
/// launch has succeeded.
pub proof fn lemma_one_helper_at_a_time(state: SupervisorState, event: SupervisorEvent)
    ensures
        state.step(event).1 matches Some(SupervisorAction::Launch { .. }) ==> state.phase is Idle
            || state.phase is BackingOff,
        state.step(event).0.phase is Running && !(state.phase is Running) ==> state.phase
            is Launching && event is Launched,
{
}

/// The first launch needs no fault: a supervisor that has not started asks
/// for it when it is told to begin.
pub proof fn lemma_begin_launches()
    ensures
        SupervisorState::initial().step(SupervisorEvent::Begin) == (
            SupervisorState { phase: SupervisorPhase::Launching, attempts: 1 },
            Some(SupervisorAction::Launch { attempt: 1 }),
        ),
{
}

/// Once shutdown has been requested, or once the supervisor has ended, the
/// helper is never launched again, and a supervisor that has ended stays as
/// it is.
pub proof fn lemma_no_launch_when_winding_down(state: SupervisorState, events: Seq<SupervisorEvent>)
    requires
        state.is_winding_down(),
    ensures
        state.launches(events) == 0,
        state.run(events).is_winding_down(),
        state.run(events).attempts == state.attempts,
        state.is_terminal() ==> state.run(events) == state,
    decreases events.len(),
{
    if events.len() > 0 {
        lemma_no_launch_when_winding_down(state, events.drop_last());
    }
}

/// A shutdown request that arrives while the helper is running has the
/// helper killed; once it is reaped the supervisor ends as `Stopped`; and
/// whatever else is reported after the request, the helper is not launched
/// again.
pub proof fn lemma_shutdown_stops(state: SupervisorState, later: Seq<SupervisorEvent>)
    requires
        state.phase is Running,
    ensures
        state.step(SupervisorEvent::ShutdownRequested) == (
            SupervisorState { phase: SupervisorPhase::ShuttingDown, ..state },
            Some(SupervisorAction::Terminate),
        ),
        state.step(SupervisorEvent::ShutdownRequested).0.step(SupervisorEvent::Reaped) == (
            SupervisorState { phase: SupervisorPhase::Stopped, ..state },
            Some(SupervisorAction::Stop),
        ),
        state.step(SupervisorEvent::ShutdownRequested).0.launches(later) == 0,
        !(state.step(SupervisorEvent::ShutdownRequested).0.run(later).phase is Failed),
{
    let stopping = state.step(SupervisorEvent::ShutdownRequested).0;
    lemma_no_launch_when_winding_down(stopping, later);
    lemma_never_fails_after_shutdown(stopping, later);
}

/// A supervisor that is shutting down or has stopped does not end in
/// failure.
pub proof fn lemma_never_fails_after_shutdown(state: SupervisorState, events: Seq<SupervisorEvent>)
    requires
        state.phase is ShuttingDown || state.phase is Stopped,
    ensures
        state.run(events).phase is ShuttingDown || state.run(events).phase is Stopped,
    decreases events.len(),
{
    if events.len() > 0 {
        lemma_never_fails_after_shutdown(state, events.drop_last());
    }
}

/// The supervisor of the helper process.
#[derive(Debug)]
pub struct Supervisor {
    phase: SupervisorPhase,
    attempts: u32,
}

impl View for Supervisor {
    type V = SupervisorState;

    closed spec fn view(&self) -> SupervisorState {
        SupervisorState { phase: self.phase, attempts: self.attempts as nat }
    }
}

impl Supervisor {
    /// A supervisor that has not started.
    pub fn new() -> (supervisor: Supervisor)
        ensures
            supervisor@ == SupervisorState::initial(),
    {
        Supervisor { phase: SupervisorPhase::Idle, attempts: 0 }
    }

    /// Where the supervisor stands.
    pub fn phase(&self) -> (phase: SupervisorPhase)
        ensures
            phase == self@.phase,
    {
        self.phase
    }

    /// How many times the helper has been launched.
    pub fn attempts(&self) -> (attempts: u32)
        ensures
            attempts == self@.attempts,
    {
        self.attempts
    }

    /// How the supervisor ended, if it has.
    pub fn outcome(&self) -> (outcome: Option<SupervisorOutcome>)
        ensures
            outcome == match self@.phase {
                SupervisorPhase::Stopped => Some(SupervisorOutcome::Stopped),
                SupervisorPhase::Failed => Some(SupervisorOutcome::Failed),
                _ => None,
            },
    {
        match self.phase {
            SupervisorPhase::Stopped => Some(SupervisorOutcome::Stopped),
            SupervisorPhase::Failed => Some(SupervisorOutcome::Failed),
            _ => None,
        }
    }

    fn enter_launching(&mut self) -> (action: Option<SupervisorAction>)
        ensures
            (final(self)@, action) == old(self)@.enter_launching(),
    {
        if self.attempts >= MAX_RELAUNCHES {
            self.phase = SupervisorPhase::Failed;
            Some(SupervisorAction::GiveUp)
        } else {
            self.attempts = self.attempts + 1;
            self.phase = SupervisorPhase::Launching;
            Some(SupervisorAction::Launch { attempt: self.attempts })
        }
    }

    /// Takes `event` in and says what the driver is to do next. An event
    /// that does not belong to the phase changes nothing and gives `None`.
    pub fn step(&mut self, event: SupervisorEvent) -> (action: Option<SupervisorAction>)
        ensures
            (final(self)@, action) == old(self)@.step(event),
    {
        match (self.phase, event) {
            (SupervisorPhase::Idle, SupervisorEvent::Begin) => self.enter_launching(),
            (SupervisorPhase::Launching, SupervisorEvent::Launched) => {
                self.phase = SupervisorPhase::Running;
                Some(SupervisorAction::Watch)
            },
            (SupervisorPhase::Launching, SupervisorEvent::LaunchFailed) => {
                self.phase = SupervisorPhase::BackingOff;
                Some(SupervisorAction::Backoff { secs: RESTART_BACKOFF_SECS })
            },
            (SupervisorPhase::Running, SupervisorEvent::Exited(_)) => {
                self.phase = SupervisorPhase::BackingOff;
                Some(SupervisorAction::Backoff { secs: RESTART_BACKOFF_SECS })
            },
            (SupervisorPhase::Running, SupervisorEvent::ShutdownRequested) => {
                self.phase = SupervisorPhase::ShuttingDown;
                Some(SupervisorAction::Terminate)
            },
            (SupervisorPhase::BackingOff, SupervisorEvent::BackoffElapsed) => self.enter_launching(),
            (SupervisorPhase::ShuttingDown, SupervisorEvent::Reaped) => {
                self.phase = SupervisorPhase::Stopped;
                Some(SupervisorAction::Stop)
            },
            _ => None,
        }
    }
}

} // verus!
