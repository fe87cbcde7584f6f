//! The orchestrator: the order in which the system is brought up, and the
//! overall outcome that follows from what its parts report.
//!
//! The port is settled first, then both listeners are bound, and only then
//! does anything start to run: a startup failure leaves nothing running. Once
//! the listeners have stopped, a failure of either is the overall outcome at
//! once, without waiting for the supervisor; if both stopped cleanly the
//! overall outcome is the supervisor's.

use crate::error::{outcome_view, runtime_failure, startup_failure, ServiceError, ServiceFailure};
use crate::port::{resolve_port, resolve_public_port, PortSetting, DEFAULT_ONION_PORT};
use crate::supervisor::SupervisorOutcome;
use vstd::prelude::*;

verus! {

/// One of the two listeners.
#[derive(Debug, Clone, Copy, PartialEq, Eq, Structural)]
pub enum Listener {
    /// The listener that the onion service forwards to.
    Onion,
    /// The listener that is reached directly.
    Public,
}

/// The interfaces that a listener accepts connections on.
#[derive(Debug, Clone, Copy, PartialEq, Eq, Structural)]
pub enum Interface {
    /// The loopback interface only.
    Loopback,
    /// Every interface.
    Any,
}

/// Where a listener is bound.
#[derive(Debug, Clone, Copy, PartialEq, Eq, Structural)]
pub struct BindTarget {
    pub interface: Interface,
    pub port: u16,
}

/// How binding a listener ended.
#[derive(Debug, Clone, PartialEq, Eq)]
pub enum BindReport {
    /// The listener is bound.
    Bound,
    /// The socket could not be bound; the string says why.
    BindFailed(String),
    /// The socket is bound but its local address could not be read; the
    /// string says why.
    NoLocalAddress(String),
}

/// How waiting for the supervisor ended.
#[derive(Debug, Clone, PartialEq, Eq)]
pub enum SupervisorJoin {
    /// The supervisor has ended.
    Ended(SupervisorOutcome),
    /// The supervisor's task could not be joined; the string says why.
    JoinFailed(String),
}

/// What the driver reports to the orchestrator.
#[derive(Debug, Clone, PartialEq, Eq)]
pub enum OrchestratorEvent {
    /// The system is to start.
    Begin,
    /// The port setting has been read.
    PortRead(PortSetting),
    /// The bind that the orchestrator asked for has ended.
    BindFinished(BindReport),
    /// Both listeners have stopped serving. Each side is `None` if the
    /// listener stopped cleanly, and says what went wrong otherwise.
    ListenersFinished { onion: Option<String>, public: Option<String> },
    /// Waiting for the supervisor has ended.
    SupervisorJoined(SupervisorJoin),
}

/// What the orchestrator asks its driver to do next.
#[derive(Debug, Clone, Copy, PartialEq, Eq, Structural)]
pub enum OrchestratorAction {
    /// Read the port setting, then report `PortRead`.
    ReadPort,
    /// Bind a listener, then report `BindFinished`.
    Bind { listener: Listener, target: BindTarget },
    /// Start the discovery task, the signal forwarder and the supervisor,
    /// serve on both listeners until shutdown is broadcast, then report
    /// `ListenersFinished`.
    Serve,
    /// Wait for the supervisor to end, then report `SupervisorJoined`.
    JoinSupervisor,
    /// Stop: the overall outcome is settled.
    Exit,
}

/// Where the orchestrator stands.
#[derive(Debug, Clone, Copy, PartialEq, Eq, Structural)]
pub enum OrchestratorPhase {
    /// Not started.
    Idle,
    /// The port setting is being read.
    ReadingPort,
    /// The onion listener is being bound.
    BindingOnion,
    /// The public listener is being bound.
    BindingPublic,
    /// Everything runs; the listeners serve.
    Serving,
    /// The listeners have stopped; the supervisor is awaited.
    Joining,
    /// The overall outcome is settled.
    Done,
}

/// The orchestrator as the decisions see it.
pub struct OrchestratorState {
    pub phase: OrchestratorPhase,
    /// The port of the public listener, once it is settled.
    pub public_port: u16,
    /// The overall outcome, once it is settled.
    pub outcome: Option<Result<(), ServiceFailure>>,
}

/// The failure that a bind report stands for, if it stands for one.
pub open spec fn bind_failure(listener: Listener, report: BindReport) -> Option<ServiceFailure> {
    match report {
        BindReport::Bound => None,
        BindReport::BindFailed(why) => Some(
            ServiceFailure::Startup(
                match listener {
                    Listener::Onion => "Unable to bind onion listener: "@,
                    Listener::Public => "Unable to bind public listener: "@,
                } + why@,
            ),
        ),
        BindReport::NoLocalAddress(why) => Some(
            ServiceFailure::Startup("Unable to get local address: "@ + why@),
        ),
    }
}

/// The failure that the listeners' reports stand for, if they stand for one:
/// the onion listener's comes first.
pub open spec fn serve_failure(onion: Option<String>, public: Option<String>) -> Option<
    ServiceFailure,
> {
    match (onion, public) {
        (Some(why), _) => Some(ServiceFailure::Runtime("onion endpoint service error: "@ + why@)),
        (None, Some(why)) => Some(
            ServiceFailure::Runtime("public endpoint service error: "@ + why@),
        ),
        (None, None) => None,
    }
}

/// The overall outcome once both listeners have stopped cleanly: that of
/// the supervisor.
pub open spec fn join_outcome(join: SupervisorJoin) -> Result<(), ServiceFailure> {
    match join {
        SupervisorJoin::Ended(SupervisorOutcome::Stopped) => Ok(()),
        SupervisorJoin::Ended(SupervisorOutcome::Failed) => Err(
            ServiceFailure::Runtime("arti restart limit exceeded"@),
        ),
        SupervisorJoin::JoinFailed(why) => Err(
            ServiceFailure::Runtime("arti supervisor task failed to join: "@ + why@),
        ),
    }
}

impl OrchestratorState {
    /// An orchestrator that has not started.
    pub open spec fn initial() -> OrchestratorState {
        OrchestratorState { phase: OrchestratorPhase::Idle, public_port: 0, outcome: None }
    }

    /// The state in which the overall outcome is `outcome`.
    pub open spec fn settled(self, outcome: Result<(), ServiceFailure>) -> OrchestratorState {
        OrchestratorState { phase: OrchestratorPhase::Done, outcome: Some(outcome), ..self }
    }

    /// Where the onion listener is bound.
    pub open spec fn onion_target() -> BindTarget {
        BindTarget { interface: Interface::Loopback, port: DEFAULT_ONION_PORT }
    }

    /// Where the public listener is bound.
    pub open spec fn public_target(self) -> BindTarget {
        BindTarget { interface: Interface::Any, port: self.public_port }
    }

    /// The state after `event`, and what the driver is to do; `None` where
    /// the event does not belong to the phase, which leaves the state as it is.
    pub open spec fn step(self, event: OrchestratorEvent) -> (
        OrchestratorState,
        Option<OrchestratorAction>,
    ) {
        match (self.phase, event) {
            (OrchestratorPhase::Idle, OrchestratorEvent::Begin) => (
                OrchestratorState { phase: OrchestratorPhase::ReadingPort, ..self },
                Some(OrchestratorAction::ReadPort),
            ),
            (OrchestratorPhase::ReadingPort, OrchestratorEvent::PortRead(setting)) => {
                match resolve_port(setting) {
                    Ok(port) => (
                        OrchestratorState {
                            phase: OrchestratorPhase::BindingOnion,
                            public_port: port,
                            ..self
                        },
                        Some(
                            OrchestratorAction::Bind {
                                listener: Listener::Onion,
                                target: Self::onion_target(),
                            },
                        ),
                    ),
                    Err(failure) => (self.settled(Err(failure)), Some(OrchestratorAction::Exit)),
                }
            },
            (OrchestratorPhase::BindingOnion, OrchestratorEvent::BindFinished(report)) => {
                match bind_failure(Listener::Onion, report) {
                    None => (
                        OrchestratorState { phase: OrchestratorPhase::BindingPublic, ..self },
                        Some(
                            OrchestratorAction::Bind {
                                listener: Listener::Public,
                                target: self.public_target(),
                            },
                        ),
                    ),
                    Some(failure) => (self.settled(Err(failure)), Some(OrchestratorAction::Exit)),
                }
            },
            (OrchestratorPhase::BindingPublic, OrchestratorEvent::BindFinished(report)) => {
                match bind_failure(Listener::Public, report) {
                    None => (
                        OrchestratorState { phase: OrchestratorPhase::Serving, ..self },
                        Some(OrchestratorAction::Serve),
                    ),
                    Some(failure) => (self.settled(Err(failure)), Some(OrchestratorAction::Exit)),
                }
            },
            (OrchestratorPhase::Serving, OrchestratorEvent::ListenersFinished { onion, public }) => {
                match serve_failure(onion, public) {
                    None => (
                        OrchestratorState { phase: OrchestratorPhase::Joining, ..self },
                        Some(OrchestratorAction::JoinSupervisor),
                    ),
                    Some(failure) => (self.settled(Err(failure)), Some(OrchestratorAction::Exit)),
                }
            },
            (OrchestratorPhase::Joining, OrchestratorEvent::SupervisorJoined(join)) => (
                self.settled(join_outcome(join)),
                Some(OrchestratorAction::Exit),
            ),
            _ => (self, None),
        }
    }

    /// The state after all of `events`, in order.
    pub open spec fn run(self, events: Seq<OrchestratorEvent>) -> OrchestratorState
        decreases events.len(),
    {
        if events.len() == 0 {
            self
        } else {
            self.run(events.drop_last()).step(events.last()).0
        }
    }

    /// What the orchestrator asks for while it takes in `events`, in order.
    pub open spec fn asked(self, events: Seq<OrchestratorEvent>) -> Seq<OrchestratorAction>
        decreases events.len(),
    {
        if events.len() == 0 {
            Seq::empty()
        } else {
            let earlier = self.asked(events.drop_last());
            match self.run(events.drop_last()).step(events.last()).1 {
                Some(action) => earlier.push(action),
                None => earlier,
            }
        }
    }

    /// Whether nothing has been started yet: the port is being settled or
    /// the listeners are being bound.
    pub open spec fn is_starting(self) -> bool {
        self.phase is Idle || self.phase is ReadingPort || self.phase is BindingOnion
            || self.phase is BindingPublic
    }

    /// Whether no socket has been asked for yet.
    pub open spec fn is_before_binding(self) -> bool {
        self.phase is Idle || self.phase is ReadingPort
    }
}

/// Whether `actions` holds neither a bind nor the start of serving.
pub open spec fn touches_no_socket(actions: Seq<OrchestratorAction>) -> bool {
    forall|i: int|
        0 <= i < actions.len() ==> !(#[trigger] actions[i] is Bind) && !(actions[i] is Serve)
}

/// Whether `actions` does not hold the start of serving.
pub open spec fn starts_nothing(actions: Seq<OrchestratorAction>) -> bool {
    forall|i: int| 0 <= i < actions.len() ==> !(#[trigger] actions[i] is Serve)
}

/// Once the overall outcome is settled, nothing that is reported changes
/// it, and nothing more is asked for.
pub proof fn lemma_settled_is_final(state: OrchestratorState, events: Seq<OrchestratorEvent>)
    requires
        state.phase is Done,
    ensures
        state.run(events) == state,
        state.asked(events) == Seq::<OrchestratorAction>::empty(),
    decreases events.len(),
{
    if events.len() > 0 {
        lemma_settled_is_final(state, events.drop_last());
    }
}

/// Running through `events` is running through its first `i`, then the
/// rest, and what is asked for is what is asked for in the two parts.
pub proof fn lemma_run_split(state: OrchestratorState, events: Seq<OrchestratorEvent>, i: int)
    requires
        0 <= i <= events.len(),
    ensures
        state.run(events) == state.run(events.take(i)).run(events.skip(i)),
        state.asked(events) == state.asked(events.take(i)) + state.run(events.take(i)).asked(
            events.skip(i),
        ),
    decreases events.len(),
{
    if i == events.len() {
        assert(events.take(i) =~= events);
        assert(events.skip(i) =~= Seq::<OrchestratorEvent>::empty());
        assert(state.asked(events) + Seq::<OrchestratorAction>::empty() =~= state.asked(events));
    } else {
        lemma_run_split(state, events.drop_last(), i);
        assert(events.drop_last().take(i) =~= events.take(i));
        assert(events.drop_last().skip(i) =~= events.skip(i).drop_last());
        let middle = state.run(events.take(i));
        let tail = events.skip(i);
        assert(tail.last() == events.last());
        assert(state.asked(events) =~= state.asked(events.take(i)) + middle.asked(tail));
    }
}

/// What holds of the state that a run from the start reaches, and of what
/// was asked for on the way.
pub open spec fn on_course(state: OrchestratorState, asked: Seq<OrchestratorAction>) -> bool {
    &&& state.phase is Done <==> state.outcome is Some
    &&& state.is_before_binding() ==> touches_no_socket(asked)
    &&& state.is_starting() ==> starts_nothing(asked)
    &&& state.outcome matches Some(Err(ServiceFailure::Startup(_))) ==> starts_nothing(asked)
}

proof fn lemma_run_on_course(events: Seq<OrchestratorEvent>)
    ensures
        on_course(
            OrchestratorState::initial().run(events),
            OrchestratorState::initial().asked(events),
        ),
    decreases events.len(),
{
    if events.len() > 0 {
        lemma_run_on_course(events.drop_last());
    }
}

/// A startup failure leaves nothing running: if the overall outcome is a
/// startup failure, the orchestrator has never asked to start serving.
pub proof fn lemma_startup_failure_starts_nothing(events: Seq<OrchestratorEvent>)
    requires
        OrchestratorState::initial().run(events).outcome matches Some(
            Err(ServiceFailure::Startup(_)),
        ),
    ensures
        starts_nothing(OrchestratorState::initial().asked(events)),
{
    lemma_run_on_course(events);
}

/// A port setting that cannot be resolved fails the startup before any
/// socket is asked for: if event `k` brings such a setting while the
/// orchestrator waits for it, the overall outcome is that failure, and
/// neither before nor after has a bind or the start of serving been asked
/// for.
pub proof fn lemma_bad_port_binds_nothing(events: Seq<OrchestratorEvent>, k: int)
    requires
        0 <= k < events.len(),
        OrchestratorState::initial().run(events.take(k)).phase is ReadingPort,
        events[k] matches OrchestratorEvent::PortRead(setting) && resolve_port(setting) is Err,
    ensures
        events[k] matches OrchestratorEvent::PortRead(setting) && OrchestratorState::initial().run(
            events,
        ).outcome == Some(Err::<(), ServiceFailure>(resolve_port(setting)->Err_0)),
        touches_no_socket(OrchestratorState::initial().asked(events)),
{
    let start = OrchestratorState::initial();
    let before = start.run(events.take(k));
    lemma_run_on_course(events.take(k));
    assert(events.take(k + 1).drop_last() =~= events.take(k));
    let after = start.run(events.take(k + 1));
    assert(after == before.step(events[k]).0);
    lemma_run_split(start, events, k + 1);
    lemma_settled_is_final(after, events.skip(k + 1));
    assert(start.asked(events) =~= start.asked(events.take(k + 1)));
}

/// The orchestrator.
#[derive(Debug)]
pub struct Orchestrator {
    phase: OrchestratorPhase,
    public_port: u16,
    outcome: Option<Result<(), ServiceError>>,
}

/// An outcome that may not be settled yet, as the decisions see it.
pub open spec fn settled_view(outcome: Option<Result<(), ServiceError>>) -> Option<
    Result<(), ServiceFailure>,
> {
    match outcome {
        Some(o) => Some(outcome_view(o)),
        None => None,
    }
}

impl View for Orchestrator {
    type V = OrchestratorState;

    closed spec fn view(&self) -> OrchestratorState {
        OrchestratorState {
            phase: self.phase,
            public_port: self.public_port,
            outcome: settled_view(self.outcome),
        }
    }
}

impl Orchestrator {
    /// An orchestrator that has not started.
    pub fn new() -> (orchestrator: Orchestrator)
        ensures
            orchestrator@ == OrchestratorState::initial(),
    {
        Orchestrator { phase: OrchestratorPhase::Idle, public_port: 0, outcome: None }
    }

    /// Where the orchestrator stands.
    pub fn phase(&self) -> (phase: OrchestratorPhase)
        ensures
            phase == self@.phase,
    {
        self.phase
    }

    /// The overall outcome, if it is settled.
    pub fn into_outcome(self) -> (outcome: Option<Result<(), ServiceError>>)
        ensures
            settled_view(outcome) == self@.outcome,
    {
        self.outcome
    }

    fn settle(&mut self, outcome: Result<(), ServiceError>) -> (action: Option<OrchestratorAction>)
        ensures
            final(self)@ == old(self)@.settled(outcome_view(outcome)),
            action == Some(OrchestratorAction::Exit),
    {
        self.phase = OrchestratorPhase::Done;
        self.outcome = Some(outcome);
        Some(OrchestratorAction::Exit)
    }

    /// Takes `event` in and says what the driver is to do next. An event
    /// that does not belong to the phase changes nothing and gives `None`.
    pub fn step(&mut self, event: OrchestratorEvent) -> (action: Option<OrchestratorAction>)
        ensures
            (final(self)@, action) == old(self)@.step(event),
    {
        match (self.phase, event) {
            (OrchestratorPhase::Idle, OrchestratorEvent::Begin) => {
                self.phase = OrchestratorPhase::ReadingPort;
                Some(OrchestratorAction::ReadPort)
            },
            (OrchestratorPhase::ReadingPort, OrchestratorEvent::PortRead(setting)) => {
                match resolve_public_port(&setting) {
                    Ok(port) => {
                        self.phase = OrchestratorPhase::BindingOnion;
                        self.public_port = port;
                        Some(
                            OrchestratorAction::Bind {
                                listener: Listener::Onion,
                                target: BindTarget {
                                    interface: Interface::Loopback,
                                    port: DEFAULT_ONION_PORT,
                                },
                            },
                        )
                    },
                    Err(e) => self.settle(Err(e)),
                }
            },
            (OrchestratorPhase::BindingOnion, OrchestratorEvent::BindFinished(report)) => {
                match bind_error(Listener::Onion, &report) {
                    None => {
                        self.phase = OrchestratorPhase::BindingPublic;
                        Some(
                            OrchestratorAction::Bind {
                                listener: Listener::Public,
                                target: BindTarget {
                                    interface: Interface::Any,
                                    port: self.public_port,
                                },
                            },
                        )
                    },
                    Some(e) => self.settle(Err(e)),
                }
            },
            (OrchestratorPhase::BindingPublic, OrchestratorEvent::BindFinished(report)) => {
                match bind_error(Listener::Public, &report) {
                    None => {
                        self.phase = OrchestratorPhase::Serving;
                        Some(OrchestratorAction::Serve)
                    },
                    Some(e) => self.settle(Err(e)),
                }
            },
            (OrchestratorPhase::Serving, OrchestratorEvent::ListenersFinished { onion, public }) => {
                match serve_error(&onion, &public) {
                    None => {
                        self.phase = OrchestratorPhase::Joining;
                        Some(OrchestratorAction::JoinSupervisor)
                    },
                    Some(e) => self.settle(Err(e)),
                }
            },
            (OrchestratorPhase::Joining, OrchestratorEvent::SupervisorJoined(join)) => {
                let outcome = supervisor_outcome(&join);
                self.settle(outcome)
            },
            _ => None,
        }
    }
}

/// A failure that may be absent, as the decisions see it.
pub open spec fn failure_view(e: Option<ServiceError>) -> Option<ServiceFailure> {
    match e {
        Some(e) => Some(e@),
        None => None,
    }
}

/// The failure that a bind report stands for, if it stands for one.
pub fn bind_error(listener: Listener, report: &BindReport) -> (e: Option<ServiceError>)
    ensures
        failure_view(e) == bind_failure(listener, *report),
{
    match report {
        BindReport::Bound => None,
        BindReport::BindFailed(why) => {
            let what = match listener {
                Listener::Onion => "Unable to bind onion listener: ",
                Listener::Public => "Unable to bind public listener: ",
            };
            Some(startup_failure(what, why.as_str()))
        },
        BindReport::NoLocalAddress(why) => Some(
            startup_failure("Unable to get local address: ", why.as_str()),
        ),
    }
}

/// The failure that the listeners' reports stand for, if they stand for one.
pub fn serve_error(onion: &Option<String>, public: &Option<String>) -> (e: Option<ServiceError>)
    ensures
        failure_view(e) == serve_failure(*onion, *public),
{
    match onion {
        Some(why) => Some(runtime_failure("onion endpoint service error: ", why.as_str())),
        None => match public {
            Some(why) => Some(runtime_failure("public endpoint service error: ", why.as_str())),
            None => None,
        },
    }
}

/// The overall outcome once both listeners have stopped cleanly.
pub fn supervisor_outcome(join: &SupervisorJoin) -> (outcome: Result<(), ServiceError>)
    ensures
        outcome_view(outcome) == join_outcome(*join),
{
    match join {
        SupervisorJoin::Ended(SupervisorOutcome::Stopped) => Ok(()),
        SupervisorJoin::Ended(SupervisorOutcome::Failed) => Err(
            ServiceError::Runtime("arti restart limit exceeded".to_owned()),
        ),
        SupervisorJoin::JoinFailed(why) => Err(
            runtime_failure("arti supervisor task failed to join: ", why.as_str()),
        ),
    }
}

} // verus!
