use onion_lifecycle::error::{exit_code, ServiceError};
use onion_lifecycle::orchestrator::{
    bind_error, serve_error, supervisor_outcome, BindReport, BindTarget, Interface, Listener,
    Orchestrator, OrchestratorAction, OrchestratorEvent, OrchestratorPhase, SupervisorJoin,
};
use onion_lifecycle::port::PortSetting;
use onion_lifecycle::shutdown::{forward_signal, ShutdownLatch, Signal};
use onion_lifecycle::supervisor::{
    HelperExit, Supervisor, SupervisorAction, SupervisorEvent, SupervisorOutcome,
};

const BIND_ONION: OrchestratorAction = OrchestratorAction::Bind {
    listener: Listener::Onion,
    target: BindTarget { interface: Interface::Loopback, port: 3000 },
};

fn bind_public(port: u16) -> OrchestratorAction {
    OrchestratorAction::Bind {
        listener: Listener::Public,
        target: BindTarget { interface: Interface::Any, port },
    }
}

fn bound() -> OrchestratorEvent {
    OrchestratorEvent::BindFinished(BindReport::Bound)
}

fn startup(message: &str) -> Option<Result<(), ServiceError>> {
    Some(Err(ServiceError::Startup(message.to_string())))
}

fn runtime(message: &str) -> Option<Result<(), ServiceError>> {
    Some(Err(ServiceError::Runtime(message.to_string())))
}

/// An orchestrator that serves, with the public listener on `port`.
fn serving(setting: PortSetting, port: u16) -> Orchestrator {
    let mut orchestrator = Orchestrator::new();
    assert_eq!(orchestrator.step(OrchestratorEvent::Begin), Some(OrchestratorAction::ReadPort));
    assert_eq!(orchestrator.step(OrchestratorEvent::PortRead(setting)), Some(BIND_ONION));
    assert_eq!(orchestrator.step(bound()), Some(bind_public(port)));
    assert_eq!(orchestrator.step(bound()), Some(OrchestratorAction::Serve));
    assert_eq!(orchestrator.phase(), OrchestratorPhase::Serving);
    orchestrator
}

fn clean_stop() -> OrchestratorEvent {
    OrchestratorEvent::ListenersFinished { onion: None, public: None }
}

#[test]
fn a_new_orchestrator_is_idle_and_unsettled() {
    let orchestrator = Orchestrator::new();
    assert_eq!(orchestrator.phase(), OrchestratorPhase::Idle);
    assert_eq!(orchestrator.into_outcome(), None);
}

#[test]
fn without_a_port_setting_the_public_listener_binds_on_the_default_port() {
    let orchestrator = serving(PortSetting::Absent, 8080);
    assert_eq!(orchestrator.into_outcome(), None);
    serving(PortSetting::Value("  ".to_string()), 8080);
}

#[test]
fn a_port_setting_names_the_public_port() {
    serving(PortSetting::Value("9090".to_string()), 9090);
}

#[test]
fn a_port_setting_that_is_no_number_fails_before_any_socket_is_bound() {
    let mut orchestrator = Orchestrator::new();
    assert_eq!(orchestrator.step(OrchestratorEvent::Begin), Some(OrchestratorAction::ReadPort));
    assert_eq!(
        orchestrator.step(OrchestratorEvent::PortRead(PortSetting::Value(
            "notanumber".to_string()
        ))),
        Some(OrchestratorAction::Exit)
    );
    assert_eq!(orchestrator.phase(), OrchestratorPhase::Done);
    assert_eq!(orchestrator.step(bound()), None);
    assert_eq!(orchestrator.step(OrchestratorEvent::Begin), None);
    let outcome = orchestrator.into_outcome();
    assert_eq!(
        outcome,
        startup("Unable to parse PORT as u16: ParseIntError { kind: InvalidDigit }")
    );
    assert_eq!(exit_code(&outcome.unwrap()), 1);
}

#[test]
fn a_bind_failure_of_the_onion_listener_is_a_startup_failure() {
    let mut orchestrator = Orchestrator::new();
    orchestrator.step(OrchestratorEvent::Begin);
    orchestrator.step(OrchestratorEvent::PortRead(PortSetting::Absent));
    assert_eq!(
        orchestrator.step(OrchestratorEvent::BindFinished(BindReport::BindFailed(
            "AddrInUse".to_string()
        ))),
        Some(OrchestratorAction::Exit)
    );
    assert_eq!(orchestrator.into_outcome(), startup("Unable to bind onion listener: AddrInUse"));
}

#[test]
fn a_bind_failure_of_the_public_listener_is_a_startup_failure() {
    let mut orchestrator = Orchestrator::new();
    orchestrator.step(OrchestratorEvent::Begin);
    orchestrator.step(OrchestratorEvent::PortRead(PortSetting::Absent));
    orchestrator.step(bound());
    assert_eq!(
        orchestrator.step(OrchestratorEvent::BindFinished(BindReport::BindFailed(
            "PermissionDenied".to_string()
        ))),
        Some(OrchestratorAction::Exit)
    );
    assert_eq!(
        orchestrator.into_outcome(),
        startup("Unable to bind public listener: PermissionDenied")
    );
}

#[test]
fn a_local_address_that_cannot_be_read_is_a_startup_failure() {
    for binds_before in 0..2 {
        let mut orchestrator = Orchestrator::new();
        orchestrator.step(OrchestratorEvent::Begin);
        orchestrator.step(OrchestratorEvent::PortRead(PortSetting::Absent));
        for _ in 0..binds_before {
            orchestrator.step(bound());
        }
        assert_eq!(
            orchestrator.step(OrchestratorEvent::BindFinished(BindReport::NoLocalAddress(
                "NotConnected".to_string()
            ))),
            Some(OrchestratorAction::Exit)
        );
        assert_eq!(
            orchestrator.into_outcome(),
            startup("Unable to get local address: NotConnected")
        );
    }
}

#[test]
fn a_clean_stop_with_a_stopped_supervisor_is_success() {
    let mut orchestrator = serving(PortSetting::Absent, 8080);
    assert_eq!(orchestrator.step(clean_stop()), Some(OrchestratorAction::JoinSupervisor));
    assert_eq!(orchestrator.phase(), OrchestratorPhase::Joining);
    assert_eq!(
        orchestrator.step(OrchestratorEvent::SupervisorJoined(SupervisorJoin::Ended(
            SupervisorOutcome::Stopped
        ))),
        Some(OrchestratorAction::Exit)
    );
    let outcome = orchestrator.into_outcome();
    assert_eq!(outcome, Some(Ok(())));
    assert_eq!(exit_code(&outcome.unwrap()), 0);
}

#[test]
fn a_failed_supervisor_is_a_runtime_failure() {
    let mut orchestrator = serving(PortSetting::Absent, 8080);
    orchestrator.step(clean_stop());
    orchestrator.step(OrchestratorEvent::SupervisorJoined(SupervisorJoin::Ended(
        SupervisorOutcome::Failed,
    )));
    let outcome = orchestrator.into_outcome();
    assert_eq!(outcome, runtime("arti restart limit exceeded"));
    assert_eq!(exit_code(&outcome.unwrap()), 1);
}

#[test]
fn a_supervisor_that_cannot_be_joined_is_a_runtime_failure() {
    let mut orchestrator = serving(PortSetting::Absent, 8080);
    orchestrator.step(clean_stop());
    orchestrator.step(OrchestratorEvent::SupervisorJoined(SupervisorJoin::JoinFailed(
        "JoinError::Panic".to_string(),
    )));
    assert_eq!(
        orchestrator.into_outcome(),
        runtime("arti supervisor task failed to join: JoinError::Panic")
    );
}

#[test]
fn a_listener_failure_is_the_outcome_without_waiting_for_the_supervisor() {
    let mut orchestrator = serving(PortSetting::Absent, 8080);
    assert_eq!(
        orchestrator.step(OrchestratorEvent::ListenersFinished {
            onion: Some("broken pipe".to_string()),
            public: None,
        }),
        Some(OrchestratorAction::Exit)
    );
    assert_eq!(
        orchestrator.step(OrchestratorEvent::SupervisorJoined(SupervisorJoin::Ended(
            SupervisorOutcome::Stopped
        ))),
        None
    );
    assert_eq!(orchestrator.into_outcome(), runtime("onion endpoint service error: broken pipe"));

    let mut orchestrator = serving(PortSetting::Absent, 8080);
    orchestrator.step(OrchestratorEvent::ListenersFinished {
        onion: None,
        public: Some("reset".to_string()),
    });
    assert_eq!(orchestrator.into_outcome(), runtime("public endpoint service error: reset"));
}

#[test]
fn of_two_listener_failures_the_onion_listeners_is_reported() {
    let mut orchestrator = serving(PortSetting::Absent, 8080);
    orchestrator.step(OrchestratorEvent::ListenersFinished {
        onion: Some("first".to_string()),
        public: Some("second".to_string()),
    });
    assert_eq!(orchestrator.into_outcome(), runtime("onion endpoint service error: first"));
}

#[test]
fn orchestrator_events_out_of_place_change_nothing() {
    let mut orchestrator = Orchestrator::new();
    assert_eq!(orchestrator.step(bound()), None);
    assert_eq!(orchestrator.step(clean_stop()), None);
    assert_eq!(orchestrator.step(OrchestratorEvent::PortRead(PortSetting::Absent)), None);
    assert_eq!(orchestrator.phase(), OrchestratorPhase::Idle);
    let mut orchestrator = serving(PortSetting::Absent, 8080);
    assert_eq!(orchestrator.step(bound()), None);
    assert_eq!(orchestrator.step(OrchestratorEvent::Begin), None);
    assert_eq!(
        orchestrator.step(OrchestratorEvent::SupervisorJoined(SupervisorJoin::Ended(
            SupervisorOutcome::Failed
        ))),
        None
    );
    assert_eq!(orchestrator.phase(), OrchestratorPhase::Serving);
    assert_eq!(orchestrator.into_outcome(), None);
}

#[test]
fn the_parts_of_the_outcome_policy() {
    assert_eq!(bind_error(Listener::Onion, &BindReport::Bound), None);
    assert_eq!(
        bind_error(Listener::Public, &BindReport::BindFailed("x".to_string())),
        Some(ServiceError::Startup("Unable to bind public listener: x".to_string()))
    );
    assert_eq!(serve_error(&None, &None), None);
    assert_eq!(
        serve_error(&None, &Some("y".to_string())),
        Some(ServiceError::Runtime("public endpoint service error: y".to_string()))
    );
    assert_eq!(supervisor_outcome(&SupervisorJoin::Ended(SupervisorOutcome::Stopped)), Ok(()));
    assert_eq!(
        supervisor_outcome(&SupervisorJoin::Ended(SupervisorOutcome::Failed)),
        Err(ServiceError::Runtime("arti restart limit exceeded".to_string()))
    );
}

#[test]
fn a_signal_before_any_request_stops_everything_and_exits_zero() {
    let mut orchestrator = serving(PortSetting::Absent, 8080);
    let mut supervisor = Supervisor::new();
    supervisor.step(SupervisorEvent::Begin);
    assert_eq!(supervisor.step(SupervisorEvent::Launched), Some(SupervisorAction::Watch));

    let mut latch = ShutdownLatch::new();
    let mut onion = latch.subscribe();
    let mut public = latch.subscribe();
    let mut helper = latch.subscribe();
    assert!(!onion.poll(&latch) && !public.poll(&latch) && !helper.poll(&latch));

    assert!(forward_signal(Signal::Terminate, &mut latch));

    // both listeners and the supervisor observe the shutdown
    assert!(onion.poll(&latch));
    assert!(public.poll(&latch));
    assert!(helper.poll(&latch));
    assert_eq!(
        supervisor.step(SupervisorEvent::ShutdownRequested),
        Some(SupervisorAction::Terminate)
    );
    assert_eq!(supervisor.step(SupervisorEvent::Reaped), Some(SupervisorAction::Stop));

    assert_eq!(orchestrator.step(clean_stop()), Some(OrchestratorAction::JoinSupervisor));
    let joined = SupervisorJoin::Ended(supervisor.outcome().expect("the supervisor has ended"));
    assert_eq!(
        orchestrator.step(OrchestratorEvent::SupervisorJoined(joined)),
        Some(OrchestratorAction::Exit)
    );
    let outcome = orchestrator.into_outcome().expect("settled");
    assert_eq!(outcome, Ok(()));
    assert_eq!(exit_code(&outcome), 0);
}

#[test]
fn a_missing_helper_ends_the_process_with_a_failure() {
    let mut orchestrator = serving(PortSetting::Absent, 8080);
    let mut supervisor = Supervisor::new();
    let mut latch = ShutdownLatch::new();
    let mut listeners = latch.subscribe();

    let mut action = supervisor.step(SupervisorEvent::Begin);
    let mut launches = 0;
    while action != Some(SupervisorAction::GiveUp) {
        action = match action {
            Some(SupervisorAction::Launch { .. }) => {
                launches += 1;
                supervisor.step(SupervisorEvent::LaunchFailed)
            }
            Some(SupervisorAction::Backoff { secs: 3 }) => {
                supervisor.step(SupervisorEvent::BackoffElapsed)
            }
            other => panic!("unexpected action {:?}", other),
        };
    }
    assert_eq!(launches, 5);
    // giving up requests shutdown of the whole system
    assert!(latch.fire());
    assert!(listeners.poll(&latch));

    orchestrator.step(clean_stop());
    let joined = SupervisorJoin::Ended(supervisor.outcome().expect("the supervisor has ended"));
    orchestrator.step(OrchestratorEvent::SupervisorJoined(joined));
    let outcome = orchestrator.into_outcome().expect("settled");
    assert_eq!(outcome, Err(ServiceError::Runtime("arti restart limit exceeded".to_string())));
    assert_ne!(exit_code(&outcome), 0);
}

#[test]
fn a_helper_that_keeps_exiting_is_given_up_after_five_launches() {
    let mut supervisor = Supervisor::new();
    supervisor.step(SupervisorEvent::Begin);
    let mut launches = 1;
    loop {
        assert_eq!(supervisor.step(SupervisorEvent::Launched), Some(SupervisorAction::Watch));
        supervisor.step(SupervisorEvent::Exited(HelperExit::Failed { code: Some(127) }));
        match supervisor.step(SupervisorEvent::BackoffElapsed) {
            Some(SupervisorAction::Launch { attempt }) => {
                launches += 1;
                assert_eq!(attempt, launches);
            }
            Some(SupervisorAction::GiveUp) => break,
            other => panic!("unexpected action {:?}", other),
        }
    }
    assert_eq!(launches, 5);
}
