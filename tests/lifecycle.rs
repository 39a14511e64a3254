use backend_supervisor::endpoint::Endpoint;
use backend_supervisor::supervisor::{
    Action, BackendState, Event, Failure, StartError, StopOutcome, Supervisor,
};

fn running(port: u16, pid: u32) -> Supervisor {
    let mut s = Supervisor::new();
    assert!(s.start(port).is_ok());
    assert_eq!(s.handle(Event::Spawned { pid }), Action::Idle);
    assert_eq!(s.handle(Event::Survived), Action::Idle);
    assert_eq!(s.handle(Event::Probed { reachable: true }), Action::Idle);
    s
}

fn exited(exit_code: Option<i32>) -> Event {
    Event::Exited { exit_code, output: String::new() }
}

#[test]
fn new_supervisor_is_stopped() {
    let s = Supervisor::new();
    let st = s.status();
    assert!(matches!(st.state, BackendState::Stopped));
    assert_eq!(st.pid, None);
    assert_eq!(st.endpoint, None);
    assert!(!st.is_running());
}

#[test]
fn start_twice_is_already_running() {
    let mut s = Supervisor::new();
    assert_eq!(s.start(8080).unwrap(), Endpoint { port: 8080 });
    let second = s.start(9090);
    assert!(matches!(second, Err(StartError::AlreadyRunning)));
    let st = s.status();
    assert!(matches!(st.state, BackendState::Starting));
    assert_eq!(st.endpoint, Some(Endpoint { port: 8080 }));
}

#[test]
fn start_while_running_or_stopping_is_refused() {
    let mut s = running(8080, 42);
    assert!(matches!(s.start(8080), Err(StartError::AlreadyRunning)));
    assert_eq!(s.stop(), Action::Terminate { pid: 42 });
    assert!(matches!(s.start(8080), Err(StartError::AlreadyRunning)));
}

#[test]
fn stop_when_stopped_is_a_no_op() {
    let mut s = Supervisor::new();
    assert_eq!(s.stop(), Action::Idle);
    assert!(matches!(s.status().state, BackendState::Stopped));
    assert_eq!(s.stop(), Action::Idle);
    assert!(matches!(s.status().state, BackendState::Stopped));
}

#[test]
fn unsolicited_exit_reports_failed() {
    let mut s = running(8080, 42);
    assert!(s.status().is_running());
    assert_eq!(s.handle(exited(Some(3))), Action::Idle);
    let st = s.status();
    assert!(!st.is_running());
    assert!(matches!(
        st.state,
        BackendState::Failed(Failure::UnexpectedExit { exit_code: Some(3), .. })
    ));
    assert_eq!(st.pid, None);
    assert!(matches!(
        s.start_outcome(),
        Some(Err(StartError::UnexpectedExit { exit_code: Some(3), .. }))
    ));
}

#[test]
fn exit_during_start_reports_failed() {
    let mut s = Supervisor::new();
    s.start(8080).unwrap();
    s.handle(Event::Spawned { pid: 7 });
    s.handle(exited(None));
    assert!(matches!(
        s.status().state,
        BackendState::Failed(Failure::UnexpectedExit { exit_code: None, .. })
    ));
}

#[test]
fn stop_while_starting_kills_the_process() {
    let mut s = Supervisor::new();
    s.start(8080).unwrap();
    s.handle(Event::Spawned { pid: 11 });
    assert_eq!(s.handle(Event::Probed { reachable: false }), Action::Idle);
    assert_eq!(s.stop(), Action::Terminate { pid: 11 });
    assert!(matches!(s.status().state, BackendState::Stopping));
    assert!(s.start_outcome().is_none());
    assert_eq!(s.handle(Event::TimedOut), Action::ForceKill { pid: 11 });
    assert!(s.start_outcome().is_none());
    assert_eq!(s.handle(Event::TimedOut), Action::Unkillable { pid: 11 });
    assert_eq!(s.handle(exited(None)), Action::Idle);
    assert!(matches!(s.start_outcome(), Some(Err(StartError::Cancelled))));
    let st = s.status();
    assert!(matches!(st.state, BackendState::Stopped));
    assert_eq!(st.pid, None);
    assert_eq!(s.last_stop(), Some(StopOutcome::ForceKilled));
}

#[test]
fn stop_before_launch_is_reported_kills_it() {
    let mut s = Supervisor::new();
    s.start(8080).unwrap();
    assert_eq!(s.stop(), Action::Idle);
    assert_eq!(s.handle(Event::Spawned { pid: 12 }), Action::ForceKill { pid: 12 });
    assert_eq!(s.status().pid, Some(12));
    s.handle(exited(None));
    assert!(matches!(s.status().state, BackendState::Stopped));
    assert_eq!(s.status().pid, None);
}

#[test]
fn stop_before_failed_launch_ends_stopped() {
    let mut s = Supervisor::new();
    s.start(8080).unwrap();
    s.stop();
    s.handle(Event::SpawnFailed { reason: "missing".to_string() });
    assert!(matches!(s.status().state, BackendState::Stopped));
}

#[test]
fn health_check_timeout_kills_and_fails() {
    let mut s = Supervisor::new();
    s.start(8080).unwrap();
    s.handle(Event::Spawned { pid: 13 });
    s.handle(Event::Survived);
    s.handle(Event::Probed { reachable: false });
    assert_eq!(s.handle(Event::TimedOut), Action::ForceKill { pid: 13 });
    // the kill is not confirmed yet: the start is still undecided
    assert!(s.start_outcome().is_none());
    assert_eq!(s.status().pid, Some(13));
    s.handle(Event::Exited { exit_code: Some(137), output: "bind: address in use".to_string() });
    match s.status().state {
        BackendState::Failed(Failure::HealthCheckTimeout { output }) => {
            assert_eq!(output, "bind: address in use")
        }
        other => panic!("unexpected state {:?}", other),
    }
    match s.start_outcome() {
        Some(Err(StartError::HealthCheckTimeout { output })) => {
            assert_eq!(output, "bind: address in use")
        }
        other => panic!("unexpected outcome {:?}", other),
    }
    assert_eq!(s.status().pid, None);
}

#[test]
fn stop_during_health_check_abort_ends_stopped() {
    let mut s = Supervisor::new();
    s.start(8080).unwrap();
    s.handle(Event::Spawned { pid: 14 });
    assert_eq!(s.handle(Event::TimedOut), Action::ForceKill { pid: 14 });
    assert_eq!(s.stop(), Action::ForceKill { pid: 14 });
    s.handle(exited(None));
    assert!(matches!(s.status().state, BackendState::Stopped));
    assert_eq!(s.last_stop(), Some(StopOutcome::ForceKilled));
    assert!(matches!(s.start_outcome(), Some(Err(StartError::Cancelled))));
}

#[test]
fn reachable_before_grace_period_is_not_running() {
    let mut s = Supervisor::new();
    s.start(8080).unwrap();
    s.handle(Event::Spawned { pid: 15 });
    s.handle(Event::Probed { reachable: true });
    assert!(matches!(s.status().state, BackendState::Starting));
    s.handle(Event::Survived);
    assert!(matches!(s.status().state, BackendState::Starting));
    s.handle(Event::Probed { reachable: true });
    assert!(s.status().is_running());
}

#[test]
fn unsolicited_exit_keeps_output() {
    let mut s = running(8080, 16);
    s.handle(Event::Exited { exit_code: Some(2), output: "panic: boom".to_string() });
    match s.start_outcome() {
        Some(Err(StartError::UnexpectedExit { exit_code, output })) => {
            assert_eq!(exit_code, Some(2));
            assert_eq!(output, "panic: boom");
        }
        other => panic!("unexpected outcome {:?}", other),
    }
}

#[test]
fn spawn_failure_is_reported() {
    let mut s = Supervisor::new();
    s.start(8080).unwrap();
    s.handle(Event::SpawnFailed { reason: "permission denied".to_string() });
    match s.start_outcome() {
        Some(Err(StartError::SpawnFailed { reason })) => assert_eq!(reason, "permission denied"),
        other => panic!("unexpected outcome {:?}", other),
    }
    match s.status().state {
        BackendState::Failed(Failure::SpawnFailed { reason }) => {
            assert_eq!(reason, "permission denied")
        }
        other => panic!("unexpected state {:?}", other),
    }
    // a failed backend may be started again
    assert!(s.start(8081).is_ok());
}

#[test]
fn stop_after_failure_returns_to_stopped() {
    let mut s = running(8080, 3);
    s.handle(exited(Some(1)));
    assert_eq!(s.stop(), Action::Idle);
    assert!(matches!(s.status().state, BackendState::Stopped));
}

#[test]
fn round_trip_reports_endpoint_then_stopped() {
    let mut s = Supervisor::new();
    let ep = s.start(8080).unwrap();
    assert_eq!(ep, Endpoint { port: 8080 });
    assert!(s.start_outcome().is_none());
    s.handle(Event::Spawned { pid: 99 });
    s.handle(Event::Survived);
    s.handle(Event::Probed { reachable: true });
    let st = s.status();
    assert!(st.is_running());
    assert_eq!(st.endpoint.unwrap().address(), "localhost:8080");
    assert_eq!(st.pid, Some(99));
    assert!(matches!(s.start_outcome(), Some(Ok(Endpoint { port: 8080 }))));
    assert_eq!(s.stop(), Action::Terminate { pid: 99 });
    s.handle(exited(Some(0)));
    let st = s.status();
    assert!(matches!(st.state, BackendState::Stopped));
    assert_eq!(st.endpoint, None);
    assert_eq!(st.pid, None);
    assert_eq!(s.last_stop(), Some(StopOutcome::GracefulExit));
}

#[test]
fn second_stop_escalates_to_force_kill() {
    let mut s = running(8080, 5);
    assert_eq!(s.stop(), Action::Terminate { pid: 5 });
    assert_eq!(s.stop(), Action::ForceKill { pid: 5 });
    assert_eq!(s.handle(Event::TimedOut), Action::Unkillable { pid: 5 });
    assert!(matches!(s.status().state, BackendState::Stopping));
    assert_eq!(s.status().pid, Some(5));
    s.handle(exited(None));
    assert_eq!(s.last_stop(), Some(StopOutcome::ForceKilled));
}

#[test]
fn stray_process_is_killed() {
    let mut s = running(8080, 5);
    assert_eq!(s.handle(Event::Spawned { pid: 6 }), Action::ForceKill { pid: 6 });
    assert_eq!(s.status().pid, Some(5));
    let mut idle = Supervisor::new();
    assert_eq!(idle.handle(Event::Spawned { pid: 8 }), Action::ForceKill { pid: 8 });
    assert_eq!(idle.status().pid, None);
}

#[test]
fn events_without_a_process_change_nothing() {
    let mut s = Supervisor::new();
    assert_eq!(s.handle(Event::TimedOut), Action::Idle);
    assert_eq!(s.handle(exited(Some(0))), Action::Idle);
    assert_eq!(s.handle(Event::Probed { reachable: true }), Action::Idle);
    assert!(matches!(s.status().state, BackendState::Stopped));
}

#[test]
fn at_most_one_process_across_many_cycles() {
    let mut s = Supervisor::new();
    let mut launched: u32 = 0;
    let mut reaped: u32 = 0;
    for round in 0..5u32 {
        for _ in 0..2 {
            if s.start(8080).is_ok() {
                launched += 1;
            }
        }
        assert_eq!(launched - reaped, 1);
        assert!(s.is_active());
        s.handle(Event::Spawned { pid: round });
        s.handle(Event::Survived);
        s.handle(Event::Probed { reachable: true });
        assert!(s.status().is_running());
        s.stop();
        assert!(s.start(8080).is_err());
        if s.status().pid.is_some() {
            s.handle(exited(Some(0)));
            reaped += 1;
        }
        assert!(!s.is_active());
        assert_eq!(launched, reaped);
        assert_eq!(s.status().pid, None);
    }
    assert_eq!(launched, 5);
}

#[test]
fn probe_ignores_a_port_taken_before_launch() {
    assert!(matches!(Event::probe(false, true), Event::Probed { reachable: false }));
    assert!(matches!(Event::probe(true, true), Event::Probed { reachable: true }));
    assert!(matches!(Event::probe(true, false), Event::Probed { reachable: false }));
    let mut s = Supervisor::new();
    s.start(8080).unwrap();
    s.handle(Event::Spawned { pid: 20 });
    s.handle(Event::Survived);
    for _ in 0..10 {
        s.handle(Event::probe(false, true));
    }
    assert!(matches!(s.status().state, BackendState::Starting));
    assert_eq!(s.handle(Event::TimedOut), Action::ForceKill { pid: 20 });
}
