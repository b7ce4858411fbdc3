use iot_device::{
    ConnectivityState, LinkFaultPolicy, LoopAction, Supervisor, SupervisorAction, SupervisorEvent,
    TelemetryLoop, LINK_RETRY_MS, SESSION_RESTART_MS,
};

const INVALID_STATE: i32 = 0x103;
const TRANSIENT: i32 = 0x3001;

#[test]
fn link_fails_three_times_then_succeeds() {
    let mut s = Supervisor::new(LinkFaultPolicy::single(INVALID_STATE));
    assert_eq!(s.state(), ConnectivityState::Idle);
    assert_eq!(s.step(SupervisorEvent::Started), SupervisorAction::ConnectLink);
    let mut waited: u64 = 0;
    for _ in 0..3 {
        let a = s.step(SupervisorEvent::LinkFailed { code: TRANSIENT });
        assert_eq!(a, SupervisorAction::Wait { millis: 5000 });
        if let SupervisorAction::Wait { millis } = a {
            waited += millis;
        }
        assert_eq!(s.state(), ConnectivityState::Idle);
        assert_eq!(s.step(SupervisorEvent::WaitElapsed), SupervisorAction::ConnectLink);
    }
    assert_eq!(waited, 15000);
    assert_eq!(s.step(SupervisorEvent::LinkConnected), SupervisorAction::ConnectSession);
    assert_eq!(s.state(), ConnectivityState::LinkUp);
    assert_eq!(s.step(SupervisorEvent::SessionConnected), SupervisorAction::RunSession);
    assert_eq!(s.state(), ConnectivityState::SessionEstablished);
}

#[test]
fn fatal_link_code_restarts_device() {
    let mut s = Supervisor::new(LinkFaultPolicy::single(INVALID_STATE));
    s.step(SupervisorEvent::Started);
    assert_eq!(s.step(SupervisorEvent::LinkFailed { code: INVALID_STATE }), SupervisorAction::RestartDevice);
    assert_eq!(s.state(), ConnectivityState::Faulted);
    assert_eq!(s.step(SupervisorEvent::WaitElapsed), SupervisorAction::RestartDevice);
}

#[test]
fn policy_with_several_fatal_codes() {
    let p = LinkFaultPolicy::new(vec![1, -7, 259]);
    assert!(p.is_fatal(-7));
    assert!(p.is_fatal(259));
    assert!(!p.is_fatal(0));
    assert!(!LinkFaultPolicy::new(Vec::new()).is_fatal(259));
    assert!(LinkFaultPolicy::single(5).is_fatal(5));
    assert!(!LinkFaultPolicy::single(5).is_fatal(6));
}

#[test]
fn session_failure_waits_then_restarts_cycle() {
    let mut s = Supervisor::new(LinkFaultPolicy::single(INVALID_STATE));
    s.step(SupervisorEvent::Started);
    s.step(SupervisorEvent::LinkConnected);
    assert_eq!(s.step(SupervisorEvent::SessionFailed), SupervisorAction::Wait { millis: SESSION_RESTART_MS });
    assert_eq!(s.step(SupervisorEvent::WaitElapsed), SupervisorAction::ConnectLink);
    assert!(SESSION_RESTART_MS < LINK_RETRY_MS);
}

#[test]
fn transient_failures_always_lead_to_new_link_attempt() {
    let mut s = Supervisor::new(LinkFaultPolicy::single(INVALID_STATE));
    s.step(SupervisorEvent::Started);
    let failures = [
        SupervisorEvent::LinkFailed { code: TRANSIENT },
        SupervisorEvent::SessionFailed,
        SupervisorEvent::SessionEnded,
        SupervisorEvent::LinkFailed { code: -1 },
        SupervisorEvent::LinkFailed { code: 0 },
    ];
    for round in 0..50 {
        let f = failures[round % failures.len()];
        match s.step(f) {
            SupervisorAction::Wait { millis } => assert!(millis <= 5000),
            other => panic!("unexpected {other:?}"),
        }
        assert_eq!(s.step(SupervisorEvent::WaitElapsed), SupervisorAction::ConnectLink);
    }
}

#[test]
fn disconnect_ends_session_and_supervisor_reconnects() {
    let mut s = Supervisor::new(LinkFaultPolicy::single(INVALID_STATE));
    assert_eq!(s.step(SupervisorEvent::Started), SupervisorAction::ConnectLink);
    assert_eq!(s.step(SupervisorEvent::LinkConnected), SupervisorAction::ConnectSession);
    assert_eq!(s.step(SupervisorEvent::SessionConnected), SupervisorAction::RunSession);

    // session starts at 0 ms; the listener raises the signal at 4000 ms
    let mut l = TelemetryLoop::new();
    let mut clock: u64 = 0;
    loop {
        match l.step(true, clock >= 4000) {
            LoopAction::Wait { millis } => clock += millis,
            LoopAction::Exit => break,
            _ => {}
        }
        assert!(clock <= 10000);
    }
    assert!(clock <= 6000);
    assert_eq!(l.state(), ConnectivityState::Faulted);

    let a = s.step(SupervisorEvent::SessionEnded);
    assert_eq!(a, SupervisorAction::Wait { millis: 3000 });
    assert_eq!(s.step(SupervisorEvent::WaitElapsed), SupervisorAction::ConnectLink);
}
