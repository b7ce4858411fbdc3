use iot_device::{ConnectivityState, LoopAction, LoopPhase, TelemetryLoop, SUBSCRIBE_RETRY_MS, TELEMETRY_PERIOD_MS};

/// Runs a loop against a simulated clock: waits advance the clock, other
/// actions take no time. The signal is read as raised from `signal_at_ms` on.
/// `publish_ok` and `subscribe_ok` give the outcome of the n-th attempt.
fn simulate(
    signal_at_ms: u64,
    max_steps: usize,
    publish_ok: &dyn Fn(usize) -> bool,
    subscribe_ok: &dyn Fn(usize) -> bool,
) -> (Vec<(u64, LoopAction)>, u64) {
    let mut l = TelemetryLoop::new();
    let mut clock: u64 = 0;
    let mut ok = true;
    let mut publishes = 0;
    let mut subscribes = 0;
    let mut log = Vec::new();
    for _ in 0..max_steps {
        let a = l.step(ok, clock >= signal_at_ms);
        log.push((clock, a));
        match a {
            LoopAction::Wait { millis } => {
                clock += millis;
                ok = true;
            }
            LoopAction::Exit => break,
            LoopAction::PublishTelemetry => {
                ok = publish_ok(publishes);
                publishes += 1;
            }
            LoopAction::Subscribe => {
                ok = subscribe_ok(subscribes);
                subscribes += 1;
            }
            LoopAction::ReportStatus { .. } => ok = true,
        }
    }
    (log, clock)
}

fn actions(log: &[(u64, LoopAction)]) -> Vec<LoopAction> {
    log.iter().map(|(_, a)| *a).collect()
}

#[test]
fn clean_start_reports_connected_once_before_first_publish() {
    let (log, _) = simulate(u64::MAX, 20, &|_| true, &|_| true);
    let acts = actions(&log);
    let first_pub = acts.iter().position(|a| *a == LoopAction::PublishTelemetry).unwrap();
    let before = &acts[..first_pub];
    assert_eq!(before.iter().filter(|a| **a == LoopAction::ReportStatus { connected: true }).count(), 1);
    assert_eq!(before.iter().filter(|a| **a == LoopAction::ReportStatus { connected: false }).count(), 0);
    assert_eq!(acts[0], LoopAction::ReportStatus { connected: true });
    assert_eq!(acts[1], LoopAction::Subscribe);
    assert_eq!(acts[2], LoopAction::PublishTelemetry);
    assert_eq!(acts[3], LoopAction::Wait { millis: 2000 });
}

#[test]
fn publish_fails_once_then_succeeds() {
    let (log, _) = simulate(u64::MAX, 40, &|n| n != 1, &|_| true);
    let acts = actions(&log);
    let disconnected = acts.iter().filter(|a| **a == LoopAction::ReportStatus { connected: false }).count();
    assert_eq!(disconnected, 1);
    // the failure is the second publish; the record follows it at once,
    // then the period's sleep, then the next pass publishes again
    let pubs: Vec<usize> = acts
        .iter()
        .enumerate()
        .filter(|(_, a)| **a == LoopAction::PublishTelemetry)
        .map(|(i, _)| i)
        .collect();
    assert!(pubs.len() >= 4);
    let failed = pubs[1];
    assert_eq!(acts[failed + 1], LoopAction::ReportStatus { connected: false });
    assert_eq!(acts[failed + 2], LoopAction::Wait { millis: TELEMETRY_PERIOD_MS });
    assert_eq!(acts[failed + 3], LoopAction::Subscribe);
    assert_eq!(acts[failed + 4], LoopAction::PublishTelemetry);
    assert!(!acts.contains(&LoopAction::Exit));
}

#[test]
fn publish_failure_degrades_and_recovers_state() {
    let mut l = TelemetryLoop::new();
    assert_eq!(l.state(), ConnectivityState::SessionEstablished);
    assert_eq!(l.phase(), LoopPhase::Entry);
    l.step(true, false);
    l.step(true, false);
    assert_eq!(l.step(true, false), LoopAction::PublishTelemetry);
    assert_eq!(l.step(false, false), LoopAction::ReportStatus { connected: false });
    assert_eq!(l.state(), ConnectivityState::Degraded);
    assert_eq!(l.step(false, false), LoopAction::Wait { millis: 2000 });
    assert_eq!(l.step(true, false), LoopAction::Subscribe);
    assert_eq!(l.step(true, false), LoopAction::PublishTelemetry);
    assert_eq!(l.step(true, false), LoopAction::Wait { millis: 2000 });
    assert_eq!(l.state(), ConnectivityState::SessionEstablished);
}

#[test]
fn disconnect_after_four_seconds_ends_loop_by_third_cycle() {
    for signal_at in [4000u64, 4001, 3999, 5999] {
        let (log, clock) = simulate(signal_at, 100, &|_| true, &|_| true);
        assert_eq!(log.last().unwrap().1, LoopAction::Exit);
        assert!(clock <= 6000, "ended at {clock}");
        // nothing is sent once the signal is up
        for (t, a) in &log {
            if *t >= signal_at {
                assert_eq!(*a, LoopAction::Exit);
            }
        }
    }
}

#[test]
fn raised_signal_exits_from_every_phase_and_stays_finished() {
    for warmup in 0..8 {
        let mut l = TelemetryLoop::new();
        for i in 0..warmup {
            l.step(i % 3 != 2, false);
        }
        assert_eq!(l.step(true, true), LoopAction::Exit);
        assert!(l.is_finished());
        assert_eq!(l.state(), ConnectivityState::Faulted);
        assert_eq!(l.step(true, false), LoopAction::Exit);
        assert_eq!(l.step(false, false), LoopAction::Exit);
    }
}

#[test]
fn subscribe_failure_retries_in_same_pass() {
    let (log, _) = simulate(u64::MAX, 12, &|_| true, &|n| n >= 3);
    let acts = actions(&log);
    assert_eq!(
        &acts[..9],
        &[
            LoopAction::ReportStatus { connected: true },
            LoopAction::Subscribe,
            LoopAction::Wait { millis: SUBSCRIBE_RETRY_MS },
            LoopAction::Subscribe,
            LoopAction::Wait { millis: 500 },
            LoopAction::Subscribe,
            LoopAction::Wait { millis: 500 },
            LoopAction::Subscribe,
            LoopAction::PublishTelemetry,
        ]
    );
    // a subscribe failure sends no status record
    assert!(!acts.contains(&LoopAction::ReportStatus { connected: false }));
}

#[test]
fn repeated_subscribe_changes_nothing() {
    let (log, _) = simulate(u64::MAX, 30, &|_| true, &|_| true);
    let acts = actions(&log);
    let passes: Vec<&[LoopAction]> = acts[1..].chunks(3).filter(|c| c.len() == 3).collect();
    assert!(passes.len() >= 5);
    for p in passes {
        assert_eq!(p, &[LoopAction::Subscribe, LoopAction::PublishTelemetry, LoopAction::Wait { millis: 2000 }]);
    }
}
