use connectivity_supervisor::gate::{GatePhase, GateStep, LinkReadinessGate, NetworkLease, POLL_INTERVAL_MS};
use connectivity_supervisor::supervisor::{Action, ConnectionState, Event, Supervisor, RECONNECT_COOLDOWN_MS};

fn connected_supervisor() -> Supervisor {
    let mut s = Supervisor::new();
    assert_eq!(s.step(Event::Resume), Action::QueryStarted);
    assert_eq!(s.step(Event::StartedQueried { started: true }), Action::Connect);
    assert_eq!(s.step(Event::ConnectFinished { ok: true }), Action::AwaitDisconnect);
    assert_eq!(s.state(), ConnectionState::Connected);
    s
}

#[test]
fn fresh_supervisor_is_idle() {
    let s = Supervisor::new();
    assert_eq!(s.state(), ConnectionState::Idle);
    assert_eq!(s.cooldown_ms, 0);
    assert!(!s.is_halted());
}

#[test]
fn cold_start_connects_and_gate_releases() {
    let mut s = Supervisor::new();
    assert_eq!(s.step(Event::Resume), Action::QueryStarted);
    assert_eq!(s.state(), ConnectionState::Starting);
    assert_eq!(s.step(Event::StartedQueried { started: false }), Action::ConfigureAndStart);
    assert_eq!(s.state(), ConnectionState::Starting);
    assert_eq!(s.step(Event::RadioStarted { ok: true }), Action::Scan { show_hidden: true });
    assert_eq!(s.state(), ConnectionState::Scanning);
    assert_eq!(s.step(Event::ScanFinished { ok: true }), Action::Connect);
    assert_eq!(s.state(), ConnectionState::Connecting);
    assert_eq!(s.step(Event::ConnectFinished { ok: true }), Action::AwaitDisconnect);
    assert_eq!(s.state(), ConnectionState::Connected);

    let lease = NetworkLease { address: 0xc0a8_0117, prefix_len: 24, gateway: Some(0xc0a8_0101) };
    let mut gate = LinkReadinessGate::new();
    assert_eq!(gate.poll(false, None), GateStep::Wait { ms: POLL_INTERVAL_MS });
    assert_eq!(gate.phase(), GatePhase::AwaitingLink);
    assert_eq!(gate.poll(true, None), GateStep::Wait { ms: POLL_INTERVAL_MS });
    assert_eq!(gate.phase(), GatePhase::AwaitingAddress);
    assert_eq!(gate.poll(true, Some(lease)), GateStep::Ready { lease });
    assert!(gate.is_ready());
}

#[test]
fn two_failed_attempts_then_connected() {
    let mut s = Supervisor::new();
    let mut connects = 0;
    let mut cooldowns = 0;
    let mut action = s.step(Event::Resume);
    let mut failures_left = 2;
    for _ in 0..20 {
        let event = match action {
            Action::QueryStarted => Event::StartedQueried { started: true },
            Action::Connect => {
                connects += 1;
                if failures_left > 0 {
                    failures_left -= 1;
                    Event::ConnectFinished { ok: false }
                } else {
                    Event::ConnectFinished { ok: true }
                }
            }
            Action::Sleep { ms } => {
                assert_eq!(ms, RECONNECT_COOLDOWN_MS);
                cooldowns += 1;
                Event::Slept { elapsed_ms: ms }
            }
            Action::AwaitDisconnect => break,
            other => panic!("unexpected action {:?}", other),
        };
        action = s.step(event);
    }
    assert_eq!(connects, 3);
    assert_eq!(cooldowns, 2);
    assert_eq!(s.state(), ConnectionState::Connected);
}

#[test]
fn failed_attempt_returns_to_idle_with_cooldown() {
    let mut s = Supervisor::new();
    s.step(Event::Resume);
    s.step(Event::StartedQueried { started: true });
    assert_eq!(s.step(Event::ConnectFinished { ok: false }), Action::Sleep { ms: 5000 });
    assert_eq!(s.state(), ConnectionState::Idle);
    assert_eq!(s.cooldown_ms, 5000);
}

#[test]
fn disconnect_waits_cooldown_then_starts_over() {
    let mut s = connected_supervisor();
    assert_eq!(s.step(Event::Disconnected), Action::Sleep { ms: 5000 });
    assert_eq!(s.state(), ConnectionState::Idle);
    assert_eq!(s.step(Event::Slept { elapsed_ms: 2000 }), Action::Sleep { ms: 3000 });
    assert_eq!(s.step(Event::Resume), Action::Sleep { ms: 3000 });
    assert_eq!(s.step(Event::StartedQueried { started: false }), Action::Sleep { ms: 3000 });
    assert_eq!(s.state(), ConnectionState::Idle);
    assert_eq!(s.step(Event::Slept { elapsed_ms: 3000 }), Action::QueryStarted);
    assert_eq!(s.state(), ConnectionState::Starting);
    assert_eq!(s.step(Event::StartedQueried { started: false }), Action::ConfigureAndStart);
    assert_eq!(s.step(Event::RadioStarted { ok: true }), Action::Scan { show_hidden: true });
    assert_eq!(s.step(Event::ScanFinished { ok: false }), Action::Connect);
    assert_eq!(s.step(Event::ConnectFinished { ok: true }), Action::AwaitDisconnect);
    assert_eq!(s.state(), ConnectionState::Connected);
}

#[test]
fn oversleeping_clears_the_cooldown() {
    let mut s = connected_supervisor();
    s.step(Event::Disconnected);
    assert_eq!(s.step(Event::Slept { elapsed_ms: 7000 }), Action::QueryStarted);
    assert_eq!(s.cooldown_ms, 0);
}

#[test]
fn start_failure_halts_for_good() {
    let mut s = Supervisor::new();
    s.step(Event::Resume);
    s.step(Event::StartedQueried { started: false });
    assert_eq!(s.step(Event::RadioStarted { ok: false }), Action::Halt);
    assert!(s.is_halted());
    assert_eq!(s.step(Event::Resume), Action::Halt);
    assert_eq!(s.step(Event::ConnectFinished { ok: true }), Action::Halt);
    assert_eq!(s.state(), ConnectionState::Starting);
}

#[test]
fn stray_events_are_ignored() {
    let mut s = connected_supervisor();
    assert_eq!(s.step(Event::ScanFinished { ok: true }), Action::AwaitDisconnect);
    assert_eq!(s.step(Event::ConnectFinished { ok: false }), Action::AwaitDisconnect);
    assert_eq!(s.state(), ConnectionState::Connected);
    let mut fresh = Supervisor::new();
    assert_eq!(fresh.step(Event::Disconnected), Action::QueryStarted);
    assert_eq!(fresh.state(), ConnectionState::Starting);
}

#[test]
fn scan_failure_does_not_block_connect() {
    let mut s = Supervisor::new();
    s.step(Event::Resume);
    s.step(Event::StartedQueried { started: false });
    s.step(Event::RadioStarted { ok: true });
    assert_eq!(s.step(Event::ScanFinished { ok: false }), Action::Connect);
    assert_eq!(s.state(), ConnectionState::Connecting);
}

fn allowed(from: ConnectionState, to: ConnectionState, e: Event) -> bool {
    type S = ConnectionState;
    from == to
        || matches!(
            (from, to),
            (S::Idle, S::Starting)
                | (S::Starting, S::Scanning)
                | (S::Starting, S::Connecting)
                | (S::Scanning, S::Connecting)
                | (S::Connecting, S::Connected)
                | (S::Connected, S::Idle)
        )
        || (from == S::Connecting && to == S::Idle && e == Event::ConnectFinished { ok: false })
}

#[test]
fn every_event_sequence_follows_the_lifecycle() {
    let events = [
        Event::Resume,
        Event::StartedQueried { started: false },
        Event::StartedQueried { started: true },
        Event::RadioStarted { ok: true },
        Event::ScanFinished { ok: true },
        Event::ConnectFinished { ok: true },
        Event::ConnectFinished { ok: false },
        Event::Disconnected,
        Event::Slept { elapsed_ms: 5000 },
    ];
    let n = events.len();
    let mut total = 0usize;
    for code in 0..n.pow(6) {
        let mut s = Supervisor::new();
        let mut c = code;
        for _ in 0..6 {
            let e = events[c % n];
            c /= n;
            let before = s.state();
            s.step(e);
            assert!(allowed(before, s.state(), e), "{:?} -> {:?} on {:?}", before, s.state(), e);
            total += 1;
        }
    }
    assert_eq!(total, 6 * n.pow(6));
}
