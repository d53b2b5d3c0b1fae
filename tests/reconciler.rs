use vortix::reconciler::reconcile;
use vortix::{ActiveSession, Clock, ConnectionState, Protocol, VpnProfile};

fn profile(name: &str, protocol: Protocol, location: &str) -> VpnProfile {
    VpnProfile {
        name: name.to_string(),
        protocol,
        location: location.to_string(),
        config_path: format!("/etc/vpn/{name}.conf"),
    }
}

fn session(name: &str, started_at: Option<u64>, rx: &str) -> ActiveSession {
    ActiveSession {
        name: name.to_string(),
        started_at,
        internal_ip: "10.0.0.2".to_string(),
        endpoint: "203.0.113.5:51820".to_string(),
        mtu: "1420".to_string(),
        public_key: "SECRET-REDACTED".to_string(),
        listen_port: "51820".to_string(),
        transfer_rx: rx.to_string(),
        transfer_tx: "1.00 KiB".to_string(),
        latest_handshake: "5 seconds ago".to_string(),
    }
}

fn clock(mono_ms: u64, wall_ms: u64) -> Clock {
    Clock { mono_ms, wall_ms }
}

fn connected(profile: &str, since: u64) -> ConnectionState {
    let details = vortix::DetailedConnectionInfo::from_session(&session(profile, None, "0 B"));
    ConnectionState::Connected {
        since,
        profile: profile.to_string(),
        server_location: "Here".to_string(),
        latency_ms: 7,
        details: Box::new(details),
    }
}

#[test]
fn empty_scans_disconnect_once_with_one_line() {
    let profiles = vec![profile("home", Protocol::WireGuard, "Home")];
    let mut state = connected("home", 1_000);
    let mut start = Some(1_000);
    let none: Vec<ActiveSession> = Vec::new();
    let log = reconcile(&mut state, &mut start, &profiles, &none, clock(5_000, 50_000));
    assert_eq!(log, vec!["STATUS: Disconnected from 'home'".to_string()]);
    assert!(matches!(state, ConnectionState::Disconnected));
    assert_eq!(start, None);
    for t in 1..5u64 {
        let log = reconcile(&mut state, &mut start, &profiles, &none, clock(5_000 + t * 1_000, 50_000 + t * 1_000));
        assert!(log.is_empty());
        assert!(matches!(state, ConnectionState::Disconnected));
    }
}

#[test]
fn connecting_without_session_drops_with_one_line() {
    let profiles = vec![profile("home", Protocol::WireGuard, "Home")];
    let mut state = ConnectionState::Connecting { started: 10, profile: "home".to_string() };
    let mut start = None;
    let log = reconcile(&mut state, &mut start, &profiles, &Vec::new(), clock(20, 20));
    assert_eq!(log, vec!["STATUS: Disconnected from 'home'".to_string()]);
    assert!(matches!(state, ConnectionState::Disconnected));
    let log = reconcile(&mut state, &mut start, &profiles, &Vec::new(), clock(21, 21));
    assert!(log.is_empty());
}

#[test]
fn fresh_session_connects_with_synced_uptime() {
    let profiles = vec![profile("home", Protocol::WireGuard, "Home"), profile("work", Protocol::OpenVPN, "Office")];
    let mut state = ConnectionState::Disconnected;
    let mut start = None;
    let active = vec![session("work", Some(90_000), "3 KiB"), session("home", None, "1 KiB")];
    let log = reconcile(&mut state, &mut start, &profiles, &active, clock(200_000, 100_000));
    assert_eq!(
        log,
        vec![
            "STATUS: Connection established to 'work'".to_string(),
            "INFO: Synced uptime with system process.".to_string(),
            "INFO: Waiting for telemetry...".to_string(),
        ]
    );
    match &state {
        ConnectionState::Connected { since, profile, server_location, latency_ms, details } => {
            assert_eq!(*since, 190_000);
            assert_eq!(profile, "work");
            assert_eq!(server_location, "Office");
            assert_eq!(*latency_ms, 0);
            assert_eq!(details.transfer_rx, "3 KiB");
        }
        _ => panic!("expected a connected state"),
    }
    assert_eq!(start, Some(190_000));
}

#[test]
fn unknown_profile_gets_unknown_location() {
    let profiles = vec![profile("home", Protocol::WireGuard, "Home")];
    let mut state = ConnectionState::Disconnected;
    let mut start = Some(42);
    let log = reconcile(&mut state, &mut start, &profiles, &vec![session("stray", None, "0 B")], clock(100, 100));
    assert_eq!(log.len(), 2);
    match &state {
        ConnectionState::Connected { since, server_location, .. } => {
            assert_eq!(server_location, "Unknown");
            assert_eq!(*since, 42);
        }
        _ => panic!("expected a connected state"),
    }
}

#[test]
fn repeated_session_keeps_since_and_logs_nothing() {
    let profiles = vec![profile("home", Protocol::WireGuard, "Home")];
    let mut state = connected("home", 10_000);
    let mut start = Some(10_000);
    let s = session("home", Some(40_000), "9 MiB");
    for t in 0..3u64 {
        // local uptime 50 s + t, reported uptime 52 s + t: within tolerance
        let log = reconcile(&mut state, &mut start, &profiles, &vec![s.clone()], clock(60_000 + t * 1_000, 92_000 + t * 1_000));
        assert!(log.is_empty());
        match &state {
            ConnectionState::Connected { since, latency_ms, details, .. } => {
                assert_eq!(*since, 10_000);
                assert_eq!(*latency_ms, 7);
                assert_eq!(details.transfer_rx, "9 MiB");
            }
            _ => panic!("expected a connected state"),
        }
    }
    assert_eq!(start, Some(10_000));
}

#[test]
fn drift_beyond_five_seconds_resyncs_since() {
    let profiles = vec![profile("home", Protocol::WireGuard, "Home")];
    let mut state = connected("home", 10_000);
    let mut start = Some(10_000);
    // local uptime 50 s, reported uptime 56 s: drift 6 s
    let log = reconcile(&mut state, &mut start, &profiles, &vec![session("home", Some(40_000), "1")], clock(60_000, 96_000));
    assert!(log.is_empty());
    assert!(matches!(state, ConnectionState::Connected { since: 4_000, .. }));
    assert_eq!(start, Some(4_000));
    // exactly 5 s of drift is tolerated
    let mut state = connected("home", 10_000);
    let log = reconcile(&mut state, &mut start, &profiles, &vec![session("home", Some(40_000), "1")], clock(60_000, 95_000));
    assert!(log.is_empty());
    assert!(matches!(state, ConnectionState::Connected { since: 10_000, .. }));
}

#[test]
fn switch_to_other_profile_reconnects_fresh() {
    let profiles = vec![profile("a", Protocol::WireGuard, "A-town"), profile("b", Protocol::OpenVPN, "B-ville")];
    let mut state = connected("a", 1_000);
    let mut start = Some(1_000);
    let log = reconcile(&mut state, &mut start, &profiles, &vec![session("b", None, "0")], clock(9_000, 9_000));
    assert_eq!(log[0], "STATUS: Connection established to 'b'");
    assert!(matches!(&state, ConnectionState::Connected { profile, latency_ms: 0, .. } if profile == "b"));
}
