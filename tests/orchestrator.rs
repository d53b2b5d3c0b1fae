use vortix::orchestrator::{plan_toggle, required_tools};
use vortix::{App, Clock, Command, ConnectionState, InputMode, Preflight, Protocol, VpnProfile};

fn profile(name: &str, protocol: Protocol) -> VpnProfile {
    VpnProfile {
        name: name.to_string(),
        protocol,
        location: "Somewhere".to_string(),
        config_path: format!("/profiles/{name}.conf"),
    }
}

fn ready() -> Preflight {
    Preflight { is_root: true, missing_wireguard: Vec::new(), missing_openvpn: Vec::new() }
}

const NOW: Clock = Clock { mono_ms: 5_000, wall_ms: 1_700_000_000_000 };

fn connected(name: &str) -> ConnectionState {
    let s = vortix::scanner::blank_session();
    ConnectionState::Connected {
        since: 1,
        profile: name.to_string(),
        server_location: String::new(),
        latency_ms: 0,
        details: Box::new(vortix::DetailedConnectionInfo::from_session(&s)),
    }
}

#[test]
fn switch_tears_down_before_bringing_up() {
    let profiles = vec![profile("a", Protocol::WireGuard), profile("b", Protocol::OpenVPN)];
    let plan = plan_toggle(&connected("a"), &profiles, 1, &ready(), NOW);
    assert_eq!(plan.commands.len(), 2);
    assert!(matches!(&plan.commands[0], Command::TearDown { protocol: Protocol::WireGuard, config_path } if config_path == "/profiles/a.conf"));
    assert!(matches!(&plan.commands[1], Command::BringUp { protocol: Protocol::OpenVPN, config_path } if config_path == "/profiles/b.conf"));
    assert!(matches!(&plan.next_state, Some(ConnectionState::Connecting { started: 5_000, profile }) if profile == "b"));
}

#[test]
fn toggle_connected_profile_only_disconnects() {
    let profiles = vec![profile("a", Protocol::WireGuard)];
    let plan = plan_toggle(&connected("a"), &profiles, 0, &ready(), NOW);
    assert_eq!(plan.commands.len(), 1);
    assert!(matches!(plan.commands[0], Command::TearDown { .. }));
    assert!(plan.next_state.is_none());
}

#[test]
fn toggle_while_connecting_is_ignored_with_notice() {
    let profiles = vec![profile("a", Protocol::WireGuard)];
    let state = ConnectionState::Connecting { started: 1, profile: "a".to_string() };
    let plan = plan_toggle(&state, &profiles, 0, &ready(), NOW);
    assert!(plan.commands.is_empty());
    assert!(plan.next_state.is_none());
    assert_eq!(plan.notice.as_deref(), Some("Connection in progress..."));
}

#[test]
fn missing_tools_open_dependency_dialog() {
    let profiles = vec![profile("a", Protocol::WireGuard)];
    let pre = Preflight { is_root: true, missing_wireguard: vec!["wg-quick".to_string()], missing_openvpn: Vec::new() };
    let plan = plan_toggle(&ConnectionState::Disconnected, &profiles, 0, &pre, NOW);
    assert!(plan.commands.is_empty());
    assert!(plan.next_state.is_none());
    assert!(matches!(&plan.modal, Some(InputMode::DependencyError { protocol: Protocol::WireGuard, missing }) if missing == &vec!["wg-quick".to_string()]));
}

#[test]
fn missing_rights_open_permission_dialog() {
    let profiles = vec![profile("a", Protocol::OpenVPN)];
    let pre = Preflight { is_root: false, missing_wireguard: vec!["wg".to_string()], missing_openvpn: Vec::new() };
    let plan = plan_toggle(&ConnectionState::Disconnected, &profiles, 0, &pre, NOW);
    assert!(plan.commands.is_empty());
    assert!(matches!(&plan.modal, Some(InputMode::PermissionDenied { action }) if action == "Manage OpenVPN"));
}

#[test]
fn toggle_out_of_range_does_nothing() {
    let plan = plan_toggle(&ConnectionState::Disconnected, &Vec::new(), 3, &ready(), NOW);
    assert!(plan.commands.is_empty() && plan.next_state.is_none() && plan.modal.is_none() && plan.notice.is_none());
}

#[test]
fn command_lines() {
    let up = Command::BringUp { protocol: Protocol::WireGuard, config_path: "/p/a.conf".to_string() };
    assert_eq!(up.argv(), vec!["wg-quick", "up", "/p/a.conf"]);
    let up = Command::BringUp { protocol: Protocol::OpenVPN, config_path: "/p/b.ovpn".to_string() };
    assert_eq!(up.argv(), vec!["openvpn", "--config", "/p/b.ovpn", "--daemon"]);
    let down = Command::TearDown { protocol: Protocol::OpenVPN, config_path: "/p/b.ovpn".to_string() };
    assert_eq!(down.argv(), vec!["pkill", "openvpn"]);
    let down = Command::TearDown { protocol: Protocol::WireGuard, config_path: "/p/a.conf".to_string() };
    assert_eq!(down.argv(), vec!["wg-quick", "down", "/p/a.conf"]);
}

#[test]
fn tools_per_protocol() {
    let wg = required_tools(Protocol::WireGuard);
    assert_eq!(wg.len(), 2);
    assert_eq!((wg[1].program.as_str(), wg[1].package.as_str()), ("wg", "wireguard-tools"));
    assert_eq!(required_tools(Protocol::OpenVPN)[0].program, "openvpn");
}

#[test]
fn end_to_end_connect_then_observe() {
    let profiles = vec![profile("A", Protocol::WireGuard), profile("B", Protocol::OpenVPN)];
    let mut app = App::new(profiles, true, "1.0.0", "10:00:00");
    let commands = app.toggle_connection(0, &ready(), Clock { mono_ms: 1_000, wall_ms: 1_000_000 }, "10:00:00");
    assert_eq!(commands.len(), 1);
    assert!(matches!(&commands[0], Command::BringUp { protocol: Protocol::WireGuard, config_path } if config_path == "/profiles/A.conf"));
    assert!(matches!(&app.connection_state, ConnectionState::Connecting { profile, .. } if profile == "A"));

    let mut s = vortix::scanner::blank_session();
    s.name = "A".to_string();
    s.transfer_rx = "1 KiB".to_string();
    let logs_before = app.logs.len();
    app.update_connection_state(&vec![s.clone()], Clock { mono_ms: 2_000, wall_ms: 1_001_000 }, "10:00:01");
    assert!(matches!(&app.connection_state, ConnectionState::Connected { profile, since: 2_000, latency_ms: 0, .. } if profile == "A"));
    let established = app.logs[logs_before..].iter().filter(|l| l.contains("Connection established")).count();
    assert_eq!(established, 1);
    assert_eq!(app.logs[logs_before], "10:00:01 STATUS: Connection established to 'A'");

    let logs_after = app.logs.len();
    for (t, rx) in [(3_000u64, "2 KiB"), (4_000, "5 KiB")] {
        s.transfer_rx = rx.to_string();
        app.update_connection_state(&vec![s.clone()], Clock { mono_ms: t, wall_ms: 999_000 + t }, "10:00:02");
        match &app.connection_state {
            ConnectionState::Connected { since, details, .. } => {
                assert_eq!(*since, 2_000);
                assert_eq!(details.transfer_rx, rx);
            }
            _ => panic!("expected a connected state"),
        }
    }
    assert_eq!(app.logs.len(), logs_after);
}
