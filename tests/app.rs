use vortix::quick_slots::{assign_free_slot, initial_slots, remove_from_slots};
use vortix::{App, Clock, ConnectionState, FocusedPanel, InputMode, Intent, Key, KeyPress, Protocol, TelemetryUpdate, VpnProfile};

fn profile(name: &str) -> VpnProfile {
    VpnProfile {
        name: name.to_string(),
        protocol: Protocol::WireGuard,
        location: "L".to_string(),
        config_path: format!("/p/{name}.conf"),
    }
}

fn press(key: Key) -> KeyPress {
    KeyPress { key, ctrl: false }
}

const NOW: Clock = Clock { mono_ms: 10_000, wall_ms: 20_000 };

#[test]
fn slot_removal_clears_and_shifts() {
    let mut slots = [Some(0), Some(2), Some(3), None, Some(1)];
    remove_from_slots(&mut slots, 2);
    assert_eq!(slots, [Some(0), None, Some(2), None, Some(1)]);
}

#[test]
fn slots_fill_first_profiles() {
    assert_eq!(initial_slots(3), [Some(0), Some(1), Some(2), None, None]);
    assert_eq!(initial_slots(9), [Some(0), Some(1), Some(2), Some(3), Some(4)]);
    let mut slots = [Some(0), None, Some(2), None, None];
    assign_free_slot(&mut slots, 7);
    assert_eq!(slots, [Some(0), Some(7), Some(2), None, None]);
    let mut full = [Some(0); 5];
    assign_free_slot(&mut full, 9);
    assert_eq!(full, [Some(0); 5]);
}

#[test]
fn new_app_boot_state() {
    let app = App::new(vec![profile("a"), profile("b")], false, "0.9.0", "12:00:00");
    assert_eq!(app.logs[0], "12:00:00 INIT: VORTIX v0.9.0 starting...");
    assert_eq!(app.logs.len(), 3);
    assert_eq!(app.selected, Some(0));
    assert_eq!(app.quick_slots, [Some(0), Some(1), None, None, None]);
    assert_eq!(app.down_history.len(), 60);
    assert!(matches!(app.connection_state, ConnectionState::Disconnected));
}

#[test]
fn delete_flow_adjusts_slots_and_selection() {
    let mut app = App::new(vec![profile("a"), profile("b"), profile("c")], true, "1", "t");
    app.selected = Some(2);
    app.handle_key(press(Key::Char('x')), NOW, "t");
    assert!(matches!(&app.input_mode, InputMode::ConfirmDelete { index: 2, name } if name == "c"));
    let intent = app.handle_key(press(Key::Char('y')), NOW, "t");
    assert!(matches!(intent, Some(Intent::RemoveFile(p)) if p == "/p/c.conf"));
    assert_eq!(app.profiles.len(), 2);
    assert_eq!(app.selected, Some(1));
    assert_eq!(app.quick_slots, [Some(0), Some(1), None, None, None]);
    assert!(matches!(app.input_mode, InputMode::Normal));
}

#[test]
fn connected_profile_cannot_be_deleted() {
    let mut app = App::new(vec![profile("a")], true, "1", "t");
    let mut s = vortix::scanner::blank_session();
    s.name = "a".to_string();
    app.update_connection_state(&vec![s], NOW, "t");
    app.request_delete(0, "t", NOW);
    assert!(matches!(app.input_mode, InputMode::Normal));
    assert_eq!(app.toast.as_ref().map(|t| t.message.as_str()), Some("Cannot delete active profile"));
}

#[test]
fn keys_yield_intents() {
    let mut app = App::new(vec![profile("a"), profile("b")], true, "1", "t");
    assert!(matches!(app.handle_key(press(Key::Char('2')), NOW, "t"), Some(Intent::Toggle(1))));
    assert!(matches!(app.handle_key(press(Key::Enter), NOW, "t"), Some(Intent::Toggle(0))));
    assert!(matches!(app.handle_key(press(Key::Char('d')), NOW, "t"), Some(Intent::Disconnect)));
    assert!(matches!(app.handle_key(press(Key::Char('r')), NOW, "t"), Some(Intent::Reconnect)));
    assert!(app.handle_key(press(Key::Char('5')), NOW, "t").is_none());
    app.handle_key(press(Key::Tab), NOW, "t");
    assert_eq!(app.focused_panel, FocusedPanel::Logs);
    app.handle_key(press(Key::Char('q')), NOW, "t");
    assert!(app.should_quit);
}

#[test]
fn import_dialog_collects_path() {
    let mut app = App::new(Vec::new(), true, "1", "t");
    app.handle_key(press(Key::Char('i')), NOW, "t");
    for c in "~/x.confz".chars() {
        app.handle_key(press(Key::Char(c)), NOW, "t");
    }
    app.handle_key(press(Key::Backspace), NOW, "t");
    let intent = app.handle_key(press(Key::Enter), NOW, "t");
    assert!(matches!(intent, Some(Intent::Import(p)) if p == "~/x.conf"));
    assert!(matches!(app.input_mode, InputMode::Normal));
    app.add_profile(profile("x"), "t", NOW);
    assert_eq!(app.quick_slots[0], Some(0));
    assert_eq!(app.toast.as_ref().map(|t| t.message.as_str()), Some("Imported: x"));
}

#[test]
fn tick_takes_telemetry_and_rolls_history() {
    let mut app = App::new(vec![profile("a")], true, "1", "t");
    let netstat = "Name Mtu Network Address Ipkts Ierrs Ibytes Opkts Oerrs Obytes\nen0 1500 x y 1 0 1000 1 0 200\n";
    let updates = vec![TelemetryUpdate::Latency(33), TelemetryUpdate::PublicIp("1.2.3.4".to_string())];
    app.on_tick(&Vec::new(), updates, Some(netstat), NOW, "t");
    assert_eq!(app.latency_ms, 33);
    assert_eq!(app.public_ip, "1.2.3.4");
    assert_eq!(app.current_down, 0);
    let netstat2 = "Name Mtu Network Address Ipkts Ierrs Ibytes Opkts Oerrs Obytes\nen0 1500 x y 1 0 1600 1 0 250\n";
    app.on_tick(&Vec::new(), Vec::new(), Some(netstat2), NOW, "t");
    assert_eq!((app.current_down, app.current_up), (600, 50));
    assert_eq!(app.down_history.len(), 60);
    assert_eq!(app.down_history[59], 600);
    assert_eq!(app.down_history[58], 0);
}

#[test]
fn toast_expires_after_three_seconds() {
    let mut app = App::new(Vec::new(), true, "1", "t");
    app.import_failed("bad file", "t", NOW);
    assert_eq!(app.toast.as_ref().map(|t| t.expires), Some(13_000));
    app.on_tick(&Vec::new(), Vec::new(), None, Clock { mono_ms: 13_000, wall_ms: 0 }, "t");
    assert!(app.toast.is_some());
    app.on_tick(&Vec::new(), Vec::new(), None, Clock { mono_ms: 13_001, wall_ms: 0 }, "t");
    assert!(app.toast.is_none());
}

#[test]
fn blocking_dialog_waits_for_escape() {
    let mut app = App::new(vec![profile("a")], false, "1", "t");
    let pre = vortix::Preflight { is_root: false, missing_wireguard: Vec::new(), missing_openvpn: Vec::new() };
    let commands = app.toggle_connection(0, &pre, NOW, "t");
    assert!(commands.is_empty());
    assert!(matches!(&app.input_mode, InputMode::PermissionDenied { action } if action == "Manage WireGuard"));
    app.handle_key(press(Key::Char('q')), NOW, "t");
    assert!(!app.should_quit);
    app.handle_key(press(Key::Esc), NOW, "t");
    assert!(matches!(app.input_mode, InputMode::Normal));
}

#[test]
fn failed_import_shows_and_logs_error_only() {
    let mut app = App::new(vec![profile("a")], true, "1", "t");
    let slots = app.quick_slots;
    let logs = app.logs.len();
    app.import_failed("not a profile", "09:00:00", NOW);
    assert_eq!(app.toast.as_ref().map(|t| t.message.as_str()), Some("Error: not a profile"));
    assert_eq!(app.logs.len(), logs + 1);
    assert_eq!(app.logs[logs], "09:00:00 Error: not a profile");
    assert_eq!(app.profiles.len(), 1);
    assert_eq!(app.quick_slots, slots);
}

#[test]
fn failed_teardown_reports_disconnect_error() {
    let mut app = App::new(vec![profile("a")], true, "1", "t");
    let c = vortix::Command::TearDown { protocol: Protocol::WireGuard, config_path: "/p/a.conf".to_string() };
    app.command_failed(&c, "no such file", "t", NOW);
    assert_eq!(app.toast.as_ref().map(|t| t.message.as_str()), Some("Disconnect Error: no such file"));
    assert_eq!(app.logs.last().map(String::as_str), Some("t Disconnect Error: no such file"));
    assert!(matches!(app.connection_state, ConnectionState::Disconnected));
}

#[test]
fn toggle_while_connecting_notices_and_logs() {
    let mut app = App::new(vec![profile("a")], true, "1", "t");
    app.connection_state = ConnectionState::Connecting { started: 1, profile: "a".to_string() };
    let pre = vortix::Preflight { is_root: true, missing_wireguard: Vec::new(), missing_openvpn: Vec::new() };
    let commands = app.toggle_connection(0, &pre, NOW, "t");
    assert!(commands.is_empty());
    assert_eq!(app.toast.as_ref().map(|t| t.message.as_str()), Some("Connection in progress..."));
    assert_eq!(app.logs.last().map(String::as_str), Some("t Connection in progress..."));
    assert!(matches!(app.input_mode, InputMode::Normal));
    assert!(matches!(app.connection_state, ConnectionState::Connecting { .. }));
}

#[test]
fn tick_keeps_last_update_of_each_kind_and_baseline_without_table() {
    let mut app = App::new(Vec::new(), true, "1", "t");
    let updates = vec![
        TelemetryUpdate::Dns("1.1.1.1".to_string()),
        TelemetryUpdate::Ipv6Leak(true),
        TelemetryUpdate::Dns("9.9.9.9".to_string()),
        TelemetryUpdate::Isp("Example".to_string()),
    ];
    app.on_tick(&Vec::new(), updates, None, NOW, "t");
    assert_eq!(app.dns_server, "9.9.9.9");
    assert!(app.ipv6_leak);
    assert_eq!(app.isp, "Example");
    assert!(!app.network_stats.has_baseline);
    assert_eq!((app.current_down, app.current_up), (0, 0));
}

#[test]
fn tick_drop_logs_once_over_many_ticks() {
    let mut app = App::new(vec![profile("a")], true, "1", "t");
    let mut s = vortix::scanner::blank_session();
    s.name = "a".to_string();
    app.on_tick(&vec![s], Vec::new(), None, NOW, "t");
    let logs = app.logs.len();
    for k in 0..4u64 {
        app.on_tick(&Vec::new(), Vec::new(), None, Clock { mono_ms: 11_000 + k, wall_ms: 21_000 + k }, "t");
    }
    assert_eq!(app.logs.len(), logs + 1);
    assert_eq!(app.logs[logs], "t STATUS: Disconnected from 'a'");
}

#[test]
fn out_of_range_delete_changes_nothing() {
    let mut app = App::new(vec![profile("a")], true, "1", "t");
    let logs = app.logs.clone();
    assert!(app.confirm_delete(5, "t", NOW).is_none());
    assert_eq!(app.profiles.len(), 1);
    assert_eq!(app.logs, logs);
    assert!(app.toast.is_none());
    assert_eq!(app.selected, Some(0));
}
