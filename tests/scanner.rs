use vortix::scanner::{
    interface_name, openvpn_pattern, openvpn_session, parse_ifconfig, parse_wg_show, wireguard_name_file,
    wireguard_session,
};
use vortix::{get_active_profiles, Protocol, VpnProfile};

const WG_SHOW: &str = "interface: utun4
  public key: SECRET-REDACTED
  private key: (hidden)
  listening port: 51820

peer: SECRET-REDACTED
  endpoint: 203.0.113.7:51820
  allowed ips: 0.0.0.0/0
  latest handshake: 1 minute, 2 seconds ago
  transfer: 10.50 MiB received, 1.25 MiB sent
";

const IFCONFIG: &str = "utun4: flags=8051<UP,POINTOPOINT,RUNNING,MULTICAST> mtu 1420
\tinet 10.64.0.2 --> 10.64.0.2 netmask 0xffffffff
";

#[test]
fn wg_show_fields() {
    let mut s = vortix::scanner::blank_session();
    parse_wg_show(WG_SHOW, &mut s);
    assert_eq!(s.public_key, "SECRET-REDACTED");
    assert_eq!(s.listen_port, "51820");
    assert_eq!(s.endpoint, "203.0.113.7:51820");
    assert_eq!(s.latest_handshake, "1 minute, 2 seconds ago");
    assert_eq!(s.transfer_rx, "10.50 MiB");
    assert_eq!(s.transfer_tx, "1.25 MiB");
    assert_eq!(s.internal_ip, "");
}

#[test]
fn wg_show_malformed_transfer_leaves_counters_blank() {
    let mut s = vortix::scanner::blank_session();
    parse_wg_show("transfer: garbage\n", &mut s);
    assert_eq!(s.transfer_rx, "");
    assert_eq!(s.transfer_tx, "");
}

#[test]
fn ifconfig_fields() {
    let mut s = vortix::scanner::blank_session();
    parse_ifconfig(IFCONFIG, &mut s);
    assert_eq!(s.internal_ip, "10.64.0.2");
    assert_eq!(s.mtu, "1420");
}

#[test]
fn wireguard_session_combines_dumps() {
    let s = wireguard_session(Some(1_700_000_000_000), Some(WG_SHOW), Some(IFCONFIG));
    assert_eq!(s.started_at, Some(1_700_000_000_000));
    assert_eq!(s.mtu, "1420");
    assert_eq!(s.transfer_rx, "10.50 MiB");
    let bare = wireguard_session(None, None, None);
    assert_eq!(bare.mtu, "");
    assert_eq!(bare.started_at, None);
}

#[test]
fn openvpn_session_is_marker_only() {
    let s = openvpn_session();
    assert_eq!(s.internal_ip, "OpenVPN (Active)");
    assert_eq!(s.endpoint, "");
    assert_eq!(s.started_at, None);
}

#[test]
fn probe_paths_and_patterns() {
    assert_eq!(wireguard_name_file(&"home".to_string()), "/var/run/wireguard/home.name");
    assert_eq!(openvpn_pattern(&"/p/x.ovpn".to_string()), "openvpn.*/p/x.ovpn");
    assert_eq!(interface_name(&"home".to_string(), Some("utun4\n")), "utun4");
    assert_eq!(interface_name(&"home".to_string(), None), "home");
}

#[test]
fn active_sessions_named_after_profiles() {
    let profiles = vec![
        VpnProfile { name: "a".to_string(), protocol: Protocol::WireGuard, location: String::new(), config_path: "/a".to_string() },
        VpnProfile { name: "b".to_string(), protocol: Protocol::OpenVPN, location: String::new(), config_path: "/b".to_string() },
        VpnProfile { name: "c".to_string(), protocol: Protocol::OpenVPN, location: String::new(), config_path: "/c".to_string() },
    ];
    let probes = vec![None, Some(openvpn_session()), Some(openvpn_session())];
    let active = get_active_profiles(&profiles, &probes);
    assert_eq!(active.len(), 2);
    assert_eq!(active[0].name, "b");
    assert_eq!(active[1].name, "c");
    assert!(get_active_profiles(&profiles, &Vec::new()).is_empty());
}
