use vortix::telemetry::{address_updates, dns_server, latency_field, parse_interface_totals};
use vortix::{extract_json_string, NetworkStats, TelemetryUpdate};

const NETSTAT: &str = "Name  Mtu   Network       Address            Ipkts Ierrs     Ibytes    Opkts Oerrs     Obytes  Coll
lo0   16384 <Link#1>                        100     0      5000      100     0       5000     0
en0   1500  <Link#4>    aa:bb:cc:dd:ee:ff  2000     0   3000000     1500     0     400000     0
";

#[test]
fn test_extract_json_string_ip() {
    let json = r#"{"ip": "1.2.3.4", "org": "Test ISP"}"#;
    assert_eq!(extract_json_string(json, "ip"), Some("1.2.3.4".to_string()));
}

#[test]
fn test_extract_json_string_org() {
    let json = r#"{"ip": "1.2.3.4", "org": "AS12345 Test Company"}"#;
    assert_eq!(
        extract_json_string(json, "org"),
        Some("AS12345 Test Company".to_string())
    );
}

#[test]
fn test_extract_json_string_missing_key() {
    let json = r#"{"ip": "1.2.3.4"}"#;
    assert_eq!(extract_json_string(json, "org"), None);
}

#[test]
fn test_extract_json_string_with_whitespace() {
    let json = r#"{"ip":   "1.2.3.4"}"#;
    assert_eq!(extract_json_string(json, "ip"), Some("1.2.3.4".to_string()));
}

#[test]
fn test_extract_json_string_empty() {
    let json = r#"{}"#;
    assert_eq!(extract_json_string(json, "ip"), None);
}

#[test]
fn test_network_stats_new() {
    let stats = NetworkStats::new();
    assert_eq!(stats.last_bytes_in, 0);
    assert_eq!(stats.last_bytes_out, 0);
}

#[test]
fn test_network_stats_initial_update() {
    let mut stats = NetworkStats::new();
    let (down, up) = stats.update(NETSTAT);
    // First update should return 0 (no previous baseline)
    assert_eq!(down, 0);
    assert_eq!(up, 0);
}

#[test]
fn extract_json_string_unquoted_value_is_none() {
    assert_eq!(extract_json_string(r#"{"port": 8080}"#, "port"), None);
}

#[test]
fn address_updates_in_order() {
    let updates = address_updates(r#"{"ip": "9.8.7.6", "org": "Example Net"}"#);
    assert_eq!(updates.len(), 2);
    assert!(matches!(&updates[0], TelemetryUpdate::PublicIp(ip) if ip == "9.8.7.6"));
    assert!(matches!(&updates[1], TelemetryUpdate::Isp(org) if org == "Example Net"));
    assert!(address_updates("not json").is_empty());
}

#[test]
fn latency_field_from_ping_reply() {
    let out = "PING 1.1.1.1 (1.1.1.1): 56 data bytes\n64 bytes from 1.1.1.1: icmp_seq=0 ttl=57 time=12.345 ms\n";
    assert_eq!(latency_field(out), Some("12.345".to_string()));
    assert_eq!(latency_field("Request timeout for icmp_seq 0\n"), None);
    assert_eq!(latency_field("time=5 without unit"), None);
}

#[test]
fn dns_server_from_first_nameserver_line() {
    let out = "nameserver 192.168.1.1\nnameserver 8.8.8.8\n";
    assert_eq!(dns_server(out), Some("192.168.1.1".to_string()));
    assert_eq!(dns_server("nameserver   \n"), None);
    assert_eq!(dns_server(""), None);
}

#[test]
fn interface_totals_skip_header_and_loopback() {
    assert_eq!(parse_interface_totals(NETSTAT), (3_000_000, 400_000));
    assert_eq!(parse_interface_totals(""), (0, 0));
    let bad = "header\nen1 1500 a b 1 0 notanumber 1 0 10 0\n";
    assert_eq!(parse_interface_totals(bad), (0, 0));
}

#[test]
fn sampler_reports_increase_then_clamps_reset() {
    let mut stats = NetworkStats::new();
    assert_eq!(stats.sample(1_000_000, 500_000), (0, 0));
    assert_eq!(stats.sample(1_002_500, 500_100), (2_500, 100));
    assert_eq!(stats.sample(10, 20), (0, 0));
    assert_eq!(stats.sample(15, 20), (5, 0));
}

#[test]
fn sampler_first_reading_of_zero_counts_as_baseline() {
    let mut stats = NetworkStats::new();
    assert_eq!(stats.sample(0, 0), (0, 0));
    assert_eq!(stats.sample(700, 300), (700, 300));
}
