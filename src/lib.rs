//! Core of a terminal VPN dashboard: the connection state machine that
//! reconciles what the operating system reports about tunnels with what the
//! operator asked for, together with the parsers, samplers and formatters
//! that feed it.
//!
//! Everything here is pure: the caller runs commands, reads clocks and
//! hands the results in as plain values.

pub mod app;
pub mod lifecycle;
pub mod orchestrator;
pub mod quick_slots;
pub mod reconciler;
pub mod scanner;
pub mod telemetry;
pub mod text;
pub mod types;
pub mod utils;

pub use app::{App, FocusedPanel, Intent, Key, KeyPress, SecurityStatus, Toast};
pub use orchestrator::{Command, Plan, Preflight, RequiredTool};
pub use scanner::get_active_profiles;
pub use telemetry::{extract_json_string, NetworkStats, TelemetryUpdate};
pub use types::{ActiveSession, Clock, ConnectionState, DetailedConnectionInfo, InputMode, Protocol, VpnProfile};
pub use utils::{format_bytes_speed, format_duration, truncate};
