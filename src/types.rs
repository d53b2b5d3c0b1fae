//! Data model shared by the reconciler, the orchestrator and the scanner.
//!
//! Time is modelled as whole milliseconds: `mono` instants lie on the
//! process's monotonic timeline, `wall` instants on the system clock
//! (milliseconds since the Unix epoch).
use vstd::prelude::*;

verus! {

/// Clock readings taken once per tick.
#[derive(Clone, Copy, Debug)]
pub struct Clock {
    /// Monotonic time in milliseconds.
    pub mono_ms: u64,
    /// Wall-clock time in milliseconds since the Unix epoch.
    pub wall_ms: u64,
}

/// Tunnel implementation used by a profile.
#[derive(Clone, Copy, Debug, PartialEq, Eq, Structural)]
pub enum Protocol {
    /// `WireGuard`, brought up with `wg-quick`.
    WireGuard,
    /// `OpenVPN`, run as a daemon.
    OpenVPN,
}

/// Display name of a protocol.
pub open spec fn protocol_name(p: Protocol) -> Seq<char> {
    match p {
        Protocol::WireGuard => "WireGuard"@,
        Protocol::OpenVPN => "OpenVPN"@,
    }
}

impl Protocol {
    /// The protocol's display name.
    pub fn name(&self) -> (r: &'static str)
        ensures
            r@ == protocol_name(*self),
    {
        match self {
            Protocol::WireGuard => "WireGuard",
            Protocol::OpenVPN => "OpenVPN",
        }
    }
}

/// A saved tunnel configuration.
#[derive(Clone, Debug)]
pub struct VpnProfile {
    /// Display name; identifies the profile (uniqueness is not enforced).
    pub name: String,
    /// Tunnel implementation.
    pub protocol: Protocol,
    /// Location label shown to the operator.
    pub location: String,
    /// Path of the configuration file.
    pub config_path: String,
}

/// Mathematical value of a [`VpnProfile`].
pub ghost struct ProfileView {
    pub name: Seq<char>,
    pub protocol: Protocol,
    pub location: Seq<char>,
    pub config_path: Seq<char>,
}

impl View for VpnProfile {
    type V = ProfileView;

    open spec fn view(&self) -> ProfileView {
        ProfileView {
            name: self.name@,
            protocol: self.protocol,
            location: self.location@,
            config_path: self.config_path@,
        }
    }
}

/// The texts of a list of strings.
pub open spec fn texts(v: Seq<String>) -> Seq<Seq<char>> {
    v.map_values(|s: String| s@)
}

/// The values of a list of profiles.
pub open spec fn profiles_view(ps: Seq<VpnProfile>) -> Seq<ProfileView> {
    ps.map_values(|p: VpnProfile| p@)
}

/// One tunnel found active on the system during one scan.
///
/// Fields that could not be read are left empty.
#[derive(Clone, Debug)]
pub struct ActiveSession {
    /// Name of the profile the tunnel belongs to.
    pub name: String,
    /// Wall-clock start of the tunnel as reported by the system, if known.
    pub started_at: Option<u64>,
    pub internal_ip: String,
    pub endpoint: String,
    pub mtu: String,
    pub public_key: String,
    pub listen_port: String,
    pub transfer_rx: String,
    pub transfer_tx: String,
    pub latest_handshake: String,
}

impl ActiveSession {
    /// A field-by-field copy.
    pub fn copied(&self) -> (r: Self)
        ensures
            r@ == self@,
    {
        ActiveSession {
            name: self.name.clone(),
            started_at: self.started_at,
            internal_ip: self.internal_ip.clone(),
            endpoint: self.endpoint.clone(),
            mtu: self.mtu.clone(),
            public_key: self.public_key.clone(),
            listen_port: self.listen_port.clone(),
            transfer_rx: self.transfer_rx.clone(),
            transfer_tx: self.transfer_tx.clone(),
            latest_handshake: self.latest_handshake.clone(),
        }
    }
}

/// Mathematical value of an [`ActiveSession`].
pub ghost struct SessionView {
    pub name: Seq<char>,
    pub started_at: Option<u64>,
    pub details: DetailsView,
}

impl View for ActiveSession {
    type V = SessionView;

    open spec fn view(&self) -> SessionView {
        SessionView {
            name: self.name@,
            started_at: self.started_at,
            details: DetailsView {
                internal_ip: self.internal_ip@,
                endpoint: self.endpoint@,
                mtu: self.mtu@,
                public_key: self.public_key@,
                listen_port: self.listen_port@,
                transfer_rx: self.transfer_rx@,
                transfer_tx: self.transfer_tx@,
                latest_handshake: self.latest_handshake@,
            },
        }
    }
}

/// Snapshot of the tunnel details kept while a profile stays connected.
#[derive(Clone, Debug)]
pub struct DetailedConnectionInfo {
    pub internal_ip: String,
    pub endpoint: String,
    pub mtu: String,
    pub public_key: String,
    pub listen_port: String,
    pub transfer_rx: String,
    pub transfer_tx: String,
    pub latest_handshake: String,
}

/// Mathematical value of a [`DetailedConnectionInfo`].
pub ghost struct DetailsView {
    pub internal_ip: Seq<char>,
    pub endpoint: Seq<char>,
    pub mtu: Seq<char>,
    pub public_key: Seq<char>,
    pub listen_port: Seq<char>,
    pub transfer_rx: Seq<char>,
    pub transfer_tx: Seq<char>,
    pub latest_handshake: Seq<char>,
}

impl View for DetailedConnectionInfo {
    type V = DetailsView;

    open spec fn view(&self) -> DetailsView {
        DetailsView {
            internal_ip: self.internal_ip@,
            endpoint: self.endpoint@,
            mtu: self.mtu@,
            public_key: self.public_key@,
            listen_port: self.listen_port@,
            transfer_rx: self.transfer_rx@,
            transfer_tx: self.transfer_tx@,
            latest_handshake: self.latest_handshake@,
        }
    }
}

impl DetailedConnectionInfo {
    /// A fresh snapshot of a session's details.
    pub fn from_session(s: &ActiveSession) -> (r: Self)
        ensures
            r@ == s@.details,
    {
        DetailedConnectionInfo {
            internal_ip: s.internal_ip.clone(),
            endpoint: s.endpoint.clone(),
            mtu: s.mtu.clone(),
            public_key: s.public_key.clone(),
            listen_port: s.listen_port.clone(),
            transfer_rx: s.transfer_rx.clone(),
            transfer_tx: s.transfer_tx.clone(),
            latest_handshake: s.latest_handshake.clone(),
        }
    }
}

/// Connection state of the dashboard.
///
/// Only the reconciler produces `Connected` and `Disconnected`; only the
/// orchestrator produces `Connecting`.
#[derive(Debug)]
pub enum ConnectionState {
    /// No tunnel is up.
    Disconnected,
    /// A bring-up was requested and is not yet observed.
    Connecting {
        /// Monotonic instant of the request.
        started: u64,
        /// Profile being brought up.
        profile: String,
    },
    /// A tunnel was observed up.
    Connected {
        /// Monotonic instant the tunnel came up.
        since: u64,
        /// Connected profile.
        profile: String,
        /// Location label of the profile.
        server_location: String,
        /// Latest latency figure.
        latency_ms: u64,
        /// Tunnel details, updated in place each tick.
        details: Box<DetailedConnectionInfo>,
    },
}

/// Mathematical value of a [`ConnectionState`].
pub ghost enum StateView {
    Disconnected,
    Connecting { started: u64, profile: Seq<char> },
    Connected {
        since: u64,
        profile: Seq<char>,
        location: Seq<char>,
        latency_ms: u64,
        details: DetailsView,
    },
}

impl View for ConnectionState {
    type V = StateView;

    open spec fn view(&self) -> StateView {
        match self {
            ConnectionState::Disconnected => StateView::Disconnected,
            ConnectionState::Connecting { started, profile } => StateView::Connecting {
                started: *started,
                profile: profile@,
            },
            ConnectionState::Connected { since, profile, server_location, latency_ms, details } =>
                StateView::Connected {
                since: *since,
                profile: profile@,
                location: server_location@,
                latency_ms: *latency_ms,
                details: details@,
            },
        }
    }
}

} // verus!

verus! {

/// What the keyboard currently drives.
#[derive(Debug)]
pub enum InputMode {
    /// Dashboard navigation.
    Normal,
    /// The profile picker is open.
    ProfileModal,
    /// A file path for an import is being typed.
    Import { path: String },
    /// Blocking dialog: tools that the protocol needs are missing.
    DependencyError { protocol: Protocol, missing: Vec<String> },
    /// Blocking dialog: the process lacks the rights for an action.
    PermissionDenied { action: String },
    /// Asking to confirm the deletion of a profile.
    ConfirmDelete { index: usize, name: String },
}

/// Mathematical value of an [`InputMode`].
pub ghost enum ModeView {
    Normal,
    ProfileModal,
    Import { path: Seq<char> },
    DependencyError { protocol: Protocol, missing: Seq<Seq<char>> },
    PermissionDenied { action: Seq<char> },
    ConfirmDelete { index: usize, name: Seq<char> },
}

impl View for InputMode {
    type V = ModeView;

    open spec fn view(&self) -> ModeView {
        match self {
            InputMode::Normal => ModeView::Normal,
            InputMode::ProfileModal => ModeView::ProfileModal,
            InputMode::Import { path } => ModeView::Import { path: path@ },
            InputMode::DependencyError { protocol, missing } => ModeView::DependencyError {
                protocol: *protocol,
                missing: texts(missing@),
            },
            InputMode::PermissionDenied { action } => ModeView::PermissionDenied {
                action: action@,
            },
            InputMode::ConfirmDelete { index, name } => ModeView::ConfirmDelete {
                index: *index,
                name: name@,
            },
        }
    }
}

/// A copy of a list of strings.
pub fn copy_texts(v: &Vec<String>) -> (r: Vec<String>)
    ensures
        texts(r@) == texts(v@),
{
    let mut r: Vec<String> = Vec::new();
    let mut i: usize = 0;
    while i < v.len()
        invariant
            i <= v.len(),
            texts(r@) == texts(v@.subrange(0, i as int)),
        decreases v.len() - i,
    {
        r.push(v[i].clone());
        assert(texts(v@.subrange(0, i + 1)) =~= texts(v@.subrange(0, i as int)).push(v@[i as int]@));
        i = i + 1;
    }
    assert(v@.subrange(0, v.len() as int) =~= v@);
    r
}

} // verus!
