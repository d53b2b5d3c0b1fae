//! The dashboard's state and the handling of ticks and keys.
//!
//! Every outside fact (scan results, telemetry, clock readings, preflight
//! results, interface counters) is handed in by the caller; every outside
//! effect (tunnel commands, file removal, imports) is handed back as a
//! value for the caller to perform.
use vstd::prelude::*;
use vstd::string::*;
use crate::orchestrator::{
    PlanView,
    plan_reconnect, plan_toggle, reconnect_spec, teardown_command, teardown_for, toggle_spec,
    commands_view, Command, Plan, Preflight,
};
use crate::quick_slots::{
    assign_free_slot, initial_slots, remove_from_slots, slot_after_removal, with_free_slot,
};
use crate::reconciler::{first_session, reconcile, reconcile_step};
use crate::telemetry::{
    interface_totals, sample_result, sampled, updates_view, NetworkStats, TelemetryUpdate, UpdateView,
};
use crate::types::{profiles_view, texts, ActiveSession, Clock, ConnectionState, InputMode, VpnProfile};

verus! {

/// How long a notice stays on screen, in milliseconds.
pub const TOAST_MS: u64 = 3000;

/// Most log lines kept by [`App::add_log`].
pub const LOG_CAPACITY: usize = 1000;

/// Number of samples in each throughput history.
pub const HISTORY_LEN: usize = 60;

/// Panel that receives navigation keys.
#[derive(Clone, Copy, Debug, PartialEq, Eq, Structural)]
pub enum FocusedPanel {
    Sidebar,
    Logs,
}

/// A notice shown for a short while.
#[derive(Debug)]
pub struct Toast {
    pub message: String,
    /// Monotonic instant after which the notice is dropped.
    pub expires: u64,
}

/// When the leak test was last requested.
#[derive(Debug)]
pub struct SecurityStatus {
    pub last_check: Option<u64>,
}

/// A key, as far as the dashboard tells keys apart.
#[derive(Clone, Copy, Debug, PartialEq, Eq, Structural)]
pub enum Key {
    Char(char),
    Enter,
    Esc,
    Backspace,
    Tab,
    BackTab,
    Up,
    Down,
    Delete,
    Other,
}

/// A key press, with whether Control was held.
#[derive(Clone, Copy, Debug)]
pub struct KeyPress {
    pub key: Key,
    pub ctrl: bool,
}

/// Work a key asks of the caller, which holds what it needs: the preflight
/// results, the files, the tunnel tools.
#[derive(Debug)]
pub enum Intent {
    /// Toggle the profile at this index ([`App::toggle_connection`]).
    Toggle(usize),
    /// Tear the connected tunnel down ([`App::disconnect`]).
    Disconnect,
    /// Reconnect the connected profile ([`App::reconnect`]).
    Reconnect,
    /// Import a profile from this path.
    Import(String),
    /// Remove this configuration file of a deleted profile.
    RemoveFile(String),
}

/// `h` with its oldest sample dropped and `x` appended.
pub open spec fn rolled(h: Seq<u64>, x: u64) -> Seq<u64> {
    if h.len() == 0 {
        seq![x]
    } else {
        h.drop_first().push(x)
    }
}

fn roll(h: &mut Vec<u64>, x: u64)
    ensures
        final(h)@ == rolled(old(h)@, x),
{
    if h.len() > 0 {
        h.remove(0);
    }
    h.push(x);
    assert(final(h)@ =~= rolled(old(h)@, x));
}

/// When a notice shown now expires.
pub open spec fn expiry(clock: Clock) -> u64 {
    if clock.mono_ms <= u64::MAX - TOAST_MS {
        (clock.mono_ms + TOAST_MS) as u64
    } else {
        u64::MAX
    }
}

/// A log line: the time stamp, a space, the message.
pub open spec fn log_line(stamp: Seq<char>, message: Seq<char>) -> Seq<char> {
    stamp + seq![' '] + message
}

fn stamped(stamp: &str, message: &str) -> (r: String)
    ensures
        r@ == log_line(stamp@, message@),
{
    let mut r = String::from_str(stamp);
    r.append(" ");
    proof {
        reveal_strlit(" ");
    }
    r.append(message);
    r
}

/// `logs` with `line` appended, dropping the oldest line beyond the
/// capacity.
pub open spec fn logged(logs: Seq<Seq<char>>, line: Seq<char>) -> Seq<Seq<char>> {
    if logs.len() + 1 > LOG_CAPACITY {
        logs.push(line).drop_first()
    } else {
        logs.push(line)
    }
}

/// `after` is `before` with the notice `message` shown at `clock` and
/// logged with `stamp`; nothing else changed.
pub open spec fn notice_shown(before: App, after: App, message: Seq<char>, stamp: Seq<char>, clock: Clock) -> bool {
    &&& after.toast is Some
    &&& after.toast->Some_0.message@ == message
    &&& after.toast->Some_0.expires == expiry(clock)
    &&& texts(after.logs@) == logged(texts(before.logs@), log_line(stamp, message))
    &&& after == (App { logs: after.logs, logs_scroll: after.logs_scroll, toast: after.toast, ..before })
}

/// `after` is `before` with the plan `p` carried out: its state entered,
/// its dialog opened, its notice shown and logged (each if any); nothing
/// else changed.
pub open spec fn plan_applied(before: App, after: App, p: PlanView, stamp: Seq<char>, clock: Clock) -> bool {
    &&& after.connection_state@ == match p.next_state {
        Some(s) => s,
        None => before.connection_state@,
    }
    &&& match p.next_state {
        Some(_) => true,
        None => after.connection_state == before.connection_state,
    }
    &&& match p.modal {
        Some(m) => after.input_mode@ == m,
        None => after.input_mode == before.input_mode,
    }
    &&& match p.notice {
        Some(n) => {
            &&& after.toast is Some
            &&& after.toast->Some_0.message@ == n
            &&& after.toast->Some_0.expires == expiry(clock)
            &&& texts(after.logs@) == logged(texts(before.logs@), log_line(stamp, n))
        },
        None => after.toast == before.toast && after.logs == before.logs && after.logs_scroll
            == before.logs_scroll,
    }
    &&& after == (App {
        connection_state: after.connection_state,
        input_mode: after.input_mode,
        toast: after.toast,
        logs: after.logs,
        logs_scroll: after.logs_scroll,
        ..before
    })
}

/// The telemetry figures the dashboard shows.
pub ghost struct TelemetryView {
    pub public_ip: Seq<char>,
    pub latency_ms: u64,
    pub isp: Seq<char>,
    pub dns_server: Seq<char>,
    pub ipv6_leak: bool,
}

/// The telemetry figures of a dashboard state.
pub open spec fn telemetry_of(a: App) -> TelemetryView {
    TelemetryView {
        public_ip: a.public_ip@,
        latency_ms: a.latency_ms,
        isp: a.isp@,
        dns_server: a.dns_server@,
        ipv6_leak: a.ipv6_leak,
    }
}

/// Figures after one update: the field of its kind takes its value.
pub open spec fn with_update(t: TelemetryView, u: UpdateView) -> TelemetryView {
    match u {
        UpdateView::PublicIp(v) => TelemetryView { public_ip: v, ..t },
        UpdateView::Latency(v) => TelemetryView { latency_ms: v, ..t },
        UpdateView::Isp(v) => TelemetryView { isp: v, ..t },
        UpdateView::Dns(v) => TelemetryView { dns_server: v, ..t },
        UpdateView::Ipv6Leak(v) => TelemetryView { ipv6_leak: v, ..t },
    }
}

/// Figures after updates taken in order: each field holds the last update
/// of its kind, or its old value when there is none.
pub open spec fn with_updates(t: TelemetryView, us: Seq<UpdateView>) -> TelemetryView
    decreases us.len(),
{
    if us.len() == 0 {
        t
    } else {
        with_update(with_updates(t, us.drop_last()), us.last())
    }
}

/// Whether `r` asks to toggle the profile at `i`.
pub open spec fn toggles(r: Option<Intent>, i: usize) -> bool {
    match r {
        Some(Intent::Toggle(j)) => j == i,
        _ => false,
    }
}

/// Whether `r` is the toggle a quick slot holding `slot` asks for: none
/// for an empty slot.
pub open spec fn slot_toggle(r: Option<Intent>, slot: Option<usize>) -> bool {
    match slot {
        Some(i) => toggles(r, i),
        None => r is None,
    }
}

/// The quick slot a key reaches: keys `1` to `5`.
pub open spec fn slot_of_key(k: Key) -> Option<int> {
    if k == Key::Char('1') {
        Some(0)
    } else if k == Key::Char('2') {
        Some(1)
    } else if k == Key::Char('3') {
        Some(2)
    } else if k == Key::Char('4') {
        Some(3)
    } else if k == Key::Char('5') {
        Some(4)
    } else {
        None
    }
}

/// The dashboard's state.
#[derive(Debug)]
pub struct App {
    pub should_quit: bool,
    pub connection_state: ConnectionState,
    pub profiles: Vec<VpnProfile>,
    /// Quick slots: profile indices reached by the keys `1` to `5`.
    pub quick_slots: [Option<usize>; 5],
    /// Start of the current session, remembered across ticks.
    pub session_start: Option<u64>,
    pub security: SecurityStatus,
    /// Received bytes per tick, oldest first.
    pub down_history: Vec<u64>,
    /// Transmitted bytes per tick, oldest first.
    pub up_history: Vec<u64>,
    pub current_down: u64,
    pub current_up: u64,
    pub latency_ms: u64,
    pub isp: String,
    pub dns_server: String,
    pub ipv6_leak: bool,
    pub handshake: String,
    pub cipher: String,
    pub public_ip: String,
    pub logs: Vec<String>,
    pub logs_scroll: u16,
    pub logs_auto_scroll: bool,
    pub focused_panel: FocusedPanel,
    pub input_mode: InputMode,
    pub show_help: bool,
    /// Selected row of the profile list.
    pub selected: Option<usize>,
    pub toast: Option<Toast>,
    pub terminal_size: (u16, u16),
    pub is_root: bool,
    pub network_stats: NetworkStats,
}

impl App {
    /// A dashboard over the loaded profiles: the first profiles fill the
    /// quick slots, the first row is selected, and three start-up lines are
    /// logged.
    pub fn new(profiles: Vec<VpnProfile>, is_root: bool, version: &str, stamp: &str) -> (r: App)
        ensures
            r.connection_state@ == crate::types::StateView::Disconnected,
            r.profiles@ == profiles@,
            forall|k: int| 0 <= k < 5 ==> r.quick_slots@[k] == if k < profiles.len() {
                Some(k as usize)
            } else {
                None::<usize>
            },
            r.selected == if profiles.len() > 0 { Some(0usize) } else { None::<usize> },
            r.session_start is None,
            r.is_root == is_root,
            r.down_history@ == Seq::new(HISTORY_LEN as nat, |i: int| 0u64),
            r.up_history@ == Seq::new(HISTORY_LEN as nat, |i: int| 0u64),
            texts(r.logs@) == seq![
                log_line(stamp@, "INIT: VORTIX v"@ + version@ + " starting..."@),
                log_line(stamp@, "IO: Initializing VPN backend..."@),
                log_line(stamp@, "SUCCESS: System active. Press [?] for help."@),
            ],
    {
        let n = profiles.len();
        let mut down: Vec<u64> = Vec::new();
        let mut up: Vec<u64> = Vec::new();
        let mut i: usize = 0;
        while i < HISTORY_LEN
            invariant
                i <= HISTORY_LEN,
                down@ == Seq::new(i as nat, |j: int| 0u64),
                up@ == Seq::new(i as nat, |j: int| 0u64),
            decreases HISTORY_LEN - i,
        {
            down.push(0);
            up.push(0);
            assert(down@ =~= Seq::new((i + 1) as nat, |j: int| 0u64));
            assert(up@ =~= Seq::new((i + 1) as nat, |j: int| 0u64));
            i = i + 1;
        }
        let mut app = App {
            should_quit: false,
            connection_state: ConnectionState::Disconnected,
            profiles,
            quick_slots: initial_slots(n),
            session_start: None,
            security: SecurityStatus { last_check: None },
            down_history: down,
            up_history: up,
            current_down: 0,
            current_up: 0,
            latency_ms: 0,
            isp: String::from_str("Detecting..."),
            dns_server: String::from_str("---"),
            ipv6_leak: false,
            handshake: String::new(),
            cipher: String::from_str("ChaCha20Poly1305"),
            public_ip: String::from_str("Fetching..."),
            logs: Vec::new(),
            logs_scroll: 0,
            logs_auto_scroll: true,
            focused_panel: FocusedPanel::Sidebar,
            input_mode: InputMode::Normal,
            show_help: false,
            selected: if n > 0 { Some(0) } else { None },
            toast: None,
            terminal_size: (80, 24),
            is_root,
            network_stats: NetworkStats::new(),
        };
        let mut init = String::from_str("INIT: VORTIX v");
        init.append(version);
        init.append(" starting...");
        app.log(stamp, init.as_str());
        app.log(stamp, "IO: Initializing VPN backend...");
        app.log(stamp, "SUCCESS: System active. Press [?] for help.");
        assert(texts(app.logs@) =~= seq![
            log_line(stamp@, "INIT: VORTIX v"@ + version@ + " starting..."@),
            log_line(stamp@, "IO: Initializing VPN backend..."@),
            log_line(stamp@, "SUCCESS: System active. Press [?] for help."@),
        ]);
        app
    }

    /// Appends a stamped line to the log, following it when auto-scroll is
    /// on.
    pub fn log(&mut self, stamp: &str, message: &str)
        ensures
            texts(final(self).logs@) == texts(old(self).logs@).push(log_line(stamp@, message@)),
            *final(self) == (App {
                logs: final(self).logs,
                logs_scroll: final(self).logs_scroll,
                ..*old(self)
            }),
    {
        let line = stamped(stamp, message);
        let ghost before = self.logs@;
        self.logs.push(line);
        assert(texts(self.logs@) =~= texts(before).push(log_line(stamp@, message@)));
        if self.logs_auto_scroll {
            self.logs_scroll = (self.logs.len() - 1) as u16;
        }
    }

    /// Appends a stamped line to the log, dropping the oldest line beyond
    /// the capacity.
    pub fn add_log(&mut self, stamp: &str, message: &str)
        ensures
            texts(final(self).logs@) == logged(texts(old(self).logs@), log_line(stamp@, message@)),
            *final(self) == (App {
                logs: final(self).logs,
                logs_scroll: final(self).logs_scroll,
                ..*old(self)
            }),
    {
        let line = stamped(stamp, message);
        let ghost before = self.logs@;
        self.logs.push(line);
        if self.logs.len() > LOG_CAPACITY {
            self.logs.remove(0);
            assert(texts(self.logs@) =~= texts(before).push(log_line(stamp@, message@)).drop_first());
        } else {
            assert(texts(self.logs@) =~= texts(before).push(log_line(stamp@, message@)));
        }
        if self.logs_auto_scroll {
            self.logs_scroll = (self.logs.len() - 1) as u16;
        }
    }

    /// Shows a notice for a few seconds and logs it.
    pub fn show_toast(&mut self, message: String, stamp: &str, clock: Clock)
        ensures
            notice_shown(*old(self), *final(self), message@, stamp@, clock),
    {
        self.add_log(stamp, message.as_str());
        let expires = if clock.mono_ms <= u64::MAX - TOAST_MS {
            clock.mono_ms + TOAST_MS
        } else {
            u64::MAX
        };
        self.toast = Some(Toast { message, expires });
    }

    /// Reconciles the connection state with a scan's sessions and logs
    /// what the tick reports.
    pub fn update_connection_state(&mut self, active: &Vec<ActiveSession>, clock: Clock, stamp: &str)
        ensures
            ({
                let r = reconcile_step(
                    old(self).connection_state@,
                    old(self).session_start,
                    profiles_view(old(self).profiles@),
                    first_session(active@),
                    clock,
                );
                &&& final(self).connection_state@ == r.state
                &&& final(self).session_start == r.session_start
                &&& texts(final(self).logs@) == texts(old(self).logs@) + r.log.map_values(
                    |m: Seq<char>| log_line(stamp@, m),
                )
            }),
            *final(self) == (App {
                logs: final(self).logs,
                logs_scroll: final(self).logs_scroll,
                connection_state: final(self).connection_state,
                session_start: final(self).session_start,
                ..*old(self)
            }),
    {
        let log = reconcile(
            &mut self.connection_state,
            &mut self.session_start,
            &self.profiles,
            active,
            clock,
        );
        let ghost start = texts(self.logs@);
        let ghost mid = *self;
        let mut i: usize = 0;
        while i < log.len()
            invariant
                i <= log.len(),
                texts(self.logs@) == start + texts(log@).subrange(0, i as int).map_values(
                    |m: Seq<char>| log_line(stamp@, m),
                ),
                *self == (App { logs: self.logs, logs_scroll: self.logs_scroll, ..mid }),
            decreases log.len() - i,
        {
            let ghost before = texts(self.logs@);
            self.log(stamp, log[i].as_str());
            assert(texts(log@).subrange(0, i + 1).map_values(|m: Seq<char>| log_line(stamp@, m))
                =~= texts(log@).subrange(0, i as int).map_values(|m: Seq<char>| log_line(stamp@, m)).push(
                log_line(stamp@, log@[i as int]@),
            ));
            assert(texts(self.logs@) =~= start + texts(log@).subrange(0, i + 1).map_values(
                |m: Seq<char>| log_line(stamp@, m),
            ));
            i = i + 1;
        }
        assert(texts(log@).subrange(0, i as int) =~= texts(log@));
    }

    /// Takes in one telemetry update.
    pub fn apply_telemetry(&mut self, update: TelemetryUpdate)
        ensures
            telemetry_of(*final(self)) == with_update(telemetry_of(*old(self)), update@),
            *final(self) == (App {
                public_ip: final(self).public_ip,
                latency_ms: final(self).latency_ms,
                isp: final(self).isp,
                dns_server: final(self).dns_server,
                ipv6_leak: final(self).ipv6_leak,
                ..*old(self)
            }),
    {
        match update {
            TelemetryUpdate::PublicIp(ip) => self.public_ip = ip,
            TelemetryUpdate::Latency(ms) => self.latency_ms = ms,
            TelemetryUpdate::Isp(isp) => self.isp = isp,
            TelemetryUpdate::Dns(dns) => self.dns_server = dns,
            TelemetryUpdate::Ipv6Leak(leak) => self.ipv6_leak = leak,
        }
    }

    /// Records this tick's throughput and rolls the histories.
    pub fn record_throughput(&mut self, down: u64, up: u64)
        ensures
            final(self).current_down == down && final(self).current_up == up,
            final(self).down_history@ == rolled(old(self).down_history@, down),
            final(self).up_history@ == rolled(old(self).up_history@, up),
            *final(self) == (App {
                current_down: final(self).current_down,
                current_up: final(self).current_up,
                down_history: final(self).down_history,
                up_history: final(self).up_history,
                ..*old(self)
            }),
    {
        self.current_down = down;
        self.current_up = up;
        roll(&mut self.down_history, down);
        roll(&mut self.up_history, up);
    }

    /// One tick: reconcile with the scan, take in the pending telemetry,
    /// drop an expired notice, sample the interface table (when it could be
    /// read) and roll the throughput histories.
    pub fn on_tick(
        &mut self,
        active: &Vec<ActiveSession>,
        updates: Vec<TelemetryUpdate>,
        netstat_output: Option<&str>,
        clock: Clock,
        stamp: &str,
    )
        ensures
            ({
                let r = reconcile_step(
                    old(self).connection_state@,
                    old(self).session_start,
                    profiles_view(old(self).profiles@),
                    first_session(active@),
                    clock,
                );
                &&& final(self).connection_state@ == r.state
                &&& final(self).session_start == r.session_start
            }),
            final(self).profiles == old(self).profiles,
            ({
                let (down, up) = match netstat_output {
                    Some(o) => {
                        let (i, out) = interface_totals(o@);
                        sample_result(old(self).network_stats, i, out)
                    },
                    None => (0u64, 0u64),
                };
                &&& final(self).current_down == down
                &&& final(self).current_up == up
                &&& final(self).down_history@ == rolled(old(self).down_history@, down)
                &&& final(self).up_history@ == rolled(old(self).up_history@, up)
            }),
            final(self).toast is None <==> (old(self).toast is None || clock.mono_ms
                > old(self).toast->Some_0.expires),
            ({
                let r = reconcile_step(
                    old(self).connection_state@,
                    old(self).session_start,
                    profiles_view(old(self).profiles@),
                    first_session(active@),
                    clock,
                );
                texts(final(self).logs@) == texts(old(self).logs@) + r.log.map_values(
                    |m: Seq<char>| log_line(stamp@, m),
                )
            }),
            telemetry_of(*final(self)) == with_updates(telemetry_of(*old(self)), updates_view(updates@)),
            final(self).network_stats == match netstat_output {
                Some(o) => {
                    let (i, out) = interface_totals(o@);
                    sampled(old(self).network_stats, i, out)
                },
                None => old(self).network_stats,
            },
    {
        self.update_connection_state(active, clock, stamp);
        let ghost all = updates_view(updates@);
        let mut updates = updates;
        let ghost mid = *self;
        let ghost mut k: int = 0;
        assert(all.subrange(0, 0) =~= Seq::<UpdateView>::empty());
        assert(all.subrange(0, all.len() as int) =~= all);
        while updates.len() > 0
            invariant
                0 <= k <= all.len(),
                updates_view(updates@) == all.subrange(k, all.len() as int),
                telemetry_of(*self) == with_updates(telemetry_of(mid), all.subrange(0, k)),
                *self == (App {
                    public_ip: self.public_ip,
                    latency_ms: self.latency_ms,
                    isp: self.isp,
                    dns_server: self.dns_server,
                    ipv6_leak: self.ipv6_leak,
                    ..mid
                }),
            decreases updates.len(),
        {
            let ghost before = updates@;
            assert(updates_view(before).len() == before.len());
            assert(k < all.len());
            let u = updates.remove(0);
            assert(updates@ =~= before.subrange(1, before.len() as int));
            assert(all.subrange(k, all.len() as int)[0] == u@);
            assert forall|j: int| 0 <= j < updates@.len() implies updates_view(updates@)[j] == all[k + 1 + j] by {
                assert(updates@[j] == before[j + 1]);
                assert(updates_view(before)[j + 1] == all.subrange(k, all.len() as int)[j + 1]);
            }
            assert(updates_view(updates@) =~= all.subrange(k + 1, all.len() as int));
            assert(all.subrange(0, k + 1).drop_last() =~= all.subrange(0, k));
            self.apply_telemetry(u);
            proof {
                k = k + 1;
            }
        }
        assert(all.subrange(0, k) =~= all);
        let expired = match &self.toast {
            Some(t) => clock.mono_ms > t.expires,
            None => false,
        };
        if expired {
            self.toast = None;
        }
        let (down, up) = match netstat_output {
            Some(out) => self.network_stats.update(out),
            None => (0, 0),
        };
        self.record_throughput(down, up);
    }

    /// Carries out a plan's state change, dialog and notice, and hands its
    /// commands back in order.
    fn apply_plan(&mut self, plan: Plan, stamp: &str, clock: Clock) -> (r: Vec<Command>)
        ensures
            commands_view(r@) == plan@.commands,
            plan_applied(*old(self), *final(self), plan@, stamp@, clock),
    {
        let Plan { commands, next_state, modal, notice } = plan;
        if let Some(s) = next_state {
            self.connection_state = s;
        }
        if let Some(m) = modal {
            self.input_mode = m;
        }
        if let Some(n) = notice {
            self.show_toast(n, stamp, clock);
        }
        commands
    }

    /// Toggles the profile at `idx`, given the preflight results: returns
    /// the commands to run in order (see [`toggle_spec`]).
    pub fn toggle_connection(&mut self, idx: usize, pre: &Preflight, clock: Clock, stamp: &str) -> (r: Vec<Command>)
        ensures
            ({
                let p = toggle_spec(old(self).connection_state@, profiles_view(old(self).profiles@), idx as int, *pre, clock);
                &&& commands_view(r@) == p.commands
                &&& plan_applied(*old(self), *final(self), p, stamp@, clock)
            }),
    {
        let plan = plan_toggle(&self.connection_state, &self.profiles, idx, pre, clock);
        self.apply_plan(plan, stamp, clock)
    }

    /// The command that tears the connected tunnel down, if a profile is
    /// connected; the state is left for the next tick to change.
    pub fn disconnect(&self) -> (r: Option<Command>)
        ensures
            match r {
                Some(c) => teardown_for(self.connection_state@, profiles_view(self.profiles@)) == Some(c@),
                None => teardown_for(self.connection_state@, profiles_view(self.profiles@)) is None,
            },
    {
        teardown_command(&self.connection_state, &self.profiles)
    }

    /// Reconnects the connected profile, given the preflight results:
    /// returns the commands to run in order (see [`reconnect_spec`]).
    pub fn reconnect(&mut self, pre: &Preflight, clock: Clock, stamp: &str) -> (r: Vec<Command>)
        ensures
            ({
                let p = reconnect_spec(old(self).connection_state@, profiles_view(old(self).profiles@), *pre, clock);
                &&& commands_view(r@) == p.commands
                &&& plan_applied(*old(self), *final(self), p, stamp@, clock)
            }),
    {
        let plan = plan_reconnect(&self.connection_state, &self.profiles, pre, clock);
        self.apply_plan(plan, stamp, clock)
    }

    /// Reports a command that could not be launched.
    pub fn command_failed(&mut self, command: &Command, error: &str, stamp: &str, clock: Clock)
        ensures
            notice_shown(
                *old(self),
                *final(self),
                match command {
                    Command::BringUp { .. } => "Command Failed: "@,
                    Command::TearDown { .. } => "Disconnect Error: "@,
                } + error@,
                stamp@,
                clock,
            ),
    {
        let mut m = match command {
            Command::BringUp { .. } => String::from_str("Command Failed: "),
            Command::TearDown { .. } => String::from_str("Disconnect Error: "),
        };
        m.append(error);
        self.show_toast(m, stamp, clock);
    }

    /// Asks for confirmation before deleting the profile at `idx`; the
    /// connected profile cannot be deleted.
    pub fn request_delete(&mut self, idx: usize, stamp: &str, clock: Clock)
        ensures
            final(self).profiles == old(self).profiles,
            final(self).connection_state == old(self).connection_state,
            final(self).session_start == old(self).session_start,
            idx < old(self).profiles.len() && !(old(self).connection_state@ matches crate::types::StateView::Connected { profile, .. } && profile == old(self).profiles@[idx as int].name@)
                ==> final(self).input_mode@ == (crate::types::ModeView::ConfirmDelete { index: idx, name: old(self).profiles@[idx as int].name@ }),
    {
        if idx >= self.profiles.len() {
            return;
        }
        let active = match &self.connection_state {
            ConnectionState::Connected { profile, .. } => *profile == self.profiles[idx].name,
            _ => false,
        };
        if active {
            self.show_toast(String::from_str("Cannot delete active profile"), stamp, clock);
            return;
        }
        self.input_mode = InputMode::ConfirmDelete { index: idx, name: self.profiles[idx].name.clone() };
    }

    /// Deletes the profile at `idx` from the list: quick slots naming it are
    /// cleared and later ones shift down, the selection stays in range.
    /// Returns the configuration file for the caller to remove.
    pub fn confirm_delete(&mut self, idx: usize, stamp: &str, clock: Clock) -> (r: Option<String>)
        ensures
            idx >= old(self).profiles.len() ==> r is None && *final(self) == *old(self),
            idx < old(self).profiles.len() ==> {
                &&& r matches Some(path) && path@ == old(self).profiles@[idx as int].config_path@
                &&& final(self).profiles@ == old(self).profiles@.remove(idx as int)
                &&& forall|k: int| 0 <= k < 5 ==> final(self).quick_slots@[k] == slot_after_removal(old(self).quick_slots@[k], idx)
                &&& match final(self).selected {
                    Some(i) => i < final(self).profiles.len(),
                    None => final(self).profiles.len() == 0 || old(self).selected is None,
                }
                &&& final(self).toast is Some
                &&& final(self).toast->Some_0.message@ == "Profile deleted"@
                &&& texts(final(self).logs@) == logged(texts(old(self).logs@), log_line(stamp@, "Profile deleted"@))
            },
            final(self).connection_state == old(self).connection_state,
            final(self).session_start == old(self).session_start,
    {
        if idx >= self.profiles.len() {
            return None;
        }
        let removed = self.profiles.remove(idx);
        remove_from_slots(&mut self.quick_slots, idx);
        if self.profiles.len() == 0 {
            self.selected = None;
        } else if let Some(sel) = self.selected {
            if sel >= self.profiles.len() {
                self.selected = Some(self.profiles.len() - 1);
            }
        }
        self.show_toast(String::from_str("Profile deleted"), stamp, clock);
        Some(removed.config_path)
    }

    /// Adds an imported profile and gives it the first free quick slot.
    pub fn add_profile(&mut self, profile: VpnProfile, stamp: &str, clock: Clock)
        ensures
            final(self).profiles@ == old(self).profiles@.push(profile),
            final(self).quick_slots@ == with_free_slot(old(self).quick_slots@, old(self).profiles.len() as usize),
            final(self).toast is Some && final(self).toast->Some_0.message@ == "Imported: "@ + profile.name@,
            texts(final(self).logs@) == logged(texts(old(self).logs@), log_line(stamp@, "Imported: "@ + profile.name@)),
            final(self).connection_state == old(self).connection_state,
            final(self).session_start == old(self).session_start,
    {
        let mut m = String::from_str("Imported: ");
        m.append(profile.name.as_str());
        self.profiles.push(profile);
        let n = self.profiles.len();
        assign_free_slot(&mut self.quick_slots, n - 1);
        self.show_toast(m, stamp, clock);
    }

    /// Reports a failed import; no profile is added.
    pub fn import_failed(&mut self, error: &str, stamp: &str, clock: Clock)
        ensures
            notice_shown(*old(self), *final(self), "Error: "@ + error@, stamp@, clock),
    {
        let mut m = String::from_str("Error: ");
        m.append(error);
        self.show_toast(m, stamp, clock);
    }

    /// Moves the selection down, wrapping to the top.
    pub fn profile_next(&mut self)
        ensures
            final(self).selected == Some(match old(self).selected {
                Some(i) => if i + 1 >= old(self).profiles.len() { 0 } else { (i + 1) as usize },
                None => 0usize,
            }),
            final(self).profiles == old(self).profiles,
            final(self).connection_state == old(self).connection_state,
            final(self).session_start == old(self).session_start,
    {
        let i = match self.selected {
            Some(i) => if i >= self.profiles.len() || self.profiles.len() - i <= 1 {
                0
            } else {
                i + 1
            },
            None => 0,
        };
        self.selected = Some(i);
    }

    /// Moves the selection up, wrapping to the bottom.
    pub fn profile_previous(&mut self)
        ensures
            final(self).selected == Some(match old(self).selected {
                Some(i) => if i == 0 {
                    if old(self).profiles.len() > 0 { (old(self).profiles.len() - 1) as usize } else { 0 }
                } else {
                    (i - 1) as usize
                },
                None => 0usize,
            }),
            final(self).profiles == old(self).profiles,
            final(self).connection_state == old(self).connection_state,
            final(self).session_start == old(self).session_start,
    {
        let i = match self.selected {
            Some(i) => if i == 0 {
                if self.profiles.len() > 0 { self.profiles.len() - 1 } else { 0 }
            } else {
                i - 1
            },
            None => 0,
        };
        self.selected = Some(i);
    }

    /// Moves the focus to the other panel.
    pub fn next_panel(&mut self)
        ensures
            final(self).focused_panel != old(self).focused_panel,
            final(self).connection_state == old(self).connection_state,
            final(self).session_start == old(self).session_start,
    {
        self.focused_panel = match self.focused_panel {
            FocusedPanel::Sidebar => FocusedPanel::Logs,
            FocusedPanel::Logs => FocusedPanel::Sidebar,
        };
    }

    /// Records the terminal's new size.
    pub fn on_resize(&mut self, width: u16, height: u16)
        ensures
            final(self).terminal_size == (width, height),
            final(self).connection_state == old(self).connection_state,
            final(self).session_start == old(self).session_start,
    {
        self.terminal_size = (width, height);
    }

    /// Handles a key. Keys never change the connection state: work that
    /// needs the system (connecting, deleting a file, importing) comes back
    /// as an [`Intent`].
    pub fn handle_key(&mut self, key: KeyPress, clock: Clock, stamp: &str) -> (r: Option<Intent>)
        ensures
            final(self).connection_state == old(self).connection_state,
            final(self).session_start == old(self).session_start,
            old(self).show_help ==> r is None && !final(self).show_help && final(self).input_mode
                == old(self).input_mode,
            !old(self).show_help && old(self).input_mode is Normal && key.key == Key::Char('q')
                ==> r is None && final(self).should_quit,
            !old(self).show_help && (old(self).input_mode is DependencyError
                || old(self).input_mode is PermissionDenied) ==> r is None && (if key.key == Key::Esc {
                final(self).input_mode is Normal
            } else {
                final(self).input_mode == old(self).input_mode
            }) && *final(self) == (App { input_mode: final(self).input_mode, ..*old(self) }),
            !old(self).show_help && old(self).input_mode is Normal && key.key == Key::Char('d') ==> (r matches Some(Intent::Disconnect)),
            !old(self).show_help && old(self).input_mode is Normal && key.key == Key::Char('r') ==> (r matches Some(Intent::Reconnect)),
            !old(self).show_help && old(self).input_mode is Normal && (key.key == Key::Enter || (key.key
                == Key::Char('c') && !key.ctrl)) ==> match old(self).selected {
                Some(i) => toggles(r, i),
                None => r is None,
            },
            !old(self).show_help && old(self).input_mode is Normal && slot_of_key(key.key) is Some
                ==> slot_toggle(r, old(self).quick_slots@[slot_of_key(key.key)->Some_0]),
            !old(self).show_help && old(self).input_mode is Import && key.key == Key::Enter ==> {
                &&& final(self).input_mode is Normal
                &&& r matches Some(Intent::Import(p)) && p@ == old(self).input_mode->Import_path@
            },
    {
        if self.show_help {
            self.show_help = false;
            return None;
        }
        let normal = match self.input_mode {
            InputMode::Normal => true,
            _ => false,
        };
        if normal && (key.key == Key::Char('q') || (key.key == Key::Char('c') && key.ctrl)) {
            self.should_quit = true;
            return None;
        }
        let mut mode = InputMode::Normal;
        std::mem::swap(&mut mode, &mut self.input_mode);
        match mode {
            InputMode::Import { path } => {
                let mut path = path;
                match key.key {
                    Key::Esc => None,
                    Key::Enter => Some(Intent::Import(path)),
                    Key::Backspace => {
                        let c = crate::text::chars_of(path.as_str());
                        let keep = if c.len() > 0 { c.len() - 1 } else { 0 };
                        path = crate::text::string_of(&crate::text::slice_chars(&c, 0, keep));
                        self.input_mode = InputMode::Import { path };
                        None
                    },
                    Key::Char(ch) => {
                        let mut c = crate::text::chars_of(path.as_str());
                        c.push(ch);
                        self.input_mode = InputMode::Import { path: crate::text::string_of(&c) };
                        None
                    },
                    _ => {
                        self.input_mode = InputMode::Import { path };
                        None
                    },
                }
            },
            InputMode::ProfileModal => {
                self.input_mode = InputMode::ProfileModal;
                self.handle_profile_modal_keys(key, clock, stamp)
            },
            InputMode::DependencyError { protocol, missing } => {
                if key.key != Key::Esc {
                    self.input_mode = InputMode::DependencyError { protocol, missing };
                }
                None
            },
            InputMode::PermissionDenied { action } => {
                if key.key != Key::Esc {
                    self.input_mode = InputMode::PermissionDenied { action };
                }
                None
            },
            InputMode::ConfirmDelete { index, name } => match key.key {
                Key::Char('y') | Key::Enter => match self.confirm_delete(index, stamp, clock) {
                    Some(path) => Some(Intent::RemoveFile(path)),
                    None => None,
                },
                Key::Char('n') | Key::Esc => None,
                _ => {
                    self.input_mode = InputMode::ConfirmDelete { index, name };
                    None
                },
            },
            InputMode::Normal => self.handle_normal_keys(key, clock, stamp),
        }
    }

    fn handle_normal_keys(&mut self, key: KeyPress, clock: Clock, stamp: &str) -> (r: Option<Intent>)
        ensures
            final(self).connection_state == old(self).connection_state,
            final(self).session_start == old(self).session_start,
            key.key == Key::Char('d') ==> (r matches Some(Intent::Disconnect)),
            key.key == Key::Char('r') ==> (r matches Some(Intent::Reconnect)),
            (key.key == Key::Enter || key.key == Key::Char('c')) ==> match old(self).selected {
                Some(i) => toggles(r, i),
                None => r is None,
            },
            slot_of_key(key.key) is Some ==> slot_toggle(r, old(self).quick_slots@[slot_of_key(key.key)->Some_0]),
    {
        match key.key {
            Key::Char('?') => {
                self.show_help = true;
                None
            },
            Key::Tab | Key::BackTab => {
                self.next_panel();
                None
            },
            Key::Char('p') => {
                self.input_mode = InputMode::ProfileModal;
                None
            },
            Key::Char('1') => self.slot_intent(0),
            Key::Char('2') => self.slot_intent(1),
            Key::Char('3') => self.slot_intent(2),
            Key::Char('4') => self.slot_intent(3),
            Key::Char('5') => self.slot_intent(4),
            Key::Char('c') | Key::Enter => match self.selected {
                Some(i) => Some(Intent::Toggle(i)),
                None => {
                    self.show_toast(String::from_str("Select a profile first"), stamp, clock);
                    None
                },
            },
            Key::Char('d') => Some(Intent::Disconnect),
            Key::Char('r') => Some(Intent::Reconnect),
            Key::Char('i') => {
                self.input_mode = InputMode::Import { path: String::new() };
                None
            },
            _ => self.handle_panel_keys(key, clock, stamp),
        }
    }

    /// The toggle a quick slot asks for, if the slot is set.
    pub fn slot_intent(&self, slot: usize) -> (r: Option<Intent>)
        ensures
            match r {
                Some(Intent::Toggle(i)) => slot < 5 && self.quick_slots@[slot as int] == Some(i),
                Some(_) => false,
                None => slot >= 5 || self.quick_slots@[slot as int] is None,
            },
    {
        if slot >= 5 {
            return None;
        }
        match self.quick_slots[slot] {
            Some(i) => Some(Intent::Toggle(i)),
            None => None,
        }
    }

    fn handle_profile_modal_keys(&mut self, key: KeyPress, clock: Clock, stamp: &str) -> (r: Option<Intent>)
        ensures
            final(self).connection_state == old(self).connection_state,
            final(self).session_start == old(self).session_start,
    {
        match key.key {
            Key::Esc | Key::Char('p') => {
                self.input_mode = InputMode::Normal;
                None
            },
            Key::Up | Key::Char('k') => {
                self.profile_previous();
                None
            },
            Key::Down | Key::Char('j') => {
                self.profile_next();
                None
            },
            Key::Char('i') => {
                self.input_mode = InputMode::Import { path: String::new() };
                None
            },
            Key::Char('x') | Key::Delete => {
                if let Some(i) = self.selected {
                    self.request_delete(i, stamp, clock);
                }
                None
            },
            Key::Enter => match self.selected {
                Some(i) => {
                    self.input_mode = InputMode::Normal;
                    Some(Intent::Toggle(i))
                },
                None => None,
            },
            _ => None,
        }
    }

    fn handle_panel_keys(&mut self, key: KeyPress, clock: Clock, stamp: &str) -> (r: Option<Intent>)
        ensures
            final(self).connection_state == old(self).connection_state,
            final(self).session_start == old(self).session_start,
    {
        if key.key == Key::Char('t') {
            self.show_toast(String::from_str("Running leak tests..."), stamp, clock);
            self.security.last_check = Some(clock.mono_ms);
            return None;
        }
        match self.focused_panel {
            FocusedPanel::Sidebar => match key.key {
                Key::Up | Key::Char('k') => {
                    self.profile_previous();
                    None
                },
                Key::Down | Key::Char('j') => {
                    self.profile_next();
                    None
                },
                Key::Char('x') => {
                    if let Some(i) = self.selected {
                        self.request_delete(i, stamp, clock);
                    }
                    None
                },
                Key::Enter => match self.selected {
                    Some(i) => Some(Intent::Toggle(i)),
                    None => None,
                },
                _ => None,
            },
            FocusedPanel::Logs => {
                match key.key {
                    Key::Up | Key::Char('k') => {
                        self.logs_auto_scroll = false;
                        self.logs_scroll = if self.logs_scroll > 0 { self.logs_scroll - 1 } else { 0 };
                    },
                    Key::Down | Key::Char('j') => {
                        self.logs_scroll = if self.logs_scroll < u16::MAX { self.logs_scroll + 1 } else { u16::MAX };
                        let max_scroll = (if self.logs.len() > 0 { self.logs.len() - 1 } else { 0 }) as u16;
                        if self.logs_scroll >= max_scroll {
                            self.logs_auto_scroll = true;
                        }
                    },
                    _ => {},
                }
                None
            },
        }
    }
}

} // verus!
