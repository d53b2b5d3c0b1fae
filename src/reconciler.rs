//! The state reconciler: once per tick it merges the scanner's view of the
//! system into the connection state.
//!
//! The first active session the scanner reports is the single source of
//! truth for whether a tunnel is up.
use vstd::prelude::*;
use vstd::string::*;
use crate::types::{
    texts, profiles_view, ActiveSession, Clock, ConnectionState, DetailedConnectionInfo,
    ProfileView, SessionView, StateView, VpnProfile,
};

verus! {

/// Largest tolerated difference, in milliseconds, between the locally
/// tracked uptime and the uptime the system reports.
pub const DRIFT_TOLERANCE_MS: u64 = 5000;

/// What a tick leaves behind: the new state, the remembered session start
/// and the log messages emitted.
pub ghost struct TickView {
    pub state: StateView,
    pub session_start: Option<u64>,
    pub log: Seq<Seq<char>>,
}

/// The session a scan reports first, if any.
pub open spec fn first_session(active: Seq<ActiveSession>) -> Option<SessionView> {
    if active.len() > 0 {
        Some(active[0]@)
    } else {
        None
    }
}

/// Location label of the first profile with the given name, or `Unknown`.
pub open spec fn location_of(ps: Seq<ProfileView>, name: Seq<char>) -> Seq<char>
    decreases ps.len(),
{
    if ps.len() == 0 {
        "Unknown"@
    } else if ps[0].name == name {
        ps[0].location
    } else {
        location_of(ps.subrange(1, ps.len() as int), name)
    }
}

/// How long ago, by the wall clock, a tunnel reported to have started at
/// `started_at` came up; `None` when no start is known or it lies in the
/// future.
pub open spec fn reported_elapsed(started_at: Option<u64>, clock: Clock) -> Option<u64> {
    match started_at {
        Some(r) => if r <= clock.wall_ms {
            Some((clock.wall_ms - r) as u64)
        } else {
            None
        },
        None => None,
    }
}

/// The monotonic instant `elapsed` milliseconds before now, or now when the
/// monotonic timeline does not reach back that far.
pub open spec fn local_start(clock: Clock, elapsed: u64) -> u64 {
    if elapsed <= clock.mono_ms {
        (clock.mono_ms - elapsed) as u64
    } else {
        clock.mono_ms
    }
}

/// Locally tracked uptime of a session that started at `since`.
pub open spec fn local_elapsed(since: u64, clock: Clock) -> u64 {
    if since <= clock.mono_ms {
        (clock.mono_ms - since) as u64
    } else {
        0
    }
}

/// Whether the local uptime and the reported uptime differ by more than the
/// tolerance.
pub open spec fn drift_exceeded(since: u64, clock: Clock, elapsed: u64) -> bool {
    let local = local_elapsed(since, clock);
    if local >= elapsed {
        local - elapsed > DRIFT_TOLERANCE_MS
    } else {
        elapsed - local > DRIFT_TOLERANCE_MS
    }
}

/// Whether a connected session's start must be resynchronized.
pub open spec fn needs_resync(since: u64, started_at: Option<u64>, clock: Clock) -> bool {
    match reported_elapsed(started_at, clock) {
        Some(e) => drift_exceeded(since, clock, e),
        None => false,
    }
}

/// Start of a connected session after a tick that observed it again.
pub open spec fn resynced_since(since: u64, started_at: Option<u64>, clock: Clock) -> u64 {
    if needs_resync(since, started_at, clock) {
        local_start(clock, reported_elapsed(started_at, clock)->Some_0)
    } else {
        since
    }
}

/// Start of a session that has just been observed for the first time.
pub open spec fn fresh_start(started_at: Option<u64>, remembered: Option<u64>, clock: Clock) -> u64 {
    match reported_elapsed(started_at, clock) {
        Some(e) => local_start(clock, e),
        None => if started_at is Some {
            clock.mono_ms
        } else {
            match remembered {
                Some(t) => t,
                None => clock.mono_ms,
            }
        },
    }
}

/// Log message for a dropped tunnel.
pub open spec fn disconnected_message(name: Seq<char>) -> Seq<char> {
    "STATUS: Disconnected from '"@ + name + "'"@
}

/// Log message for a newly established tunnel.
pub open spec fn established_message(name: Seq<char>) -> Seq<char> {
    "STATUS: Connection established to '"@ + name + "'"@
}

/// Log messages for a newly established tunnel, saying whether its uptime
/// was taken from the system.
pub open spec fn connect_messages(name: Seq<char>, synced: bool) -> Seq<Seq<char>> {
    if synced {
        seq![
            established_message(name),
            "INFO: Synced uptime with system process."@,
            "INFO: Waiting for telemetry..."@,
        ]
    } else {
        seq![established_message(name), "INFO: Waiting for telemetry..."@]
    }
}

/// One reconciliation tick.
pub open spec fn reconcile_step(
    s: StateView,
    remembered: Option<u64>,
    ps: Seq<ProfileView>,
    active: Option<SessionView>,
    clock: Clock,
) -> TickView {
    match active {
        None => match s {
            StateView::Disconnected => TickView { state: s, session_start: remembered, log: seq![] },
            StateView::Connecting { profile, .. } => TickView {
                state: StateView::Disconnected,
                session_start: None,
                log: seq![disconnected_message(profile)],
            },
            StateView::Connected { profile, .. } => TickView {
                state: StateView::Disconnected,
                session_start: None,
                log: seq![disconnected_message(profile)],
            },
        },
        Some(a) => match s {
            StateView::Connected { since, profile, location, latency_ms, .. } if profile
                == a.name => {
                let since2 = resynced_since(since, a.started_at, clock);
                TickView {
                    state: StateView::Connected {
                        since: since2,
                        profile,
                        location,
                        latency_ms,
                        details: a.details,
                    },
                    session_start: if needs_resync(since, a.started_at, clock) {
                        Some(since2)
                    } else {
                        remembered
                    },
                    log: seq![],
                }
            },
            _ => {
                let t = fresh_start(a.started_at, remembered, clock);
                TickView {
                    state: StateView::Connected {
                        since: t,
                        profile: a.name,
                        location: location_of(ps, a.name),
                        latency_ms: 0,
                        details: a.details,
                    },
                    session_start: Some(t),
                    log: connect_messages(
                        a.name,
                        reported_elapsed(a.started_at, clock) is Some,
                    ),
                }
            },
        },
    }
}

/// Ticks run one after another, each with the first session of one scan
/// and the clock read for it; the log is the concatenation of theirs.
pub open spec fn run_ticks(
    s: StateView,
    remembered: Option<u64>,
    ps: Seq<ProfileView>,
    ticks: Seq<(Option<SessionView>, Clock)>,
) -> TickView
    decreases ticks.len(),
{
    if ticks.len() == 0 {
        TickView { state: s, session_start: remembered, log: seq![] }
    } else {
        let first = reconcile_step(s, remembered, ps, ticks[0].0, ticks[0].1);
        let rest = run_ticks(first.state, first.session_start, ps, ticks.drop_first());
        TickView { state: rest.state, session_start: rest.session_start, log: first.log + rest.log }
    }
}

/// Ticks at the given clocks on which the scanner reports no session.
pub open spec fn empty_scans(clocks: Seq<Clock>) -> Seq<(Option<SessionView>, Clock)> {
    clocks.map_values(|c: Clock| (None::<SessionView>, c))
}

/// Whether a state's recorded instants lie no later than the clock.
pub open spec fn not_in_future(s: StateView, clock: Clock) -> bool {
    match s {
        StateView::Connected { since, .. } => since <= clock.mono_ms,
        _ => true,
    }
}

proof fn lemma_idle_while_disconnected(remembered: Option<u64>, ps: Seq<ProfileView>, clocks: Seq<Clock>)
    ensures
        run_ticks(StateView::Disconnected, remembered, ps, empty_scans(clocks)) == (TickView {
            state: StateView::Disconnected,
            session_start: remembered,
            log: seq![],
        }),
    decreases clocks.len(),
{
    let ticks = empty_scans(clocks);
    if clocks.len() > 0 {
        assert(ticks.drop_first() =~= empty_scans(clocks.drop_first()));
        lemma_idle_while_disconnected(remembered, ps, clocks.drop_first());
        assert(seq![] + seq![] =~= Seq::<Seq<char>>::empty());
    }
}

/// Profile named by a connecting or connected state.
pub open spec fn state_profile(s: StateView) -> Seq<char> {
    match s {
        StateView::Connecting { profile, .. } => profile,
        StateView::Connected { profile, .. } => profile,
        StateView::Disconnected => seq![],
    }
}

/// A connecting or connected state that sees no session on any number of
/// consecutive ticks becomes disconnected on the first of them, and the
/// whole run logs exactly one line, naming the dropped profile.
pub proof fn lemma_disconnect_logged_once(
    s: StateView,
    remembered: Option<u64>,
    ps: Seq<ProfileView>,
    clocks: Seq<Clock>,
)
    requires
        !(s is Disconnected),
        clocks.len() > 0,
    ensures
        reconcile_step(s, remembered, ps, None, clocks[0]).state == StateView::Disconnected,
        reconcile_step(s, remembered, ps, None, clocks[0]).log == seq![
            disconnected_message(state_profile(s)),
        ],
        run_ticks(s, remembered, ps, empty_scans(clocks)).state == StateView::Disconnected,
        run_ticks(s, remembered, ps, empty_scans(clocks)).log == seq![
            disconnected_message(state_profile(s)),
        ],
{
    let ticks = empty_scans(clocks);
    assert(ticks.drop_first() =~= empty_scans(clocks.drop_first()));
    lemma_idle_while_disconnected(None, ps, clocks.drop_first());
    assert(seq![disconnected_message(state_profile(s))] + seq![] =~= seq![
        disconnected_message(state_profile(s)),
    ]);
}

/// Feeding the same session again on a later tick, with both clocks
/// advanced by the same amount, changes nothing and logs nothing: the start
/// stays put and the details already hold the session's values.
pub proof fn lemma_repeated_session_is_quiet(
    s: StateView,
    remembered: Option<u64>,
    ps: Seq<ProfileView>,
    a: SessionView,
    c1: Clock,
    c2: Clock,
)
    requires
        not_in_future(s, c1),
        c1.mono_ms <= c2.mono_ms,
        c1.wall_ms <= c2.wall_ms,
        c2.mono_ms - c1.mono_ms == c2.wall_ms - c1.wall_ms,
        match a.started_at {
            Some(r) => r <= c1.wall_ms && c1.wall_ms - r <= c1.mono_ms,
            None => true,
        },
    ensures
        ({
            let t1 = reconcile_step(s, remembered, ps, Some(a), c1);
            let t2 = reconcile_step(t1.state, t1.session_start, ps, Some(a), c2);
            &&& t2.state == t1.state
            &&& t2.session_start == t1.session_start
            &&& t2.log.len() == 0
        }),
{
}

/// Drift correction: for a session of the connected profile whose start the
/// system reports, the start moves to the reported one exactly when the
/// local and the reported uptime differ by more than the tolerance.
pub proof fn lemma_drift_correction(
    s: StateView,
    remembered: Option<u64>,
    ps: Seq<ProfileView>,
    a: SessionView,
    clock: Clock,
    reported: u64,
)
    requires
        s is Connected,
        s->Connected_profile == a.name,
        s->Connected_since <= clock.mono_ms,
        a.started_at == Some(reported),
        reported <= clock.wall_ms,
        clock.wall_ms - reported <= clock.mono_ms,
    ensures
        ({
            let since = s->Connected_since;
            let local: int = clock.mono_ms - since;
            let os: int = clock.wall_ms - reported;
            let t = reconcile_step(s, remembered, ps, Some(a), clock);
            &&& t.state is Connected
            &&& t.state->Connected_since == if local - os > 5000 || os - local > 5000 {
                clock.mono_ms - os
            } else {
                since as int
            }
            &&& t.log.len() == 0
        }),
{
}

/// The reconciler never produces `Connecting`: after a tick the state is
/// connected or disconnected, so a pending bring-up is confirmed by a
/// session or dropped without one.
pub proof fn lemma_tick_never_connecting(
    s: StateView,
    remembered: Option<u64>,
    ps: Seq<ProfileView>,
    active: Option<SessionView>,
    clock: Clock,
)
    ensures
        !(reconcile_step(s, remembered, ps, active, clock).state is Connecting),
{
}

fn quoted_message(prefix: &str, name: &String) -> (r: String)
    ensures
        r@ == prefix@ + name@ + "'"@,
{
    let mut m = String::from_str(prefix);
    m.append(name.as_str());
    m.append("'");
    m
}

/// Location label of the first profile named `name`, or `Unknown`.
pub fn profile_location(profiles: &Vec<VpnProfile>, name: &String) -> (r: String)
    ensures
        r@ == location_of(profiles_view(profiles@), name@),
{
    let ghost ps = profiles_view(profiles@);
    let mut i: usize = 0;
    assert(ps.subrange(0, ps.len() as int) =~= ps);
    while i < profiles.len()
        invariant
            i <= profiles.len(),
            ps == profiles_view(profiles@),
            location_of(ps, name@) == location_of(ps.subrange(i as int, ps.len() as int), name@),
        decreases profiles.len() - i,
    {
        let ghost rest = ps.subrange(i as int, ps.len() as int);
        assert(rest.subrange(1, rest.len() as int) =~= ps.subrange(i + 1, ps.len() as int));
        if profiles[i].name == *name {
            return profiles[i].location.clone();
        }
        i = i + 1;
    }
    String::from_str("Unknown")
}

fn elapsed_reported(started_at: Option<u64>, clock: Clock) -> (r: Option<u64>)
    ensures
        r == reported_elapsed(started_at, clock),
{
    match started_at {
        Some(t) => if t <= clock.wall_ms {
            Some(clock.wall_ms - t)
        } else {
            None
        },
        None => None,
    }
}

fn start_before_now(clock: Clock, elapsed: u64) -> (r: u64)
    ensures
        r == local_start(clock, elapsed),
{
    if elapsed <= clock.mono_ms {
        clock.mono_ms - elapsed
    } else {
        clock.mono_ms
    }
}

fn drift_too_large(since: u64, clock: Clock, elapsed: u64) -> (r: bool)
    ensures
        r == drift_exceeded(since, clock, elapsed),
{
    let local = if since <= clock.mono_ms {
        clock.mono_ms - since
    } else {
        0
    };
    if local >= elapsed {
        local - elapsed > DRIFT_TOLERANCE_MS
    } else {
        elapsed - local > DRIFT_TOLERANCE_MS
    }
}

/// Runs one reconciliation tick against the sessions a scan reported.
///
/// With no session, a connected or connecting state becomes disconnected
/// (logging one line naming the dropped profile). A session of the
/// connected profile is merged into the existing details in place, and the
/// start is resynchronized only when the drift exceeds the tolerance. Any
/// other session starts a fresh connection with zero latency.
pub fn reconcile(
    state: &mut ConnectionState,
    session_start: &mut Option<u64>,
    profiles: &Vec<VpnProfile>,
    active: &Vec<ActiveSession>,
    clock: Clock,
) -> (log: Vec<String>)
    ensures
        ({
            let r = reconcile_step(
                old(state)@,
                *old(session_start),
                profiles_view(profiles@),
                first_session(active@),
                clock,
            );
            &&& final(state)@ == r.state
            &&& *final(session_start) == r.session_start
            &&& texts(log@) == r.log
        }),
{
    let mut log: Vec<String> = Vec::new();
    if active.len() == 0 {
        let dropped = match &*state {
            ConnectionState::Disconnected => {
                return log;
            },
            ConnectionState::Connecting { profile, .. } => Some(
                quoted_message("STATUS: Disconnected from '", profile),
            ),
            ConnectionState::Connected { profile, .. } => Some(
                quoted_message("STATUS: Disconnected from '", profile),
            ),
        };
        match dropped {
            Some(m) => log.push(m),
            None => {},
        }
        *state = ConnectionState::Disconnected;
        *session_start = None;
        assert(texts(log@) =~= reconcile_step(
            old(state)@,
            *old(session_start),
            profiles_view(profiles@),
            first_session(active@),
            clock,
        ).log);
        return log;
    }
    let session = &active[0];
    let same = match &*state {
        ConnectionState::Connected { profile, .. } => *profile == session.name,
        _ => false,
    };
    let reported = elapsed_reported(session.started_at, clock);
    if same {
        match state {
            ConnectionState::Connected { since, details, .. } => {
                if let Some(e) = reported {
                    if drift_too_large(*since, clock, e) {
                        let t = start_before_now(clock, e);
                        *since = t;
                        *session_start = Some(t);
                    }
                }
                let d: &mut DetailedConnectionInfo = &mut **details;
                d.transfer_rx = session.transfer_rx.clone();
                d.transfer_tx = session.transfer_tx.clone();
                d.latest_handshake = session.latest_handshake.clone();
                d.internal_ip = session.internal_ip.clone();
                d.endpoint = session.endpoint.clone();
                d.mtu = session.mtu.clone();
                d.listen_port = session.listen_port.clone();
                d.public_key = session.public_key.clone();
            },
            _ => {},
        }
        assert(texts(log@) =~= seq![]);
        return log;
    }
    let location = profile_location(profiles, &session.name);
    let start = match reported {
        Some(e) => start_before_now(clock, e),
        None => if session.started_at.is_some() {
            clock.mono_ms
        } else {
            match *session_start {
                Some(t) => t,
                None => clock.mono_ms,
            }
        },
    };
    *state = ConnectionState::Connected {
        since: start,
        profile: session.name.clone(),
        server_location: location,
        latency_ms: 0,
        details: Box::new(DetailedConnectionInfo::from_session(session)),
    };
    *session_start = Some(start);
    log.push(quoted_message("STATUS: Connection established to '", &session.name));
    if reported.is_some() {
        log.push(String::from_str("INFO: Synced uptime with system process."));
    }
    log.push(String::from_str("INFO: Waiting for telemetry..."));
    assert(texts(log@) =~= connect_messages(session.name@, reported is Some));
    log
}

} // verus!
