//! The command orchestrator: turns the operator's intents into tunnel
//! commands.
//!
//! It never confirms a connection. It may only enter `Connecting`; the
//! reconciler alone decides, from what the system reports, when a tunnel is
//! up or down.
use vstd::prelude::*;
use vstd::string::*;
use crate::types::{
    copy_texts, protocol_name, profiles_view, texts, Clock, ConnectionState, InputMode,
    ModeView, ProfileView, Protocol, StateView, VpnProfile,
};

verus! {

/// A tunnel lifecycle command for the caller to run.
#[derive(Debug)]
pub enum Command {
    /// Bring the tunnel of a configuration file up.
    BringUp { protocol: Protocol, config_path: String },
    /// Tear the tunnel of a configuration file down; runs to completion
    /// before the next command is issued.
    TearDown { protocol: Protocol, config_path: String },
}

/// Mathematical value of a [`Command`].
pub ghost enum CommandView {
    BringUp { protocol: Protocol, config_path: Seq<char> },
    TearDown { protocol: Protocol, config_path: Seq<char> },
}

impl View for Command {
    type V = CommandView;

    open spec fn view(&self) -> CommandView {
        match self {
            Command::BringUp { protocol, config_path } => CommandView::BringUp {
                protocol: *protocol,
                config_path: config_path@,
            },
            Command::TearDown { protocol, config_path } => CommandView::TearDown {
                protocol: *protocol,
                config_path: config_path@,
            },
        }
    }
}

/// The values of a list of commands.
pub open spec fn commands_view(v: Seq<Command>) -> Seq<CommandView> {
    v.map_values(|c: Command| c@)
}

/// Program and arguments that carry out a command.
pub open spec fn command_argv(c: CommandView) -> Seq<Seq<char>> {
    match c {
        CommandView::BringUp { protocol: Protocol::WireGuard, config_path } => seq![
            "wg-quick"@,
            "up"@,
            config_path,
        ],
        CommandView::BringUp { protocol: Protocol::OpenVPN, config_path } => seq![
            "openvpn"@,
            "--config"@,
            config_path,
            "--daemon"@,
        ],
        CommandView::TearDown { protocol: Protocol::WireGuard, config_path } => seq![
            "wg-quick"@,
            "down"@,
            config_path,
        ],
        CommandView::TearDown { protocol: Protocol::OpenVPN, .. } => seq!["pkill"@, "openvpn"@],
    }
}

impl Command {
    /// Program and arguments that carry out the command.
    pub fn argv(&self) -> (r: Vec<String>)
        ensures
            texts(r@) == command_argv(self@),
    {
        let mut r: Vec<String> = Vec::new();
        match self {
            Command::BringUp { protocol: Protocol::WireGuard, config_path } => {
                r.push(String::from_str("wg-quick"));
                r.push(String::from_str("up"));
                r.push(config_path.clone());
            },
            Command::BringUp { protocol: Protocol::OpenVPN, config_path } => {
                r.push(String::from_str("openvpn"));
                r.push(String::from_str("--config"));
                r.push(config_path.clone());
                r.push(String::from_str("--daemon"));
            },
            Command::TearDown { protocol: Protocol::WireGuard, config_path } => {
                r.push(String::from_str("wg-quick"));
                r.push(String::from_str("down"));
                r.push(config_path.clone());
            },
            Command::TearDown { protocol: Protocol::OpenVPN, .. } => {
                r.push(String::from_str("pkill"));
                r.push(String::from_str("openvpn"));
            },
        }
        assert(texts(r@) =~= command_argv(self@));
        r
    }
}

/// A tool a protocol needs: the program probed for, and the name reported
/// when it is missing.
#[derive(Debug)]
pub struct RequiredTool {
    pub program: String,
    pub package: String,
}

/// Programs, with the names reported when missing, that a protocol needs.
pub open spec fn tools_for(p: Protocol) -> Seq<(Seq<char>, Seq<char>)> {
    match p {
        Protocol::WireGuard => seq![
            ("wg-quick"@, "wg-quick"@),
            ("wg"@, "wireguard-tools"@),
        ],
        Protocol::OpenVPN => seq![("openvpn"@, "openvpn"@)],
    }
}

/// The tools a protocol needs, in the order they are probed.
pub fn required_tools(p: Protocol) -> (r: Vec<RequiredTool>)
    ensures
        r@.map_values(|t: RequiredTool| (t.program@, t.package@)) == tools_for(p),
{
    let mut r: Vec<RequiredTool> = Vec::new();
    match p {
        Protocol::WireGuard => {
            r.push(RequiredTool { program: String::from_str("wg-quick"), package: String::from_str("wg-quick") });
            r.push(RequiredTool { program: String::from_str("wg"), package: String::from_str("wireguard-tools") });
        },
        Protocol::OpenVPN => {
            r.push(RequiredTool { program: String::from_str("openvpn"), package: String::from_str("openvpn") });
        },
    }
    assert(r@.map_values(|t: RequiredTool| (t.program@, t.package@)) =~= tools_for(p));
    r
}

/// Results of the preflight checks: whether the process holds elevated
/// rights, and the tools found missing for each protocol.
#[derive(Debug)]
pub struct Preflight {
    pub is_root: bool,
    pub missing_wireguard: Vec<String>,
    pub missing_openvpn: Vec<String>,
}

/// Tools found missing for a protocol.
pub open spec fn missing_for(pre: Preflight, p: Protocol) -> Seq<Seq<char>> {
    match p {
        Protocol::WireGuard => texts(pre.missing_wireguard@),
        Protocol::OpenVPN => texts(pre.missing_openvpn@),
    }
}

/// What an intent leads to: commands to run in order, the state to enter,
/// a blocking dialog to open and a notice to show (each if any).
#[derive(Debug)]
pub struct Plan {
    pub commands: Vec<Command>,
    pub next_state: Option<ConnectionState>,
    pub modal: Option<InputMode>,
    pub notice: Option<String>,
}

/// Mathematical value of a [`Plan`].
pub ghost struct PlanView {
    pub commands: Seq<CommandView>,
    pub next_state: Option<StateView>,
    pub modal: Option<ModeView>,
    pub notice: Option<Seq<char>>,
}

impl View for Plan {
    type V = PlanView;

    open spec fn view(&self) -> PlanView {
        PlanView {
            commands: commands_view(self.commands@),
            next_state: match self.next_state {
                Some(s) => Some(s@),
                None => None,
            },
            modal: match self.modal {
                Some(m) => Some(m@),
                None => None,
            },
            notice: match self.notice {
                Some(n) => Some(n@),
                None => None,
            },
        }
    }
}

/// A plan that does nothing.
pub open spec fn idle_plan() -> PlanView {
    PlanView { commands: seq![], next_state: None, modal: None, notice: None }
}

/// Index of the first profile with the given name.
pub open spec fn index_of(ps: Seq<ProfileView>, name: Seq<char>) -> Option<int>
    decreases ps.len(),
{
    if ps.len() == 0 {
        None
    } else if ps[ps.len() - 1].name == name && index_of(ps.drop_last(), name) is None {
        Some(ps.len() - 1)
    } else {
        index_of(ps.drop_last(), name)
    }
}

/// The command that tears the connected profile's tunnel down.
pub open spec fn teardown_for(s: StateView, ps: Seq<ProfileView>) -> Option<CommandView> {
    match s {
        StateView::Connected { profile, .. } => match index_of(ps, profile) {
            Some(i) => Some(
                CommandView::TearDown { protocol: ps[i].protocol, config_path: ps[i].config_path },
            ),
            None => None,
        },
        _ => None,
    }
}

/// Connecting to the profile at `idx`: preflight failures open a blocking
/// dialog; otherwise the state becomes `Connecting` and the bring-up
/// command is issued.
pub open spec fn connect_spec(ps: Seq<ProfileView>, idx: int, pre: Preflight, clock: Clock) -> PlanView {
    if idx < 0 || idx >= ps.len() {
        idle_plan()
    } else {
        let p = ps[idx];
        if missing_for(pre, p.protocol).len() > 0 {
            PlanView {
                modal: Some(ModeView::DependencyError {
                    protocol: p.protocol,
                    missing: missing_for(pre, p.protocol),
                }),
                ..idle_plan()
            }
        } else if !pre.is_root {
            PlanView {
                modal: Some(ModeView::PermissionDenied {
                    action: "Manage "@ + protocol_name(p.protocol),
                }),
                ..idle_plan()
            }
        } else {
            PlanView {
                commands: seq![
                    CommandView::BringUp { protocol: p.protocol, config_path: p.config_path },
                ],
                next_state: Some(StateView::Connecting { started: clock.mono_ms, profile: p.name }),
                ..idle_plan()
            }
        }
    }
}

/// Runs a tear-down first, if there is one.
pub open spec fn after_teardown(down: Option<CommandView>, plan: PlanView) -> PlanView {
    match down {
        Some(c) => PlanView { commands: seq![c] + plan.commands, ..plan },
        None => plan,
    }
}

/// Toggling the profile at `idx`: ignored with a notice while connecting;
/// disconnects when it is the connected profile; switches (tear-down, then
/// connect) when another profile is connected; connects otherwise.
pub open spec fn toggle_spec(
    s: StateView,
    ps: Seq<ProfileView>,
    idx: int,
    pre: Preflight,
    clock: Clock,
) -> PlanView {
    if idx < 0 || idx >= ps.len() {
        idle_plan()
    } else {
        match s {
            StateView::Connecting { .. } => PlanView {
                notice: Some("Connection in progress..."@),
                ..idle_plan()
            },
            StateView::Connected { profile, .. } => if profile == ps[idx].name {
                after_teardown(teardown_for(s, ps), idle_plan())
            } else {
                after_teardown(teardown_for(s, ps), connect_spec(ps, idx, pre, clock))
            },
            StateView::Disconnected => connect_spec(ps, idx, pre, clock),
        }
    }
}

/// Reconnecting: tear the connected profile down and connect it again.
pub open spec fn reconnect_spec(s: StateView, ps: Seq<ProfileView>, pre: Preflight, clock: Clock) -> PlanView {
    match s {
        StateView::Connected { profile, .. } => match index_of(ps, profile) {
            Some(i) => after_teardown(teardown_for(s, ps), connect_spec(ps, i, pre, clock)),
            None => idle_plan(),
        },
        _ => idle_plan(),
    }
}

/// Index of the first profile named `name`.
pub fn find_profile(profiles: &Vec<VpnProfile>, name: &String) -> (r: Option<usize>)
    ensures
        match r {
            Some(i) => i < profiles.len() && profiles@[i as int].name@ == name@ && index_of(
                profiles_view(profiles@),
                name@,
            ) == Some(i as int),
            None => index_of(profiles_view(profiles@), name@) is None,
        },
{
    let ghost ps = profiles_view(profiles@);
    let mut i: usize = 0;
    while i < profiles.len()
        invariant
            i <= profiles.len(),
            ps == profiles_view(profiles@),
            index_of(ps.subrange(0, i as int), name@) is None,
        decreases profiles.len() - i,
    {
        let ghost pre = ps.subrange(0, i as int);
        assert(ps.subrange(0, i + 1).drop_last() =~= pre);
        if profiles[i].name == *name {
            assert(index_of(ps.subrange(0, i + 1), name@) == Some(i as int));
            proof {
                lemma_index_of_extend(ps, i as int + 1, name@);
            }
            return Some(i);
        }
        i = i + 1;
    }
    assert(ps.subrange(0, ps.len() as int) =~= ps);
    None
}

/// The index found for a name is in range and names that profile.
pub proof fn lemma_index_of_valid(ps: Seq<ProfileView>, name: Seq<char>)
    ensures
        match index_of(ps, name) {
            Some(i) => 0 <= i < ps.len() && ps[i].name == name,
            None => forall|j: int| 0 <= j < ps.len() ==> ps[j].name != name,
        },
    decreases ps.len(),
{
    if ps.len() > 0 {
        lemma_index_of_valid(ps.drop_last(), name);
        assert forall|j: int| 0 <= j < ps.len() - 1 implies ps.drop_last()[j] == ps[j] by {}
    }
}

proof fn lemma_index_of_extend(ps: Seq<ProfileView>, n: int, name: Seq<char>)
    requires
        0 <= n <= ps.len(),
        index_of(ps.subrange(0, n), name) is Some,
    ensures
        index_of(ps, name) == index_of(ps.subrange(0, n), name),
    decreases ps.len() - n,
{
    if n < ps.len() {
        assert(ps.subrange(0, n + 1).drop_last() =~= ps.subrange(0, n));
        lemma_index_of_extend(ps, n + 1, name);
    } else {
        assert(ps.subrange(0, n) =~= ps);
    }
}

/// The command that tears the connected profile's tunnel down; the state
/// itself is left for the reconciler to change.
pub fn teardown_command(state: &ConnectionState, profiles: &Vec<VpnProfile>) -> (r: Option<Command>)
    ensures
        match r {
            Some(c) => teardown_for(state@, profiles_view(profiles@)) == Some(c@),
            None => teardown_for(state@, profiles_view(profiles@)) is None,
        },
{
    match state {
        ConnectionState::Connected { profile, .. } => match find_profile(profiles, profile) {
            Some(i) => Some(
                Command::TearDown {
                    protocol: profiles[i].protocol,
                    config_path: profiles[i].config_path.clone(),
                },
            ),
            None => None,
        },
        _ => None,
    }
}

fn idle() -> (r: Plan)
    ensures
        r@ == idle_plan(),
{
    let r = Plan { commands: Vec::new(), next_state: None, modal: None, notice: None };
    assert(r@.commands =~= seq![]);
    r
}

/// Plans connecting to the profile at `idx`.
pub fn plan_connect(profiles: &Vec<VpnProfile>, idx: usize, pre: &Preflight, clock: Clock) -> (r: Plan)
    ensures
        r@ == connect_spec(profiles_view(profiles@), idx as int, *pre, clock),
{
    if idx >= profiles.len() {
        return idle();
    }
    let p = &profiles[idx];
    let missing = match p.protocol {
        Protocol::WireGuard => &pre.missing_wireguard,
        Protocol::OpenVPN => &pre.missing_openvpn,
    };
    if missing.len() > 0 {
        let mut r = idle();
        r.modal = Some(InputMode::DependencyError { protocol: p.protocol, missing: copy_texts(missing) });
        return r;
    }
    if !pre.is_root {
        let mut action = String::from_str("Manage ");
        action.append(p.protocol.name());
        let mut r = idle();
        r.modal = Some(InputMode::PermissionDenied { action });
        return r;
    }
    let mut commands: Vec<Command> = Vec::new();
    commands.push(Command::BringUp { protocol: p.protocol, config_path: p.config_path.clone() });
    let r = Plan {
        commands,
        next_state: Some(ConnectionState::Connecting { started: clock.mono_ms, profile: p.name.clone() }),
        modal: None,
        notice: None,
    };
    assert(r@.commands =~= connect_spec(profiles_view(profiles@), idx as int, *pre, clock).commands);
    r
}

fn prepend_teardown(down: Option<Command>, plan: Plan) -> (r: Plan)
    ensures
        r@ == after_teardown(
            match down {
                Some(c) => Some(c@),
                None => None,
            },
            plan@,
        ),
{
    match down {
        Some(c) => {
            let mut commands: Vec<Command> = Vec::new();
            commands.push(c);
            let Plan { commands: rest, next_state, modal, notice } = plan;
            let mut rest = rest;
            let ghost rest0 = rest@;
            commands.append(&mut rest);
            assert(commands_view(commands@) =~= seq![c@] + commands_view(rest0));
            Plan { commands, next_state, modal, notice }
        },
        None => plan,
    }
}

/// Plans toggling the profile at `idx`.
pub fn plan_toggle(
    state: &ConnectionState,
    profiles: &Vec<VpnProfile>,
    idx: usize,
    pre: &Preflight,
    clock: Clock,
) -> (r: Plan)
    ensures
        r@ == toggle_spec(state@, profiles_view(profiles@), idx as int, *pre, clock),
{
    if idx >= profiles.len() {
        return idle();
    }
    match state {
        ConnectionState::Connecting { .. } => {
            let mut r = idle();
            r.notice = Some(String::from_str("Connection in progress..."));
            r
        },
        ConnectionState::Connected { profile, .. } => {
            let down = teardown_command(state, profiles);
            if *profile == profiles[idx].name {
                prepend_teardown(down, idle())
            } else {
                prepend_teardown(down, plan_connect(profiles, idx, pre, clock))
            }
        },
        ConnectionState::Disconnected => plan_connect(profiles, idx, pre, clock),
    }
}

/// Plans reconnecting the connected profile.
pub fn plan_reconnect(
    state: &ConnectionState,
    profiles: &Vec<VpnProfile>,
    pre: &Preflight,
    clock: Clock,
) -> (r: Plan)
    ensures
        r@ == reconnect_spec(state@, profiles_view(profiles@), *pre, clock),
{
    match state {
        ConnectionState::Connected { profile, .. } => match find_profile(profiles, profile) {
            Some(i) => prepend_teardown(
                teardown_command(state, profiles),
                plan_connect(profiles, i, pre, clock),
            ),
            None => idle(),
        },
        _ => idle(),
    }
}

} // verus!

verus! {

/// Switching profiles: toggling another profile while one is connected
/// issues the connected profile's tear-down before anything else; once the
/// preflight checks pass, the bring-up of the target follows it and the
/// state becomes `Connecting` to the target.
pub proof fn lemma_switch_tears_down_first(
    s: StateView,
    ps: Seq<ProfileView>,
    idx: int,
    pre: Preflight,
    clock: Clock,
)
    requires
        s is Connected,
        0 <= idx < ps.len(),
        ps[idx].name != s->Connected_profile,
        index_of(ps, s->Connected_profile) is Some,
    ensures
        ({
            let plan = toggle_spec(s, ps, idx, pre, clock);
            let i = index_of(ps, s->Connected_profile)->Some_0;
            let down = CommandView::TearDown {
                protocol: ps[i].protocol,
                config_path: ps[i].config_path,
            };
            let up = CommandView::BringUp {
                protocol: ps[idx].protocol,
                config_path: ps[idx].config_path,
            };
            &&& plan.commands.len() >= 1
            &&& plan.commands[0] == down
            &&& (missing_for(pre, ps[idx].protocol).len() == 0 && pre.is_root) ==> {
                &&& plan.commands == seq![down, up]
                &&& plan.next_state == Some(
                    StateView::Connecting { started: clock.mono_ms, profile: ps[idx].name },
                )
            }
            &&& !(missing_for(pre, ps[idx].protocol).len() == 0 && pre.is_root) ==> {
                &&& plan.commands == seq![down]
                &&& plan.next_state is None
                &&& plan.modal is Some
            }
        }),
{
    lemma_index_of_valid(ps, s->Connected_profile);
    let plan = toggle_spec(s, ps, idx, pre, clock);
    let i = index_of(ps, s->Connected_profile)->Some_0;
    let down = CommandView::TearDown { protocol: ps[i].protocol, config_path: ps[i].config_path };
    let up = CommandView::BringUp { protocol: ps[idx].protocol, config_path: ps[idx].config_path };
    if missing_for(pre, ps[idx].protocol).len() == 0 && pre.is_root {
        assert(plan.commands =~= seq![down, up]);
    } else {
        assert(plan.commands =~= seq![down]);
    }
}

/// Intents may only enter `Connecting`: no plan ever confirms or drops a
/// connection, which is left to the reconciler.
pub proof fn lemma_plans_only_enter_connecting(
    s: StateView,
    ps: Seq<ProfileView>,
    idx: int,
    pre: Preflight,
    clock: Clock,
)
    ensures
        match toggle_spec(s, ps, idx, pre, clock).next_state {
            Some(n) => n is Connecting,
            None => true,
        },
        match reconnect_spec(s, ps, pre, clock).next_state {
            Some(n) => n is Connecting,
            None => true,
        },
{
}

} // verus!
