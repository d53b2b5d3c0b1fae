//! How an intent and the observations that follow it fit together.
use vstd::prelude::*;
use crate::orchestrator::{connect_spec, missing_for, toggle_spec, CommandView, Preflight};
use crate::reconciler::{established_message, reconcile_step};
use crate::types::{Clock, ProfileView, Protocol, SessionView, StateView};

verus! {

/// From a disconnected start with a `WireGuard` profile `a` and an
/// `OpenVPN` profile `b`: toggling `a` with the preflight checks passing
/// enters `Connecting(a)` and brings `a` up; the next tick that observes a
/// session of `a` connects with zero latency, starting now, and logs one
/// "established" line among the connect messages; two further ticks that
/// observe `a` with new counters keep the state connected with the new
/// details and the same start, and log nothing.
pub proof fn lemma_connect_then_observe(
    a: ProfileView,
    b: ProfileView,
    pre: Preflight,
    c0: Clock,
    s1: SessionView,
    c1: Clock,
    s2: SessionView,
    c2: Clock,
    s3: SessionView,
    c3: Clock,
)
    requires
        a.protocol == Protocol::WireGuard,
        b.protocol == Protocol::OpenVPN,
        a.name != b.name,
        missing_for(pre, Protocol::WireGuard).len() == 0,
        pre.is_root,
        s1.name == a.name && s1.started_at is None,
        s2.name == a.name && s2.started_at is None,
        s3.name == a.name && s3.started_at is None,
    ensures
        ({
            let ps = seq![a, b];
            let plan = toggle_spec(StateView::Disconnected, ps, 0, pre, c0);
            let connecting = StateView::Connecting { started: c0.mono_ms, profile: a.name };
            let t1 = reconcile_step(connecting, None, ps, Some(s1), c1);
            let t2 = reconcile_step(t1.state, t1.session_start, ps, Some(s2), c2);
            let t3 = reconcile_step(t2.state, t2.session_start, ps, Some(s3), c3);
            &&& plan.commands == seq![
                CommandView::BringUp { protocol: Protocol::WireGuard, config_path: a.config_path },
            ]
            &&& plan.next_state == Some(connecting)
            &&& t1.state == StateView::Connected {
                since: c1.mono_ms,
                profile: a.name,
                location: a.location,
                latency_ms: 0,
                details: s1.details,
            }
            &&& t1.log.len() == 2
            &&& t1.log[0] == established_message(a.name)
            &&& t1.log[1] != established_message(a.name)
            &&& t2.state == StateView::Connected {
                since: c1.mono_ms,
                profile: a.name,
                location: a.location,
                latency_ms: 0,
                details: s2.details,
            }
            &&& t3.state == StateView::Connected {
                since: c1.mono_ms,
                profile: a.name,
                location: a.location,
                latency_ms: 0,
                details: s3.details,
            }
            &&& t2.log.len() == 0
            &&& t3.log.len() == 0
        }),
{
    let ps = seq![a, b];
    let plan = connect_spec(ps, 0, pre, c0);
    assert(plan.commands =~= seq![
        CommandView::BringUp { protocol: Protocol::WireGuard, config_path: a.config_path },
    ]);
    let t1_log = seq![established_message(a.name), "INFO: Waiting for telemetry..."@];
    assert(established_message(a.name).len() > "INFO: Waiting for telemetry..."@.len()) by {
        reveal_strlit("STATUS: Connection established to '");
        reveal_strlit("INFO: Waiting for telemetry...");
    }
}

} // verus!
