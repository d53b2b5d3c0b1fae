//! The session scanner's logic: which commands reveal a profile's tunnel,
//! and how their output becomes an [`ActiveSession`].
//!
//! The caller runs the commands; a field whose output is missing or
//! malformed stays empty instead of failing the scan.
use vstd::prelude::*;
use vstd::string::*;
use crate::text::{
    chars_of, find, find_from, find_from_chars, has_prefix, lines, lines_of, pieces, pieces_of,
    replace, replace_chars, seqs, slice_chars, string_of, strip_prefix_chars, starts_with_chars,
    trim, trim_chars, words, words_of,
};
use crate::types::{profiles_view, ActiveSession, DetailsView, ProfileView, SessionView, VpnProfile};

verus! {

/// Details with every field empty.
pub open spec fn blank_details() -> DetailsView {
    DetailsView {
        internal_ip: seq![],
        endpoint: seq![],
        mtu: seq![],
        public_key: seq![],
        listen_port: seq![],
        transfer_rx: seq![],
        transfer_tx: seq![],
        latest_handshake: seq![],
    }
}

/// A session with no name, no start and blank details.
pub fn blank_session() -> (r: ActiveSession)
    ensures
        r@ == (SessionView { name: seq![], started_at: None, details: blank_details() }),
{
    ActiveSession {
        name: String::new(),
        started_at: None,
        internal_ip: String::new(),
        endpoint: String::new(),
        mtu: String::new(),
        public_key: String::new(),
        listen_port: String::new(),
        transfer_rx: String::new(),
        transfer_tx: String::new(),
        latest_handshake: String::new(),
    }
}

/// The rest of `l` after the prefix `p`.
pub open spec fn after_prefix(l: Seq<char>, p: Seq<char>) -> Seq<char> {
    l.subrange(p.len() as int, l.len() as int)
}

/// What one trimmed line of a `wg show` dump sets.
pub open spec fn wg_line(d: DetailsView, l: Seq<char>) -> DetailsView {
    let d1 = if has_prefix(l, "public key: "@) {
        DetailsView { public_key: after_prefix(l, "public key: "@), ..d }
    } else {
        d
    };
    let d2 = if has_prefix(l, "listening port: "@) {
        DetailsView { listen_port: after_prefix(l, "listening port: "@), ..d1 }
    } else {
        d1
    };
    let d3 = if has_prefix(l, "endpoint: "@) {
        DetailsView { endpoint: after_prefix(l, "endpoint: "@), ..d2 }
    } else {
        d2
    };
    let d4 = if has_prefix(l, "latest handshake: "@) {
        DetailsView { latest_handshake: after_prefix(l, "latest handshake: "@), ..d3 }
    } else {
        d3
    };
    if has_prefix(l, "transfer: "@) && pieces(after_prefix(l, "transfer: "@), ',').len() >= 2 {
        let parts = pieces(after_prefix(l, "transfer: "@), ',');
        DetailsView {
            transfer_rx: replace(trim(parts[0]), " received"@, seq![]),
            transfer_tx: replace(trim(parts[1]), " sent"@, seq![]),
            ..d4
        }
    } else {
        d4
    }
}

/// The details a `wg show` dump sets, line by line, each line trimmed.
pub open spec fn wg_details(d: DetailsView, ls: Seq<Seq<char>>) -> DetailsView
    decreases ls.len(),
{
    if ls.len() == 0 {
        d
    } else {
        wg_line(wg_details(d, ls.drop_last()), trim(ls.last()))
    }
}

/// The text after the first `p` in `l`, up to the next `p` if any.
pub open spec fn after_marker(l: Seq<char>, p: Seq<char>) -> Option<Seq<char>> {
    match find(l, p) {
        Some(k) => {
            let st = k + p.len();
            match find_from(l, p, st) {
                Some(k2) => Some(l.subrange(st, k2)),
                None => Some(l.subrange(st, l.len() as int)),
            }
        },
        None => None,
    }
}

/// What one trimmed line of an `ifconfig` listing sets: the address from
/// an `inet` line, the MTU after `mtu `.
pub open spec fn ifconfig_line(d: DetailsView, l: Seq<char>) -> DetailsView {
    let d1 = if has_prefix(l, "inet "@) && words(l).len() >= 2 {
        DetailsView { internal_ip: words(l)[1], ..d }
    } else {
        d
    };
    match after_marker(l, "mtu "@) {
        Some(v) => DetailsView { mtu: v, ..d1 },
        None => d1,
    }
}

/// The details an `ifconfig` listing sets, line by line, each line trimmed.
pub open spec fn ifconfig_details(d: DetailsView, ls: Seq<Seq<char>>) -> DetailsView
    decreases ls.len(),
{
    if ls.len() == 0 {
        d
    } else {
        ifconfig_line(ifconfig_details(d, ls.drop_last()), trim(ls.last()))
    }
}

fn set_after_prefix(l: &Vec<char>, p: &str, field: &mut String)
    ensures
        has_prefix(l@, p@) ==> final(field)@ == after_prefix(l@, p@),
        !has_prefix(l@, p@) ==> final(field)@ == old(field)@,
{
    let pc = chars_of(p);
    if let Some(v) = strip_prefix_chars(l, &pc) {
        *field = string_of(&v);
    }
}

fn without(s: &Vec<char>, word: &str) -> (r: Vec<char>)
    ensures
        r@ == replace(s@, word@, seq![]),
{
    let none: Vec<char> = Vec::new();
    assert(none@ =~= Seq::<char>::empty());
    replace_chars(s, &chars_of(word), &none)
}

/// Applies one line of a `wg show` dump to a session's details.
fn apply_wg_line(line: &Vec<char>, s: &mut ActiveSession)
    ensures
        final(s)@ == (SessionView { details: wg_line(old(s)@.details, trim(line@)), ..old(s)@ }),
{
    let l = trim_chars(line);
    set_after_prefix(&l, "public key: ", &mut s.public_key);
    set_after_prefix(&l, "listening port: ", &mut s.listen_port);
    set_after_prefix(&l, "endpoint: ", &mut s.endpoint);
    set_after_prefix(&l, "latest handshake: ", &mut s.latest_handshake);
    if let Some(v) = strip_prefix_chars(&l, &chars_of("transfer: ")) {
        let parts = pieces_of(&v, ',');
        if parts.len() >= 2 {
            assert(parts[0]@ == seqs(parts@)[0] && parts[1]@ == seqs(parts@)[1]);
            s.transfer_rx = string_of(&without(&trim_chars(&parts[0]), " received"));
            s.transfer_tx = string_of(&without(&trim_chars(&parts[1]), " sent"));
        }
    }
}

/// Reads handshake age, keys, ports, endpoint and transfer counters from a
/// `wg show <interface>` dump into a session; fields the dump does not
/// mention keep their value.
pub fn parse_wg_show(out: &str, s: &mut ActiveSession)
    ensures
        final(s)@ == (SessionView {
            details: wg_details(old(s)@.details, lines(out@)),
            ..old(s)@
        }),
{
    let c = chars_of(out);
    let ls = lines_of(&c);
    let ghost all = seqs(ls@);
    let mut i: usize = 0;
    assert(all.subrange(0, 0) =~= Seq::<Seq<char>>::empty());
    while i < ls.len()
        invariant
            i <= ls.len(),
            all == seqs(ls@),
            all == lines(out@),
            s@ == (SessionView { details: wg_details(old(s)@.details, all.subrange(0, i as int)), ..old(s)@ }),
        decreases ls.len() - i,
    {
        assert(all.subrange(0, i + 1).drop_last() =~= all.subrange(0, i as int));
        apply_wg_line(&ls[i], s);
        i = i + 1;
    }
    assert(all.subrange(0, i as int) =~= all);
}

fn marker_text(l: &Vec<char>, p: &str) -> (r: Option<Vec<char>>)
    ensures
        match r {
            Some(v) => after_marker(l@, p@) == Some(v@),
            None => after_marker(l@, p@) is None,
        },
{
    let pc = chars_of(p);
    match find_from_chars(l, &pc, 0) {
        Some(k) => {
            let n = l.len();
            let st = k + pc.len();
            match find_from_chars(l, &pc, st) {
                Some(k2) => Some(slice_chars(l, st, k2)),
                None => Some(slice_chars(l, st, n)),
            }
        },
        None => None,
    }
}

/// Applies one line of an `ifconfig` listing to a session's details.
fn apply_ifconfig_line(line: &Vec<char>, s: &mut ActiveSession)
    ensures
        final(s)@ == (SessionView { details: ifconfig_line(old(s)@.details, trim(line@)), ..old(s)@ }),
{
    let l = trim_chars(line);
    if starts_with_chars(&l, &chars_of("inet ")) {
        let w = words_of(&l);
        if w.len() >= 2 {
            assert(w[1]@ == seqs(w@)[1]);
            s.internal_ip = string_of(&w[1]);
        }
    }
    if let Some(v) = marker_text(&l, "mtu ") {
        s.mtu = string_of(&v);
    }
}

/// Reads the internal address and the MTU from an `ifconfig <interface>`
/// listing into a session; fields the listing does not mention keep their
/// value.
pub fn parse_ifconfig(out: &str, s: &mut ActiveSession)
    ensures
        final(s)@ == (SessionView {
            details: ifconfig_details(old(s)@.details, lines(out@)),
            ..old(s)@
        }),
{
    let c = chars_of(out);
    let ls = lines_of(&c);
    let ghost all = seqs(ls@);
    let mut i: usize = 0;
    assert(all.subrange(0, 0) =~= Seq::<Seq<char>>::empty());
    while i < ls.len()
        invariant
            i <= ls.len(),
            all == seqs(ls@),
            all == lines(out@),
            s@ == (SessionView { details: ifconfig_details(old(s)@.details, all.subrange(0, i as int)), ..old(s)@ }),
        decreases ls.len() - i,
    {
        assert(all.subrange(0, i + 1).drop_last() =~= all.subrange(0, i as int));
        apply_ifconfig_line(&ls[i], s);
        i = i + 1;
    }
    assert(all.subrange(0, i as int) =~= all);
}

/// Details of a `WireGuard` tunnel from its diagnostic dumps, when the
/// commands produced output.
pub open spec fn wireguard_details(wg_show: Option<Seq<char>>, ifconfig: Option<Seq<char>>) -> DetailsView {
    let d = match wg_show {
        Some(o) => wg_details(blank_details(), lines(o)),
        None => blank_details(),
    };
    match ifconfig {
        Some(o) => ifconfig_details(d, lines(o)),
        None => d,
    }
}

/// The session of an existing `WireGuard` interface, from its start time
/// and the output of `wg show` and of `ifconfig` for it (each if the
/// command ran).
pub fn wireguard_session(started_at: Option<u64>, wg_show: Option<&str>, ifconfig: Option<&str>) -> (r: ActiveSession)
    ensures
        r@ == (SessionView {
            name: seq![],
            started_at,
            details: wireguard_details(
                match wg_show {
                    Some(o) => Some(o@),
                    None => None,
                },
                match ifconfig {
                    Some(o) => Some(o@),
                    None => None,
                },
            ),
        }),
{
    let mut s = blank_session();
    s.started_at = started_at;
    if let Some(o) = wg_show {
        parse_wg_show(o, &mut s);
    }
    if let Some(o) = ifconfig {
        parse_ifconfig(o, &mut s);
    }
    s
}

/// Marker shown as the internal address of an `OpenVPN` tunnel, whose
/// statistics are not available.
pub open spec fn openvpn_marker() -> Seq<char> {
    "OpenVPN (Active)"@
}

/// The session of a running `OpenVPN` process: only the active marker.
pub fn openvpn_session() -> (r: ActiveSession)
    ensures
        r@ == (SessionView {
            name: seq![],
            started_at: None,
            details: DetailsView { internal_ip: openvpn_marker(), ..blank_details() },
        }),
{
    let mut s = blank_session();
    s.internal_ip = String::from_str("OpenVPN (Active)");
    s
}

/// File that maps a `WireGuard` profile to its system interface.
pub open spec fn name_file_path(name: Seq<char>) -> Seq<char> {
    "/var/run/wireguard/"@ + name + ".name"@
}

/// Path of the file that records the system interface of a `WireGuard`
/// profile.
pub fn wireguard_name_file(name: &String) -> (r: String)
    ensures
        r@ == name_file_path(name@),
{
    let mut r = String::from_str("/var/run/wireguard/");
    r.append(name.as_str());
    r.append(".name");
    r
}

/// The system interface of a `WireGuard` profile: the trimmed content of
/// its name file when that could be read, else the profile name.
pub fn interface_name(name: &String, name_file: Option<&str>) -> (r: String)
    ensures
        r@ == match name_file {
            Some(c) => trim(c@),
            None => name@,
        },
{
    match name_file {
        Some(c) => string_of(&trim_chars(&chars_of(c))),
        None => name.clone(),
    }
}

/// Process-table pattern that matches an `OpenVPN` daemon run on a
/// configuration file.
pub fn openvpn_pattern(config_path: &String) -> (r: String)
    ensures
        r@ == "openvpn.*"@ + config_path@,
{
    let mut r = String::from_str("openvpn.*");
    r.append(config_path.as_str());
    r
}

/// The sessions found for the first `n` profiles, in profile order, each
/// named after its profile.
pub open spec fn named_sessions(ps: Seq<ProfileView>, probes: Seq<Option<SessionView>>, n: int) -> Seq<SessionView>
    decreases n,
{
    if n <= 0 {
        seq![]
    } else {
        let before = named_sessions(ps, probes, n - 1);
        match probes[n - 1] {
            Some(s) => before.push(SessionView { name: ps[n - 1].name, ..s }),
            None => before,
        }
    }
}

/// The values of a list of probe results.
pub open spec fn probes_view(v: Seq<Option<ActiveSession>>) -> Seq<Option<SessionView>> {
    v.map_values(|o: Option<ActiveSession>| match o {
        Some(s) => Some(s@),
        None => None,
    })
}

/// Collects the active sessions of the known profiles: `probes[i]` is what
/// probing profile `i` found; each session found is named after its
/// profile. Profiles without a probe result count as inactive.
pub fn get_active_profiles(profiles: &Vec<VpnProfile>, probes: &Vec<Option<ActiveSession>>) -> (r: Vec<ActiveSession>)
    ensures
        r@.map_values(|s: ActiveSession| s@) == named_sessions(
            profiles_view(profiles@),
            probes_view(probes@),
            if profiles.len() <= probes.len() { profiles.len() as int } else { probes.len() as int },
        ),
{
    let n = if profiles.len() <= probes.len() {
        profiles.len()
    } else {
        probes.len()
    };
    let mut r: Vec<ActiveSession> = Vec::new();
    let mut i: usize = 0;
    while i < n
        invariant
            i <= n,
            n <= profiles.len(),
            n <= probes.len(),
            r@.map_values(|s: ActiveSession| s@) == named_sessions(
                profiles_view(profiles@),
                probes_view(probes@),
                i as int,
            ),
        decreases n - i,
    {
        let ghost before = r@.map_values(|s: ActiveSession| s@);
        match &probes[i] {
            Some(found) => {
                let mut s = found.copied();
                s.name = profiles[i].name.clone();
                r.push(s);
                assert(r@.map_values(|s: ActiveSession| s@) =~= before.push(
                    SessionView { name: profiles@[i as int].name@, ..found@ },
                ));
            },
            None => {},
        }
        i = i + 1;
    }
    r
}

} // verus!
