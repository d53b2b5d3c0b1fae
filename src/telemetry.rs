//! Telemetry: the updates the background worker delivers, the parsing of
//! the probes' output, and the throughput sampler.
use vstd::prelude::*;
use crate::text::{
    chars_of, find, find_from_chars, has_prefix, lines, lines_of, parse_u64, parse_u64_chars,
    replace, replace_chars, seqs, slice_chars, starts_with_chars, string_of, trim, trim_chars,
    trim_start, trim_start_chars, words, words_of,
};

verus! {

/// One fact delivered by the telemetry worker.
#[derive(Debug)]
pub enum TelemetryUpdate {
    /// Public address.
    PublicIp(String),
    /// Round-trip latency in milliseconds.
    Latency(u64),
    /// Provider or organisation name.
    Isp(String),
    /// DNS resolver address.
    Dns(String),
    /// Whether IPv6 traffic escapes the tunnel.
    Ipv6Leak(bool),
}

/// Mathematical value of a [`TelemetryUpdate`].
pub ghost enum UpdateView {
    PublicIp(Seq<char>),
    Latency(u64),
    Isp(Seq<char>),
    Dns(Seq<char>),
    Ipv6Leak(bool),
}

impl View for TelemetryUpdate {
    type V = UpdateView;

    open spec fn view(&self) -> UpdateView {
        match self {
            TelemetryUpdate::PublicIp(s) => UpdateView::PublicIp(s@),
            TelemetryUpdate::Latency(ms) => UpdateView::Latency(*ms),
            TelemetryUpdate::Isp(s) => UpdateView::Isp(s@),
            TelemetryUpdate::Dns(s) => UpdateView::Dns(s@),
            TelemetryUpdate::Ipv6Leak(b) => UpdateView::Ipv6Leak(*b),
        }
    }
}

/// The values of a list of updates.
pub open spec fn updates_view(v: Seq<TelemetryUpdate>) -> Seq<UpdateView> {
    v.map_values(|u: TelemetryUpdate| u@)
}

/// Updates an address lookup's JSON answer yields: the public address from
/// `ip`, then the provider from `org`, each when present.
pub open spec fn address_updates_spec(body: Seq<char>) -> Seq<UpdateView> {
    let ip = match json_string_value(body, "ip"@) {
        Some(v) => seq![UpdateView::PublicIp(v)],
        None => seq![],
    };
    let org = match json_string_value(body, "org"@) {
        Some(v) => seq![UpdateView::Isp(v)],
        None => seq![],
    };
    ip + org
}

/// The string value of `key` in a flat JSON object: the text between the
/// quotes that follow the first `"key":`, after optional white space.
pub open spec fn json_string_value(json: Seq<char>, key: Seq<char>) -> Option<Seq<char>> {
    let pat = seq!['"'] + key + seq!['"', ':'];
    match find(json, pat) {
        None => None,
        Some(k) => {
            let rest = trim_start(json.subrange(k + pat.len(), json.len() as int));
            if rest.len() > 0 && rest[0] == '"' {
                let body = rest.drop_first();
                match find(body, seq!['"']) {
                    Some(e) => Some(body.subrange(0, e)),
                    None => None,
                }
            } else {
                None
            }
        }
    }
}

/// Extracts the string value of `key` from a flat JSON object, looking for
/// `"key":` followed by a quoted string.
pub fn extract_json_string(json: &str, key: &str) -> (r: Option<String>)
    ensures
        match r {
            Some(v) => json_string_value(json@, key@) == Some(v@),
            None => json_string_value(json@, key@) is None,
        },
{
    let j = chars_of(json);
    let mut pat: Vec<char> = Vec::new();
    pat.push('"');
    let k = chars_of(key);
    let mut i: usize = 0;
    while i < k.len()
        invariant
            i <= k.len(),
            pat@ == seq!['"'] + k@.subrange(0, i as int),
        decreases k.len() - i,
    {
        pat.push(k[i]);
        assert(k@.subrange(0, i + 1) =~= k@.subrange(0, i as int).push(k@[i as int]));
        i = i + 1;
    }
    pat.push('"');
    pat.push(':');
    assert(k@.subrange(0, k.len() as int) =~= k@);
    assert(pat@ =~= seq!['"'] + key@ + seq!['"', ':']);
    let start = match find_from_chars(&j, &pat, 0) {
        Some(s) => s,
        None => return None,
    };
    let n = j.len();
    let tail = slice_chars(&j, start + pat.len(), n);
    let rest = trim_start_chars(&tail);
    if rest.len() == 0 || rest[0] != '"' {
        return None;
    }
    let body = slice_chars(&rest, 1, rest.len());
    assert(body@ =~= rest@.drop_first());
    let mut quote: Vec<char> = Vec::new();
    quote.push('"');
    assert(quote@ =~= seq!['"']);
    match find_from_chars(&body, &quote, 0) {
        Some(e) => Some(string_of(&slice_chars(&body, 0, e))),
        None => None,
    }
}

/// The updates that an address lookup's JSON answer yields: the public
/// address from `ip`, then the provider from `org`, each when present.
pub fn address_updates(body: &str) -> (r: Vec<TelemetryUpdate>)
    ensures
        updates_view(r@) == address_updates_spec(body@),
{
    let mut r: Vec<TelemetryUpdate> = Vec::new();
    if let Some(ip) = extract_json_string(body, "ip") {
        r.push(TelemetryUpdate::PublicIp(ip));
    }
    if let Some(org) = extract_json_string(body, "org") {
        r.push(TelemetryUpdate::Isp(org));
    }
    assert(updates_view(r@) =~= address_updates_spec(body@));
    r
}

/// The latency figure of a ping reply: the text between the first `time=`
/// and the ` ms` after it.
pub open spec fn latency_text(out: Seq<char>) -> Option<Seq<char>> {
    match find(out, "time="@) {
        None => None,
        Some(k) => {
            let part = out.subrange(k + 5, out.len() as int);
            match find(part, " ms"@) {
                Some(m) => Some(part.subrange(0, m)),
                None => None,
            }
        },
    }
}

/// Finds the latency figure in a ping reply, as text; turning it into a
/// number is left to the caller.
pub fn latency_field(out: &str) -> (r: Option<String>)
    ensures
        match r {
            Some(v) => latency_text(out@) == Some(v@),
            None => latency_text(out@) is None,
        },
{
    let s = chars_of(out);
    let marker = chars_of("time=");
    proof {
        reveal_strlit("time=");
    }
    let k = match find_from_chars(&s, &marker, 0) {
        Some(k) => k,
        None => return None,
    };
    assert(marker@.len() == 5);
    let n = s.len();
    let part = slice_chars(&s, k + 5, n);
    let unit = chars_of(" ms");
    match find_from_chars(&part, &unit, 0) {
        Some(m) => Some(string_of(&slice_chars(&part, 0, m))),
        None => None,
    }
}

/// The resolver named on the first line of a `nameserver` listing: the
/// line with the word `nameserver` removed and white space trimmed, when
/// something is left.
pub open spec fn dns_text(out: Seq<char>) -> Option<Seq<char>> {
    let ls = lines(out);
    if ls.len() == 0 {
        None
    } else {
        let dns = trim(replace(ls[0], "nameserver"@, seq![]));
        if dns.len() > 0 {
            Some(dns)
        } else {
            None
        }
    }
}

/// Reads the resolver address from the `nameserver` lines of the resolver
/// configuration.
pub fn dns_server(out: &str) -> (r: Option<String>)
    ensures
        match r {
            Some(v) => dns_text(out@) == Some(v@),
            None => dns_text(out@) is None,
        },
{
    let s = chars_of(out);
    let ls = lines_of(&s);
    if ls.len() == 0 {
        return None;
    }
    assert(ls[0]@ == seqs(ls@)[0]);
    let word = chars_of("nameserver");
    let none: Vec<char> = Vec::new();
    assert(none@ =~= Seq::<char>::empty());
    let dns = trim_chars(&replace_chars(&ls[0], &word, &none));
    if dns.len() > 0 {
        Some(string_of(&dns))
    } else {
        None
    }
}

/// `a + b`, or the largest `u64` when that overflows.
pub open spec fn sat_add(a: u64, b: u64) -> u64 {
    if a + b > u64::MAX {
        u64::MAX
    } else {
        (a + b) as u64
    }
}

/// Received and transmitted byte counters of one line of an interface
/// table (`netstat -ib`): the seventh and tenth columns, for an interface
/// whose name does not begin with `lo`.
pub open spec fn interface_counts(line: Seq<char>) -> Option<(u64, u64)> {
    let w = words(line);
    if w.len() >= 10 && !has_prefix(w[0], "lo"@) && parse_u64(w[6]) is Some && parse_u64(w[9]) is Some {
        Some((parse_u64(w[6])->Some_0, parse_u64(w[9])->Some_0))
    } else {
        None
    }
}

/// Counters summed over interface table lines, saturating.
pub open spec fn sum_counts(ls: Seq<Seq<char>>) -> (u64, u64)
    decreases ls.len(),
{
    if ls.len() == 0 {
        (0, 0)
    } else {
        let (a, b) = sum_counts(ls.drop_last());
        match interface_counts(ls.last()) {
            Some((x, y)) => (sat_add(a, x), sat_add(b, y)),
            None => (a, b),
        }
    }
}

/// Totals of an interface table: the sums over all lines but the header.
pub open spec fn interface_totals(out: Seq<char>) -> (u64, u64) {
    let ls = lines(out);
    if ls.len() == 0 {
        (0, 0)
    } else {
        sum_counts(ls.drop_first())
    }
}

fn counts_of_line(line: &Vec<char>) -> (r: Option<(u64, u64)>)
    ensures
        r == interface_counts(line@),
{
    let w = words_of(line);
    if w.len() < 10 {
        return None;
    }
    assert(w[0]@ == words(line@)[0] && w[6]@ == words(line@)[6] && w[9]@ == words(line@)[9]);
    if starts_with_chars(&w[0], &chars_of("lo")) {
        return None;
    }
    match (parse_u64_chars(&w[6]), parse_u64_chars(&w[9])) {
        (Some(i), Some(o)) => Some((i, o)),
        _ => None,
    }
}

fn add_saturating(a: u64, b: u64) -> (r: u64)
    ensures
        r == sat_add(a, b),
{
    if a > u64::MAX - b {
        u64::MAX
    } else {
        a + b
    }
}

/// Sums the byte counters of an interface table (`netstat -ib`), skipping
/// the header, loopback interfaces and lines whose counters do not parse.
pub fn parse_interface_totals(out: &str) -> (r: (u64, u64))
    ensures
        r == interface_totals(out@),
{
    let s = chars_of(out);
    let ls = lines_of(&s);
    if ls.len() == 0 {
        return (0, 0);
    }
    let ghost body = seqs(ls@).drop_first();
    let mut total_in: u64 = 0;
    let mut total_out: u64 = 0;
    let mut i: usize = 1;
    assert(body.subrange(0, 0) =~= Seq::<Seq<char>>::empty());
    while i < ls.len()
        invariant
            1 <= i <= ls.len(),
            body == seqs(ls@).drop_first(),
            (total_in, total_out) == sum_counts(body.subrange(0, i - 1)),
        decreases ls.len() - i,
    {
        assert(body.subrange(0, i as int).drop_last() =~= body.subrange(0, i - 1));
        assert(body.subrange(0, i as int).last() == ls[i as int]@);
        if let Some((a, b)) = counts_of_line(&ls[i]) {
            total_in = add_saturating(total_in, a);
            total_out = add_saturating(total_out, b);
        }
        i = i + 1;
    }
    assert(body.subrange(0, i - 1) =~= body);
    (total_in, total_out)
}

/// Throughput between two readings of a cumulative counter; a counter
/// that went down (reset, interface churn) gives zero.
pub open spec fn rate(now: u64, last: u64) -> u64 {
    if now >= last {
        (now - last) as u64
    } else {
        0
    }
}

/// Per-tick throughput from cumulative byte counters.
#[derive(Debug)]
pub struct NetworkStats {
    /// Received total at the previous reading.
    pub last_bytes_in: u64,
    /// Transmitted total at the previous reading.
    pub last_bytes_out: u64,
    /// Whether a previous reading exists.
    pub has_baseline: bool,
}

impl NetworkStats {
    /// A sampler with no previous reading.
    pub fn new() -> (r: Self)
        ensures
            r == fresh_stats(),
    {
        NetworkStats { last_bytes_in: 0, last_bytes_out: 0, has_baseline: false }
    }

    /// Records a reading of the received and transmitted totals and returns
    /// the throughput since the previous one, `(0, 0)` for the first.
    pub fn sample(&mut self, total_in: u64, total_out: u64) -> (r: (u64, u64))
        ensures
            r == sample_result(*old(self), total_in, total_out),
            *final(self) == sampled(*old(self), total_in, total_out),
    {
        let mut down: u64 = 0;
        let mut up: u64 = 0;
        if self.has_baseline {
            down = if total_in >= self.last_bytes_in {
                total_in - self.last_bytes_in
            } else {
                0
            };
            up = if total_out >= self.last_bytes_out {
                total_out - self.last_bytes_out
            } else {
                0
            };
        }
        self.last_bytes_in = total_in;
        self.last_bytes_out = total_out;
        self.has_baseline = true;
        (down, up)
    }

    /// Records the totals of an interface table (`netstat -ib` output) and
    /// returns the throughput since the previous reading.
    pub fn update(&mut self, netstat_output: &str) -> (r: (u64, u64))
        ensures
            ({
                let (i, o) = interface_totals(netstat_output@);
                &&& r == sample_result(*old(self), i, o)
                &&& *final(self) == sampled(*old(self), i, o)
            }),
    {
        let (i, o) = parse_interface_totals(netstat_output);
        self.sample(i, o)
    }
}

/// A sampler with no previous reading.
pub open spec fn fresh_stats() -> NetworkStats {
    NetworkStats { last_bytes_in: 0, last_bytes_out: 0, has_baseline: false }
}

/// Throughput a sampler reports for a reading of the totals.
pub open spec fn sample_result(s: NetworkStats, total_in: u64, total_out: u64) -> (u64, u64) {
    if s.has_baseline {
        (rate(total_in, s.last_bytes_in), rate(total_out, s.last_bytes_out))
    } else {
        (0, 0)
    }
}

/// A sampler after a reading of the totals.
pub open spec fn sampled(s: NetworkStats, total_in: u64, total_out: u64) -> NetworkStats {
    NetworkStats { last_bytes_in: total_in, last_bytes_out: total_out, has_baseline: true }
}

/// The first reading after construction gives `(0, 0)` whatever the
/// counters; the next gives each counter's increase, and zero, never less,
/// for a counter that went down.
pub proof fn lemma_sampler_readings(in1: u64, out1: u64, in2: u64, out2: u64)
    ensures
        sample_result(fresh_stats(), in1, out1) == (0u64, 0u64),
        ({
            let (down, up) = sample_result(sampled(fresh_stats(), in1, out1), in2, out2);
            &&& down == if in2 >= in1 { in2 - in1 } else { 0 }
            &&& up == if out2 >= out1 { out2 - out1 } else { 0 }
        }),
{
}

} // verus!
