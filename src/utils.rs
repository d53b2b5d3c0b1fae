//! Formatting helpers for the dashboard: byte rates, durations and
//! shortened labels.
use vstd::prelude::*;
use vstd::string::*;
use std::time::Duration;
use vstd::arithmetic::power2::{
    lemma2_to64, lemma_pow2_adds, lemma_pow2_pos, lemma_pow2_strictly_increases, lemma_pow2_unfold, pow2,
};
use crate::text::{chars_of, slice_chars, string_of};

verus! {

/// The character of a decimal digit.
pub open spec fn digit_char(d: nat) -> char {
    if d == 0 { '0' } else if d == 1 { '1' } else if d == 2 { '2' } else if d == 3 { '3' }
    else if d == 4 { '4' } else if d == 5 { '5' } else if d == 6 { '6' } else if d == 7 { '7' }
    else if d == 8 { '8' } else { '9' }
}

/// Decimal notation of `n`, without leading zeros.
pub open spec fn decimal_text(n: nat) -> Seq<char>
    decreases n,
{
    if n < 10 {
        seq![digit_char(n)]
    } else {
        decimal_text(n / 10).push(digit_char(n % 10))
    }
}

/// Decimal notation of `n`, padded with zeros to at least two digits.
pub open spec fn two_digits(n: nat) -> Seq<char> {
    if n < 10 {
        seq!['0', digit_char(n)]
    } else {
        decimal_text(n)
    }
}

fn digit(d: u64) -> (c: char)
    requires
        d < 10,
    ensures
        c == digit_char(d as nat),
{
    if d == 0 { '0' } else if d == 1 { '1' } else if d == 2 { '2' } else if d == 3 { '3' }
    else if d == 4 { '4' } else if d == 5 { '5' } else if d == 6 { '6' } else if d == 7 { '7' }
    else if d == 8 { '8' } else { '9' }
}

fn push_decimal(out: &mut Vec<char>, n: u64)
    ensures
        final(out)@ == old(out)@ + decimal_text(n as nat),
    decreases n,
{
    if n >= 10 {
        push_decimal(out, n / 10);
    }
    out.push(digit(n % 10));
    proof {
        if n < 10 {
            assert(old(out)@ + decimal_text(n as nat) =~= old(out)@.push(digit_char(n as nat)));
        } else {
            assert(old(out)@ + decimal_text(n as nat) =~= (old(out)@ + decimal_text(
                (n / 10) as nat,
            )).push(digit_char((n % 10) as nat)));
        }
    }
}

fn push_two_digits(out: &mut Vec<char>, n: u64)
    ensures
        final(out)@ == old(out)@ + two_digits(n as nat),
{
    if n < 10 {
        out.push('0');
        out.push(digit(n));
        assert(final(out)@ =~= old(out)@ + two_digits(n as nat));
    } else {
        push_decimal(out, n);
    }
}

fn push_str(out: &mut Vec<char>, s: &str)
    ensures
        final(out)@ == old(out)@ + s@,
{
    let c = chars_of(s);
    let mut i: usize = 0;
    while i < c.len()
        invariant
            i <= c.len(),
            c@ == s@,
            out@ == old(out)@ + c@.subrange(0, i as int),
        decreases c.len() - i,
    {
        out.push(c[i]);
        assert(c@.subrange(0, i + 1) =~= c@.subrange(0, i as int).push(c@[i as int]));
        i = i + 1;
    }
    assert(c@.subrange(0, c.len() as int) =~= c@);
}

/// `a / b` rounded to the nearest integer, ties to the even one.
pub open spec fn div_rne(a: nat, b: nat) -> nat {
    let q = a / b;
    let r = a % b;
    if 2 * r > b || (2 * r == b && q % 2 == 1) {
        q + 1
    } else {
        q
    }
}

/// Halvings that bring `x` below 2^53, the first integer a double cannot
/// hold together with its successor.
pub open spec fn excess_bits(x: nat) -> nat
    decreases x,
{
    if x < 0x20_0000_0000_0000 {
        0
    } else {
        1 + excess_bits(x / 2)
    }
}

/// The double nearest to `x` (ties to even), as `x as f64` gives it: `x`
/// itself below 2^53, else `x` rounded to 53 significant bits.
pub open spec fn int_to_double(x: nat) -> nat {
    div_rne(x, pow2(excess_bits(x))) * pow2(excess_bits(x))
}

/// The largest `l` with `b * 2^l <= a`, for `a >= b > 0`.
pub open spec fn log2_ratio(a: nat, b: nat) -> nat
    decreases a,
{
    if b == 0 || a < 2 * b {
        0
    } else {
        1 + log2_ratio(a / 2, b)
    }
}

/// Tenths of `x / unit` as `format!("{:.1}", x as f64 / unit as f64)`
/// writes them: the integer and then the quotient are rounded to the
/// nearest double (53 significant bits, ties to even), and that double's
/// exact value is rounded to the nearest tenth, ties to the even tenth.
pub open spec fn float_tenths(x: nat, unit: nat) -> nat {
    let n = int_to_double(x);
    let l = log2_ratio(n, unit);
    if l >= 52 {
        let q = pow2((l - 52) as nat);
        10 * (div_rne(n, unit * q) * q)
    } else {
        let q = pow2((52 - l) as nat);
        div_rne(10 * div_rne(n * q, unit), q)
    }
}

fn div_rne_exec(a: u128, b: u128) -> (r: u128)
    requires
        b > 0,
        a < u128::MAX,
    ensures
        r as nat == div_rne(a as nat, b as nat),
        r as nat <= a as nat / b as nat + 1,
{
    let q = a / b;
    let r = a % b;
    assert(q <= a) by (nonlinear_arith)
        requires
            q == a / b,
            b > 0,
    ;
    if r > b - r || (r == b - r && q % 2 == 1) {
        q + 1
    } else {
        q
    }
}

fn to_double(x: u64) -> (n: u128)
    ensures
        n as nat == int_to_double(x as nat),
        n as nat <= 2 * (x as nat),
        x < 0x20_0000_0000_0000 ==> n == x as u128,
        x >= 0x20_0000_0000_0000 ==> n >= 0x10_0000_0000_0000,
{
    let mut t: u128 = x as u128;
    let mut p: u128 = 1;
    let ghost mut s: nat = 0;
    proof {
        lemma_pow2_pos(0);
        assert(pow2(0) == 1) by {
            lemma2_to64();
        }
    }
    while t >= 0x20_0000_0000_0000
        invariant
            p as nat == pow2(s),
            p >= 1,
            t as nat == x as nat / p as nat,
            t * p <= x,
            excess_bits(x as nat) == s + excess_bits(t as nat),
            s > 0 ==> t >= 0x10_0000_0000_0000,
            s > 0 ==> p <= x,
        decreases t,
    {
        proof {
            vstd::arithmetic::div_mod::lemma_div_denominator(x as int, p as int, 2);
            lemma_pow2_unfold(s + 1);
        }
        assert((t / 2) * (p * 2) <= t * p) by (nonlinear_arith);
        assert(p * 2 <= x) by (nonlinear_arith)
            requires
                (t / 2) * (p * 2) <= t * p,
                t * p <= x,
                t >= 0x20_0000_0000_0000,
        ;
        t = t / 2;
        p = p * 2;
        proof {
            s = s + 1;
        }
    }
    let m = div_rne_exec(x as u128, p);
    assert(m * p <= t * p + p) by (nonlinear_arith)
        requires
            m as nat <= x as nat / p as nat + 1,
            t as nat == x as nat / p as nat,
    ;
    proof {
        if s == 0 {
            lemma2_to64();
            assert(p == 1);
            assert(m == x);
        } else {
            assert(m * p <= 2 * x) by (nonlinear_arith)
                requires
                    m * p <= t * p + p,
                    t * p <= x,
                    p <= x,
            ;
        }
    }
    let n = m * p;
    proof {
        if x >= 0x20_0000_0000_0000 {
            assert(s > 0);
            assert(m >= t) by (nonlinear_arith)
                requires
                    m as nat == div_rne(x as nat, p as nat),
                    t as nat == x as nat / p as nat,
            ;
            assert(m * p >= t) by (nonlinear_arith)
                requires
                    m >= t,
                    p >= 1,
            ;
        }
    }
    n
}

fn pow2_exec(k: u32) -> (r: u128)
    requires
        k <= 120,
    ensures
        r as nat == pow2(k as nat),
{
    let mut r: u128 = 1;
    let mut i: u32 = 0;
    proof {
        lemma2_to64();
    }
    while i < k
        invariant
            i <= k <= 120,
            r as nat == pow2(i as nat),
        decreases k - i,
    {
        proof {
            lemma_pow2_unfold((i + 1) as nat);
            lemma_pow2_strictly_increases((i + 1) as nat, 127);
            vstd::arithmetic::power2::lemma2_to64_rest();
            lemma_pow2_adds(64, 63);
        }
        r = r * 2;
        i = i + 1;
    }
    r
}

/// Tenths of `x / unit` as `{:.1}` writes the double-precision quotient.
fn float_tenths_exec(x: u64, unit: u128) -> (t: u128)
    requires
        (unit == 1000 && 1000 <= x < 1_000_000) || (unit == 1_000_000 && x >= 1_000_000),
    ensures
        t as nat == float_tenths(x as nat, unit as nat),
        t as nat / 10 <= u64::MAX,
{
    let n = to_double(x);
    let mut a: u128 = n;
    let mut p: u128 = 1;
    let mut l: u32 = 0;
    proof {
        lemma2_to64();
        vstd::arithmetic::power2::lemma2_to64_rest();
    }
    assert(n >= unit);
    while a >= 2 * unit
        invariant
            unit >= 1000,
            n >= unit,
            n <= 0x2_0000_0000_0000_0000,
            p as nat == pow2(l as nat),
            p >= 1,
            a as nat == n as nat / p as nat,
            a >= unit,
            a * p <= n,
            l <= 70,
            log2_ratio(n as nat, unit as nat) == l + log2_ratio(a as nat, unit as nat),
        decreases a,
    {
        proof {
            vstd::arithmetic::div_mod::lemma_div_denominator(n as int, p as int, 2);
            lemma_pow2_unfold((l + 1) as nat);
        }
        assert(p * 2 <= n) by (nonlinear_arith)
            requires
                a * p <= n,
                a >= 2 * unit,
                unit >= 1000,
        ;
        assert((a / 2) * (p * 2) <= a * p) by (nonlinear_arith);
        assert(l < 70) by {
            lemma2_to64();
            if l >= 70 {
                lemma_pow2_strictly_increases(66, l as nat);
                lemma_pow2_adds(64, 2);
            }
        }
        a = a / 2;
        p = p * 2;
        l = l + 1;
    }
    assert(unit * p <= n) by (nonlinear_arith)
        requires
            a * p <= n,
            a >= unit,
    ;
    assert(l < 52) by {
        if l >= 52 {
            if l > 52 {
                lemma_pow2_strictly_increases(52, l as nat);
            }
            assert(unit * p >= unit * 0x10_0000_0000_0000) by (nonlinear_arith)
                requires
                    p >= 0x10_0000_0000_0000,
            ;
            if unit == 1000 {
                assert(n == x as u128);
            }
        }
    }
    let q = pow2_exec(52 - l);
    assert(q <= 0x10_0000_0000_0000) by {
        if l > 0 {
            lemma_pow2_strictly_increases((52 - l) as nat, 52);
        }
    }
    assert(n * q <= 0x2_0000_0000_0000_0000 * 0x10_0000_0000_0000) by (nonlinear_arith)
        requires
            n <= 0x2_0000_0000_0000_0000,
            q <= 0x10_0000_0000_0000,
    ;
    let mant = div_rne_exec(n * q, unit);
    assert(mant <= n * q + 1) by (nonlinear_arith)
        requires
            mant as nat <= (n * q) as nat / unit as nat + 1,
            unit >= 1,
    ;
    let t = div_rne_exec(10 * mant, q);
    assert(t as nat / 10 <= u64::MAX) by (nonlinear_arith)
        requires
            t as nat <= (10 * mant) as nat / q as nat + 1,
            mant as nat <= (n * q) as nat / unit as nat + 1,
            n <= 0x2_0000_0000_0000_0000,
            unit >= 1000,
            q >= 1,
    ;
    t
}

/// A rate in tenths of a unit, written with one decimal and the unit.
pub open spec fn tenths_text(t: nat, unit: Seq<char>) -> Seq<char> {
    decimal_text(t / 10) + seq!['.', digit_char(t % 10)] + unit
}

/// Text of a byte rate: whole bytes below a thousand, else kilobytes below
/// a million, else megabytes, with one decimal written as `{:.1}` writes
/// the `f64` quotient.
pub open spec fn speed_text(b: nat) -> Seq<char> {
    if b >= 1_000_000 {
        tenths_text(float_tenths(b, 1_000_000), " MB/s"@)
    } else if b >= 1000 {
        tenths_text(float_tenths(b, 1000), " KB/s"@)
    } else {
        decimal_text(b) + " B/s"@
    }
}

/// Formats a byte rate for display: `B/s` below a thousand, else `KB/s`
/// below a million, else `MB/s`, the latter two with one decimal, rounded
/// as `{:.1}` rounds the double-precision quotient.
pub fn format_bytes_speed(bytes: u64) -> (r: String)
    ensures
        r@ == speed_text(bytes as nat),
{
    let mut out: Vec<char> = Vec::new();
    if bytes >= 1_000_000 {
        let t = float_tenths_exec(bytes, 1_000_000);
        push_decimal(&mut out, (t / 10) as u64);
        out.push('.');
        out.push(digit((t % 10) as u64));
        push_str(&mut out, " MB/s");
    } else if bytes >= 1000 {
        let t = float_tenths_exec(bytes, 1000);
        push_decimal(&mut out, (t / 10) as u64);
        out.push('.');
        out.push(digit((t % 10) as u64));
        push_str(&mut out, " KB/s");
    } else {
        push_decimal(&mut out, bytes);
        push_str(&mut out, " B/s");
    }
    assert(out@ =~= speed_text(bytes as nat));
    string_of(&out)
}

/// Text of a duration given in whole seconds: `Xd HHh` from one day on,
/// else `HH:MM:SS`.
pub open spec fn duration_text(secs: nat) -> Seq<char> {
    if secs >= 86400 {
        decimal_text(secs / 86400) + "d "@ + two_digits((secs % 86400) / 3600) + seq!['h']
    } else {
        two_digits(secs / 3600) + seq![':'] + two_digits((secs % 3600) / 60) + seq![':']
            + two_digits(secs % 60)
    }
}

/// Formats a number of seconds as `Xd HHh` from one day on, else as
/// `HH:MM:SS`.
pub fn format_duration_secs(secs: u64) -> (r: String)
    ensures
        r@ == duration_text(secs as nat),
{
    let mut out: Vec<char> = Vec::new();
    if secs >= 86400 {
        push_decimal(&mut out, secs / 86400);
        push_str(&mut out, "d ");
        push_two_digits(&mut out, (secs % 86400) / 3600);
        out.push('h');
    } else {
        push_two_digits(&mut out, secs / 3600);
        out.push(':');
        push_two_digits(&mut out, (secs % 3600) / 60);
        out.push(':');
        push_two_digits(&mut out, secs % 60);
    }
    assert(out@ =~= duration_text(secs as nat));
    string_of(&out)
}

/// Relies on `Duration::as_secs`: the whole seconds of a duration.
#[verifier::external_body]
fn whole_seconds(d: Duration) -> u64 {
    d.as_secs()
}

/// Formats a duration, in whole seconds, as `Xd HHh` from one day on, else
/// as `HH:MM:SS`.
pub fn format_duration(duration: Duration) -> (r: String)
    ensures
        exists|secs: u64| r@ == duration_text(secs as nat),
{
    format_duration_secs(whole_seconds(duration))
}

/// `s` cut to at most `max_chars` characters: a longer string keeps its
/// first `max_chars - 3` characters (none when `max_chars < 3`) followed by
/// `...`.
pub open spec fn truncated(s: Seq<char>, max_chars: nat) -> Seq<char> {
    if s.len() > max_chars {
        let keep = if max_chars >= 3 {
            max_chars - 3
        } else {
            0
        };
        s.subrange(0, keep as int) + "..."@
    } else {
        s
    }
}

/// Shortens a label to at most `max_chars` characters, marking the cut
/// with `...`.
pub fn truncate(s: &str, max_chars: usize) -> (r: String)
    ensures
        r@ == truncated(s@, max_chars as nat),
{
    let c = chars_of(s);
    if c.len() > max_chars {
        let keep: usize = if max_chars >= 3 {
            max_chars - 3
        } else {
            0
        };
        let mut t = string_of(&slice_chars(&c, 0, keep));
        t.append("...");
        t
    } else {
        s.to_string()
    }
}

} // verus!
