use vstd::prelude::*;

use crate::records::{PingRecord, PingV, ProbeOutcome, ProbeV};

verus! {

// Parsing of the reachability probe's raw output. The probe's one round trip
// is reported as a line holding a `time=<value><unit>` token; the value is a
// decimal number of milliseconds, and it is extracted here as an exact count
// of microseconds (thousandths of a millisecond, truncating any digits past
// the third fractional place). The scan takes the first `time=` marker in the
// output and the token reaching from it to the next whitespace byte.

/// The marker bytes, `time=`.
pub open spec fn marker() -> Seq<u8> {
    seq![116u8, 105u8, 109u8, 101u8, 61u8]
}

/// Whitespace for the purpose of ending a token: space, tab, line and
/// carriage returns.
pub open spec fn is_ws(b: u8) -> bool {
    b == 32 || b == 9 || b == 10 || b == 13
}

/// An ASCII decimal digit.
pub open spec fn is_digit(b: u8) -> bool {
    48 <= b <= 57
}

/// Whether the marker stands at position `i` of `s`.
pub open spec fn marker_at(s: Seq<u8>, i: int) -> bool {
    0 <= i && i + 5 <= s.len() && s.subrange(i, i + 5) == marker()
}

/// The first position at or after `from` where the marker stands, if any.
pub open spec fn find_marker(s: Seq<u8>, from: int) -> Option<int>
    recommends
        0 <= from <= s.len(),
    decreases s.len() - from,
        when 0 <= from <= s.len()
{
    if from + 5 > s.len() {
        None
    } else if marker_at(s, from) {
        Some(from)
    } else {
        find_marker(s, from + 1)
    }
}

/// The first position at or after `from` holding a whitespace byte, or the
/// end of `s`.
pub open spec fn token_end(s: Seq<u8>, from: int) -> int
    recommends
        0 <= from <= s.len(),
    decreases s.len() - from,
        when 0 <= from <= s.len()
{
    if from >= s.len() {
        s.len() as int
    } else if is_ws(s[from]) {
        from
    } else {
        token_end(s, from + 1)
    }
}

/// The first position at or after `from` holding a dot, or the end of `t`.
pub open spec fn dot_pos(t: Seq<u8>, from: int) -> int
    recommends
        0 <= from <= t.len(),
    decreases t.len() - from,
        when 0 <= from <= t.len()
{
    if from >= t.len() {
        t.len() as int
    } else if t[from] == 46 {
        from
    } else {
        dot_pos(t, from + 1)
    }
}

/// Every byte of `t` is a digit.
pub open spec fn all_digits(t: Seq<u8>) -> bool {
    forall|i: int| 0 <= i < t.len() ==> is_digit(#[trigger] t[i])
}

/// The value of a string of digits, most significant first.
pub open spec fn digits_val(t: Seq<u8>) -> nat
    recommends
        all_digits(t),
    decreases t.len(),
{
    if t.len() == 0 {
        0
    } else {
        digits_val(t.drop_last()) * 10 + (t.last() - 48) as nat
    }
}

/// The microseconds contributed by the fractional digits of a millisecond
/// value: the first three fractional digits, padded with zeros, further
/// digits truncated.
pub open spec fn frac_micros(f: Seq<u8>) -> nat {
    if f.len() == 0 {
        0
    } else if f.len() == 1 {
        digits_val(f) * 100
    } else if f.len() == 2 {
        digits_val(f) * 10
    } else {
        digits_val(f.take(3))
    }
}

/// The token as a count of microseconds: the digits before the first dot are
/// whole milliseconds, those after it fractional ones. The token must be
/// digits with at most one dot and hold at least one digit; a value beyond
/// what a u64 carries is rejected.
pub open spec fn decimal_micros(t: Seq<u8>) -> Option<u64> {
    let d = dot_pos(t, 0);
    let ip = t.take(d);
    let fp = if d < t.len() {
        t.subrange(d + 1, t.len() as int)
    } else {
        Seq::<u8>::empty()
    };
    if all_digits(ip) && all_digits(fp) && (ip.len() > 0 || fp.len() > 0) {
        if digits_val(ip) * 1000 + frac_micros(fp) <= u64::MAX {
            Some((digits_val(ip) * 1000 + frac_micros(fp)) as u64)
        } else {
            None
        }
    } else {
        None
    }
}

/// The latency the probe output reports, in microseconds: the token after the
/// first `time=` marker, up to the next whitespace, read as a decimal count
/// of milliseconds; absent when no marker stands in the output or the token
/// is not such a number.
pub open spec fn latency_micros_of(s: Seq<u8>) -> Option<u64> {
    match find_marker(s, 0) {
        None => None,
        Some(i) => decimal_micros(s.subrange(i + 5, token_end(s, i + 5))),
    }
}

/// A digit string is worth at least any of its prefixes.
proof fn lemma_digits_val_take(t: Seq<u8>, k: int)
    requires
        0 <= k <= t.len(),
    ensures
        digits_val(t.take(k)) <= digits_val(t),
    decreases t.len(),
{
    if k < t.len() {
        assert(t.take(k) =~= t.drop_last().take(k));
        lemma_digits_val_take(t.drop_last(), k);
        assert(digits_val(t.drop_last()) * 10 >= digits_val(t.drop_last())) by (nonlinear_arith);
    } else {
        assert(t.take(k) =~= t);
    }
}

/// Appending a digit multiplies the value by ten and adds the digit.
proof fn lemma_digits_val_step(t: Seq<u8>, k: int)
    requires
        0 <= k < t.len(),
    ensures
        digits_val(t.take(k + 1)) == digits_val(t.take(k)) * 10 + (t[k] - 48) as nat,
{
    assert(t.take(k + 1).drop_last() =~= t.take(k));
    assert(t.take(k + 1).last() == t[k]);
}

/// Reads a token as a decimal count of microseconds, exactly as
/// `decimal_micros` defines it.
#[verifier::loop_isolation(false)]
pub fn parse_decimal_micros(tok: &[u8]) -> (r: Option<u64>)
    ensures
        r == decimal_micros(tok@),
{
    let n = tok.len();
    // Find the first dot, if any.
    let mut d: usize = n;
    let mut seen_dot = false;
    let mut k: usize = 0;
    while k < n
        invariant
            0 <= k <= n,
            n == tok@.len(),
            seen_dot ==> 0 <= d < n && d < k && tok@[d as int] == 46 && dot_pos(tok@, 0)
                == d as int,
            !seen_dot ==> d == n && dot_pos(tok@, 0) == dot_pos(tok@, k as int),
        decreases n - k,
    {
        if !seen_dot && tok[k] == 46 {
            d = k;
            seen_dot = true;
        }
        k = k + 1;
    }
    proof {
        if !seen_dot {
            assert(dot_pos(tok@, 0) == n as int);
        }
    }
    let ghost dd = dot_pos(tok@, 0);
    let ghost ip = tok@.take(dd);
    let ghost fp = if dd < tok@.len() {
        tok@.subrange(dd + 1, tok@.len() as int)
    } else {
        Seq::<u8>::empty()
    };

    let fstart: usize = if seen_dot {
        d + 1
    } else {
        n
    };
    proof {
        assert(fp =~= tok@.subrange(fstart as int, n as int));
        assert(ip =~= tok@.subrange(0, d as int));
    }
    if d == 0 && fstart >= n {
        // No digit anywhere: either the empty token or a lone dot.
        proof {
            assert(ip.len() == 0 && fp.len() == 0);
        }
        return None;
    }

    // The whole-millisecond digits.
    let mut acc: u64 = 0;
    let mut m: usize = 0;
    while m < d
        invariant
            0 <= m <= d <= n,
            n == tok@.len(),
            dd == d as int,
            ip == tok@.take(d as int),
            forall|q: int| 0 <= q < m ==> is_digit(#[trigger] tok@[q]),
            acc == digits_val(tok@.take(m as int)),
        decreases d - m,
    {
        let b = tok[m];
        if b < 48 || b > 57 {
            proof {
                assert(ip[m as int] == tok@[m as int]);
                assert(!all_digits(ip));
            }
            return None;
        }
        let dig: u64 = (b - 48) as u64;
        if acc > (u64::MAX - dig) / 10 {
            // The whole part alone no longer fits; the full value cannot.
            proof {
                assert(acc * 10 + dig > u64::MAX) by (nonlinear_arith)
                    requires
                        acc > (u64::MAX - dig) / 10,
                        dig <= 9,
                ;
                lemma_digits_val_step(tok@, m as int);
                lemma_digits_val_take(ip, m as int + 1);
                assert(ip.take(m as int + 1) =~= tok@.take(m as int + 1));
                assert(digits_val(ip) >= digits_val(tok@.take(m as int + 1)));
                assert(digits_val(ip) * 1000 >= digits_val(ip)) by (nonlinear_arith);
            }
            return None;
        }
        proof {
            assert(acc * 10 + dig <= u64::MAX) by (nonlinear_arith)
                requires
                    acc <= (u64::MAX - dig) / 10,
                    dig <= 9,
            ;
            lemma_digits_val_step(tok@, m as int);
        }
        acc = acc * 10 + dig;
        m = m + 1;
    }
    proof {
        assert(tok@.take(d as int) == ip);
        assert(all_digits(ip));
    }

    // The fractional digits: the first three count, padded with zeros.
    let mut f0: u64 = 0;
    let mut f1: u64 = 0;
    let mut f2: u64 = 0;
    let mut m: usize = fstart;
    while m < n
        invariant
            fstart <= m <= n,
            n == tok@.len(),
            dd == if seen_dot {
                d as int
            } else {
                n as int
            },
            seen_dot ==> fstart == d + 1,
            !seen_dot ==> fstart == n,
            fp == tok@.subrange(fstart as int, n as int),
            forall|q: int| fstart <= q < m ==> is_digit(#[trigger] tok@[q]),
            m - fstart >= 1 ==> f0 == (tok@[fstart as int] - 48) as nat,
            m - fstart >= 2 ==> f1 == (tok@[fstart as int + 1] - 48) as nat,
            m - fstart >= 3 ==> f2 == (tok@[fstart as int + 2] - 48) as nat,
        decreases n - m,
    {
        let b = tok[m];
        if b < 48 || b > 57 {
            proof {
                assert(fp[m - fstart] == tok@[m as int]);
                assert(!all_digits(fp));
            }
            return None;
        }
        if m == fstart {
            f0 = (b - 48) as u64;
        } else if m == fstart + 1 {
            f1 = (b - 48) as u64;
        } else if m == fstart + 2 {
            f2 = (b - 48) as u64;
        }
        m = m + 1;
    }
    proof {
        assert(all_digits(fp)) by {
            assert(forall|q: int|
                0 <= q < fp.len() ==> fp[q] == tok@[q + fstart] && is_digit(#[trigger] tok@[q
                    + fstart]));
        }
    }
    let flen = n - fstart;
    let fm: u64 = if flen == 0 {
        0
    } else if flen == 1 {
        f0 * 100
    } else if flen == 2 {
        (f0 * 10 + f1) * 10
    } else {
        (f0 * 10 + f1) * 10 + f2
    };
    proof {
        if flen >= 1 {
            assert(fp.take(1).drop_last() =~= Seq::<u8>::empty());
            assert(fp.take(1).last() == fp[0]);
            assert(digits_val(Seq::<u8>::empty()) == 0);
            assert(digits_val(fp.take(1)) == (fp[0] - 48) as nat);
        }
        if flen >= 2 {
            assert(fp.take(2).drop_last() =~= fp.take(1));
            assert(fp.take(2).last() == fp[1]);
            assert(digits_val(fp.take(2)) == digits_val(fp.take(1)) * 10 + (fp[1] - 48) as nat);
        }
        if flen >= 3 {
            assert(fp.take(3).drop_last() =~= fp.take(2));
            assert(fp.take(3).last() == fp[2]);
            assert(digits_val(fp.take(3)) == digits_val(fp.take(2)) * 10 + (fp[2] - 48) as nat);
        }
        if flen == 1 {
            assert(fp.take(1) =~= fp);
        }
        if flen == 2 {
            assert(fp.take(2) =~= fp);
        }
        assert(fm == frac_micros(fp));
    }

    if acc > (u64::MAX - fm) / 1000 {
        proof {
            assert(acc * 1000 + fm > u64::MAX) by (nonlinear_arith)
                requires
                    acc > (u64::MAX - fm) / 1000,
                    fm <= 999,
            ;
        }
        return None;
    }
    proof {
        assert(acc * 1000 + fm <= u64::MAX) by (nonlinear_arith)
            requires
                acc <= (u64::MAX - fm) / 1000,
                fm <= 999,
        ;
    }
    Some(acc * 1000 + fm)
}

/// Extracts the probe latency from raw probe output, exactly as
/// `latency_micros_of` defines it: the decimal token after the first `time=`
/// marker, in microseconds; `None` when no marker is present or the token is
/// not a decimal number.
#[verifier::loop_isolation(false)]
pub fn parse_latency_micros(out: &[u8]) -> (r: Option<u64>)
    ensures
        r == latency_micros_of(out@),
{
    let n = out.len();
    // Find the first marker.
    let mut i: usize = 0;
    let mut found = false;
    while !found && n - i >= 5
        invariant
            0 <= i,
            n == out@.len(),
            !found ==> i <= n && find_marker(out@, 0) == find_marker(out@, i as int),
            found ==> i + 5 <= n && find_marker(out@, 0) == Some(i as int),
        decreases (if found { 0int } else { 1int }), n - i,
    {
        if out[i] == 116 && out[i + 1] == 105 && out[i + 2] == 109 && out[i + 3] == 101 && out[i
            + 4] == 61 {
            proof {
                assert(out@.subrange(i as int, i as int + 5) =~= marker());
            }
            found = true;
        } else {
            proof {
                assert(!marker_at(out@, i as int)) by {
                    if marker_at(out@, i as int) {
                        assert(out@.subrange(i as int, i as int + 5)[0] == out@[i as int]);
                        assert(out@.subrange(i as int, i as int + 5)[1] == out@[i as int + 1]);
                        assert(out@.subrange(i as int, i as int + 5)[2] == out@[i as int + 2]);
                        assert(out@.subrange(i as int, i as int + 5)[3] == out@[i as int + 3]);
                        assert(out@.subrange(i as int, i as int + 5)[4] == out@[i as int + 4]);
                    }
                }
            }
            i = i + 1;
        }
    }
    if !found {
        proof {
            assert(find_marker(out@, i as int) is None);
        }
        return None;
    }

    // The token runs from after the marker to the next whitespace.
    let a = i + 5;
    let mut j: usize = a;
    while j < n && !(out[j] == 32 || out[j] == 9 || out[j] == 10 || out[j] == 13)
        invariant
            a <= j <= n,
            n == out@.len(),
            token_end(out@, a as int) == token_end(out@, j as int),
        decreases n - j,
    {
        j = j + 1;
    }
    proof {
        assert(token_end(out@, j as int) == j as int);
    }

    // Copy the token out and read it.
    let mut tok: Vec<u8> = Vec::new();
    let mut k: usize = a;
    while k < j
        invariant
            a <= k <= j <= n,
            n == out@.len(),
            tok@ == out@.subrange(a as int, k as int),
        decreases j - k,
    {
        let b = out[k];
        tok.push(b);
        proof {
            assert(tok@ =~= out@.subrange(a as int, k as int + 1));
        }
        k = k + 1;
    }
    proof {
        assert(tok@ == out@.subrange(a as int, token_end(out@, a as int)));
    }
    parse_decimal_micros(tok.as_slice())
}

/// How one probe attempt reads, given whether the probe process succeeded,
/// its raw output, and a description of its failure.
pub open spec fn probe_view(
    host: Seq<char>,
    exit_ok: bool,
    output: Seq<u8>,
    failure: Seq<char>,
) -> ProbeV {
    if !exit_ok {
        ProbeV::ProcessFailed(failure)
    } else {
        match latency_micros_of(output) {
            Some(t) => ProbeV::Latency(PingV { host, time_micros: t }),
            None => ProbeV::NotFound,
        }
    }
}

/// Turns one probe attempt into its outcome: a failed process is a typed
/// failure carrying the description; successful output is scanned for the
/// latency token, found or not found. Exactly one of the three outcomes
/// holds, as `probe_view` states.
pub fn interpret_probe(host: &str, exit_ok: bool, output: &[u8], failure: &str) -> (r:
    ProbeOutcome)
    ensures
        r@ == probe_view(host@, exit_ok, output@, failure@),
{
    if !exit_ok {
        return ProbeOutcome::ProcessFailed(String::from_str(failure));
    }
    match parse_latency_micros(output) {
        Some(t) => ProbeOutcome::Latency(
            PingRecord { host: String::from_str(host), time_micros: t },
        ),
        None => ProbeOutcome::NotFound,
    }
}

} // verus!
