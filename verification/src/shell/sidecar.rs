//! How the shell runs its Python backend: the bridge token kept on disk,
//! the pairing file for the browser extension, the remembered port, and
//! the command line Python is started with.
use vstd::prelude::*;
use crate::desktop::sidecar::strs_view;

verus! {

/// A stored bridge token is used again only when, trimmed, it is 64
/// hexadecimal digits (the 256-bit tokens this program writes).
pub open spec fn token_ok(t: Seq<char>) -> bool {
    t.len() == 64 && forall|i: int| 0 <= i < t.len() ==> crate::text::is_hex_digit(t[i])
}

pub open spec fn stored_token(text: Seq<char>) -> Option<Seq<char>> {
    if token_ok(crate::text::trim(text)) {
        Some(crate::text::trim(text))
    } else {
        None
    }
}

/// The token to use from the text of the token file, if it is valid
/// ([`stored_token`]); otherwise a fresh one is to be minted.
pub fn accept_stored_token(text: &str) -> (r: Option<String>)
    ensures
        crate::desktop::types::opt_view(r) == stored_token(text@),
{
    let t = crate::text::trimmed(text);
    let v = crate::text::chars_of(t.as_str());
    if v.len() != 64 {
        return None;
    }
    let mut i: usize = 0;
    while i < v.len()
        invariant
            0 <= i <= v.len(),
            v@ == crate::text::trim(text@),
            forall|k: int| 0 <= k < i ==> crate::text::is_hex_digit(v@[k]),
        decreases v.len() - i,
    {
        let c = v[i];
        if !(('0' <= c && c <= '9') || ('a' <= c && c <= 'f') || ('A' <= c && c <= 'F')) {
            assert(!crate::text::is_hex_digit(v@[i as int]));
            return None;
        }
        i += 1;
    }
    Some(t)
}

/// The pairing file the extension reads: `{"port": …, "token": "…"}`,
/// pretty-printed.
pub open spec fn bridge_file_spec(port: u16, token: Seq<char>) -> Seq<char> {
    "{\n  \"port\": "@ + crate::text::decimal(port as nat) + ",\n  \"token\": \""@ + token + "\"\n}\n"@
}

pub fn bridge_file_body(port: u16, token: &str) -> (r: String)
    ensures
        r@ == bridge_file_spec(port, token@),
{
    let mut s = crate::text::owned("{\n  \"port\": ");
    crate::text::push_decimal(&mut s, port as u64);
    crate::text::push_str(&mut s, ",\n  \"token\": \"");
    crate::text::push_str(&mut s, token);
    crate::text::push_str(&mut s, "\"\n}\n");
    s
}

/// What `u16::from_str` accepts: an optional `+` and at least one decimal
/// digit, of value at most 65535.
pub open spec fn digits_value(d: Seq<char>) -> int
    decreases d.len(),
{
    if d.len() == 0 {
        0
    } else {
        digits_value(d.drop_last()) * 10 + (d.last() as int - 48)
    }
}

pub open spec fn all_digits(d: Seq<char>) -> bool {
    forall|i: int| 0 <= i < d.len() ==> crate::text::is_digit(d[i])
}

/// What the standard `from_str` of an unsigned integer type whose largest
/// value is `max` accepts, and the value.
pub open spec fn parse_bounded_spec(s: Seq<char>, max: int) -> Option<int> {
    let d = if s.len() > 0 && s[0] == '+' {
        s.skip(1)
    } else {
        s
    };
    if d.len() > 0 && all_digits(d) && digits_value(d) <= max {
        Some(digits_value(d))
    } else {
        None
    }
}

pub open spec fn parse_u16(s: Seq<char>) -> Option<u16> {
    match parse_bounded_spec(s, 65535) {
        Some(v) => Some(v as u16),
        None => None,
    }
}

proof fn lemma_digits_value_nonneg(d: Seq<char>)
    requires
        all_digits(d),
    ensures
        digits_value(d) >= 0,
    decreases d.len(),
{
    if d.len() > 0 {
        lemma_digits_value_nonneg(d.drop_last());
    }
}

/// Computes [`parse_u16`].
pub fn parse_port(s: &str) -> (r: Option<u16>)
    ensures
        r == parse_u16(s@),
{
    match parse_bounded(s, 65535) {
        Some(v) => Some(v as u16),
        None => None,
    }
}

/// Computes [`parse_bounded_spec`] for a bound that fits a `u32`.
pub fn parse_bounded(s: &str, max: u32) -> (r: Option<u32>)
    ensures
        parse_bounded_spec(s@, max as int) == match r {
            Some(x) => Some(x as int),
            None => None::<int>,
        },
        r matches Some(x) ==> x <= max,
{
    let v = crate::text::chars_of(s);
    let start: usize = if v.len() > 0 && v[0] == '+' {
        1
    } else {
        0
    };
    let ghost d = if s@.len() > 0 && s@[0] == '+' {
        s@.skip(1)
    } else {
        s@
    };
    assert(d =~= v@.skip(start as int));
    if start >= v.len() {
        return None;
    }
    let mut value: u64 = 0;
    let mut i: usize = start;
    assert(d.take(0) =~= Seq::<char>::empty());
    while i < v.len()
        invariant
            start <= i <= v.len(),
            v@ == s@,
            d == (if s@.len() > 0 && s@[0] == '+' {
                s@.skip(1)
            } else {
                s@
            }),
            d == v@.skip(start as int),
            all_digits(d.take(i - start)),
            value == digits_value(d.take(i - start)),
            value <= max,
        decreases v.len() - i,
    {
        let c = v[i];
        assert(d.take(i - start + 1).drop_last() =~= d.take(i - start));
        assert(d[i - start] == c);
        if !('0' <= c && c <= '9') {
            assert(!all_digits(d)) by {
                assert(!crate::text::is_digit(d[i - start]));
            }
            return None;
        }
        let next: u64 = value * 10 + (c as u64 - 48);
        assert(all_digits(d.take(i - start + 1)));
        assert(next == digits_value(d.take(i - start + 1)));
        if next > max as u64 {
            proof {
                if all_digits(d) {
                    lemma_digits_prefix_monotone(d, i - start + 1);
                }
            }
            return None;
        }
        value = next;
        i += 1;
        assert(all_digits(d.take(i - start)));
    }
    assert(d.take(i - start) =~= d);
    Some(value as u32)
}

/// A longer all-digit prefix is worth at least as much as a shorter one.
proof fn lemma_digits_prefix_monotone(d: Seq<char>, k: int)
    requires
        0 <= k <= d.len(),
        all_digits(d),
    ensures
        digits_value(d.take(k)) <= digits_value(d),
    decreases d.len() - k,
{
    if k < d.len() {
        lemma_digits_prefix_monotone(d, k + 1);
        assert(d.take(k + 1).drop_last() =~= d.take(k));
        assert(all_digits(d.take(k)));
        lemma_digits_value_nonneg(d.take(k));
        let v = digits_value(d.take(k));
        assert(d.take(k + 1).last() == d[k]);
        assert(crate::text::is_digit(d[k]));
        assert(digits_value(d.take(k + 1)) == v * 10 + (d[k] as int - 48));
        assert(v * 10 >= v) by (nonlinear_arith)
            requires
                v >= 0,
        ;
    } else {
        assert(d.take(k) =~= d);
    }
}

/// The port remembered from the last run: the trimmed file text read as a
/// port number, unless it is 0.
pub fn remembered_port(text: &str) -> (r: Option<u16>)
    ensures
        r == match parse_u16(crate::text::trim(text@)) {
            Some(p) => if p != 0 {
                Some(p)
            } else {
                None
            },
            None => None,
        },
{
    let t = crate::text::trimmed(text);
    match parse_port(t.as_str()) {
        Some(p) => if p != 0 {
            Some(p)
        } else {
            None
        },
        None => None,
    }
}

/// The arguments Python is run with: its prefix arguments, then uvicorn
/// unbuffered serving `main:app` on 127.0.0.1 at `port`, info-level logging
/// without access logs.
pub open spec fn sidecar_args_spec(prefix: Seq<Seq<char>>, port: u16) -> Seq<Seq<char>> {
    prefix + seq![
        "-u"@,
        "-m"@,
        "uvicorn"@,
        "main:app"@,
        "--host"@,
        "127.0.0.1"@,
        "--port"@,
        crate::text::decimal(port as nat),
        "--log-level"@,
        "info"@,
        "--no-access-log"@,
    ]
}

pub fn sidecar_args(prefix: &Vec<String>, port: u16) -> (r: Vec<String>)
    ensures
        strs_view(r@) == sidecar_args_spec(strs_view(prefix@), port),
{
    let mut r: Vec<String> = Vec::new();
    let mut i: usize = 0;
    while i < prefix.len()
        invariant
            0 <= i <= prefix.len(),
            strs_view(r@) == strs_view(prefix@).take(i as int),
        decreases prefix.len() - i,
    {
        let ghost before = r@;
        r.push(prefix[i].clone());
        assert(strs_view(r@) =~= strs_view(before).push(prefix@[i as int]@));
        assert(strs_view(prefix@).take(i + 1) =~= strs_view(prefix@).take(i as int).push(
            prefix@[i as int]@,
        ));
        i += 1;
    }
    assert(strs_view(prefix@).take(i as int) =~= strs_view(prefix@));
    r.push(crate::text::owned("-u"));
    r.push(crate::text::owned("-m"));
    r.push(crate::text::owned("uvicorn"));
    r.push(crate::text::owned("main:app"));
    r.push(crate::text::owned("--host"));
    r.push(crate::text::owned("127.0.0.1"));
    r.push(crate::text::owned("--port"));
    r.push(crate::text::decimal_string(port as u64));
    r.push(crate::text::owned("--log-level"));
    r.push(crate::text::owned("info"));
    r.push(crate::text::owned("--no-access-log"));
    assert(strs_view(r@) =~= sidecar_args_spec(strs_view(prefix@), port));
    r
}

/// Seconds the backend gets to answer its health check at start-up.
pub const READY_TIMEOUT_SECS: u64 = 180;

/// The error when the backend never answered.
pub fn not_ready_error() -> (r: String)
    ensures
        r@ == "Python backend did not become ready within "@ + crate::text::decimal(180) + " seconds"@,
{
    let mut m = crate::text::owned("Python backend did not become ready within ");
    crate::text::push_decimal(&mut m, READY_TIMEOUT_SECS);
    crate::text::push_str(&mut m, " seconds");
    m
}

/// The error when the backend process ended while starting; `status` is
/// how it ended.
pub fn exited_error(status: &str) -> (r: String)
    ensures
        r@ == "Python backend exited during startup ("@ + status@
            + "). See sidecar.log for the traceback."@,
{
    let mut m = crate::text::owned("Python backend exited during startup (");
    crate::text::push_str(&mut m, status);
    crate::text::push_str(&mut m, "). See sidecar.log for the traceback.");
    m
}

} // verus!
