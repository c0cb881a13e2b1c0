//! Endpoint handling for a query session: deciding whether a host string is
//! an IPv4 dotted quad (and a valid one), and forming the `host:port` key
//! under which sessions are cached and throttled. The socket itself lives
//! with the caller; every decision about the endpoint is made here.

use vstd::prelude::*;
use vstd::string::*;

use crate::codec::Ipv4Octets;
use crate::strutil::spec_dec_digits;
use crate::strutil::u32_to_dec_string;

verus! {

/// Whether a character is a decimal digit.
pub open spec fn is_dec_digit_char(c: char) -> bool {
    48 <= c as u32 && c as u32 <= 57
}

/// The first position at or after `pos` that is not a decimal digit (the
/// sequence's end if digits run out).
pub open spec fn spec_digit_run_end(s: Seq<char>, pos: int) -> int
    decreases s.len() - pos,
        when 0 <= pos <= s.len()
{
    if pos < s.len() && is_dec_digit_char(s[pos]) {
        spec_digit_run_end(s, pos + 1)
    } else {
        pos
    }
}

/// A digit run never ends before it starts.
proof fn lemma_digit_run_end_ge(s: Seq<char>, pos: int)
    requires
        0 <= pos <= s.len(),
    ensures
        pos <= spec_digit_run_end(s, pos) <= s.len(),
    decreases s.len() - pos,
{
    if pos < s.len() && is_dec_digit_char(s[pos]) {
        lemma_digit_run_end_ge(s, pos + 1);
    }
}

/// The value of the decimal digits `s[start..end]`.
pub open spec fn spec_digits_val(s: Seq<char>, start: int, end: int) -> nat
    decreases end - start,
        when start <= end
{
    if start >= end {
        0
    } else {
        (spec_digits_val(s, start, end - 1) * 10 + (s[end - 1] as int - 48)) as nat
    }
}

/// Whether the digit run starting at `start` is one dotted-quad part: one to
/// three digits whose value is at most 255.
pub open spec fn spec_part_ok(s: Seq<char>, start: int) -> bool {
    let e = spec_digit_run_end(s, start);
    1 <= e - start <= 3 && spec_digits_val(s, start, e) <= 255
}

/// Whether the part starting at `start` has no leading zero: a single digit,
/// or a first digit other than zero.
pub open spec fn spec_part_strict(s: Seq<char>, start: int) -> bool {
    spec_digit_run_end(s, start) - start == 1 || s[start] != '0'
}

/// Whether `s` is a dotted quad: four parts of one to three digits, each
/// valued at most 255, separated by single dots, with nothing before or
/// after. Leading zeros in a part are allowed here.
pub open spec fn spec_is_ipv4_pattern(s: Seq<char>) -> bool {
    let e1 = spec_digit_run_end(s, 0);
    let e2 = spec_digit_run_end(s, e1 + 1);
    let e3 = spec_digit_run_end(s, e2 + 1);
    let e4 = spec_digit_run_end(s, e3 + 1);
    &&& spec_part_ok(s, 0)
    &&& e1 < s.len() && s[e1] == '.'
    &&& spec_part_ok(s, e1 + 1)
    &&& e2 < s.len() && s[e2] == '.'
    &&& spec_part_ok(s, e2 + 1)
    &&& e3 < s.len() && s[e3] == '.'
    &&& spec_part_ok(s, e3 + 1)
    &&& e4 == s.len()
}

/// Whether a dotted quad also passes the stricter address syntax that the
/// standard parser enforces: no part has a leading zero.
pub open spec fn spec_ipv4_no_leading_zeros(s: Seq<char>) -> bool {
    let e1 = spec_digit_run_end(s, 0);
    let e2 = spec_digit_run_end(s, e1 + 1);
    let e3 = spec_digit_run_end(s, e2 + 1);
    &&& spec_part_strict(s, 0)
    &&& spec_part_strict(s, e1 + 1)
    &&& spec_part_strict(s, e2 + 1)
    &&& spec_part_strict(s, e3 + 1)
}

/// The four octet values of a dotted quad.
pub open spec fn spec_ipv4_octets(s: Seq<char>) -> Ipv4Octets {
    let e1 = spec_digit_run_end(s, 0);
    let e2 = spec_digit_run_end(s, e1 + 1);
    let e3 = spec_digit_run_end(s, e2 + 1);
    let e4 = spec_digit_run_end(s, e3 + 1);
    Ipv4Octets {
        a: spec_digits_val(s, 0, e1) as u8,
        b: spec_digits_val(s, e1 + 1, e2) as u8,
        c: spec_digits_val(s, e2 + 1, e3) as u8,
        d: spec_digits_val(s, e3 + 1, e4) as u8,
    }
}

/// Whether the character at `i` is a decimal digit.
fn is_digit_at(s: &str, i: usize) -> (r: bool)
    requires
        i < s@.len(),
    ensures
        r == is_dec_digit_char(s@[i as int]),
{
    let cu = s.get_char(i) as u32;
    cu >= 48 && cu <= 57
}

/// Scans one dotted-quad part starting at `start`: its value, where it ends,
/// and whether it is free of leading zeros. `None` when no valid part starts
/// there.
fn scan_part(s: &str, start: usize, n: usize) -> (r: Option<(u8, usize, bool)>)
    requires
        n == s@.len(),
        start <= n,
    ensures
        match r {
            Some(t) => t.1 == spec_digit_run_end(s@, start as int) && spec_part_ok(
                s@,
                start as int,
            ) && t.0 == spec_digits_val(s@, start as int, t.1 as int) && t.2 == spec_part_strict(
                s@,
                start as int,
            ) && start < t.1 <= n,
            None => !spec_part_ok(s@, start as int),
        },
{
    let mut pos = start;
    let mut val: u32 = 0;
    while pos < n && is_digit_at(s, pos)
        invariant
            n == s@.len(),
            start <= pos <= n,
            spec_digit_run_end(s@, start as int) == spec_digit_run_end(s@, pos as int),
            pos - start <= 3 ==> val == spec_digits_val(s@, start as int, pos as int),
            pos - start == 0 ==> val == 0,
            pos - start == 1 ==> val <= 9,
            pos - start == 2 ==> val <= 99,
            pos - start >= 3 ==> val <= 999,
        decreases n - pos,
    {
        if pos - start < 3 {
            let c = s.get_char(pos);
            val = val * 10 + (c as u32 - 48);
        }
        pos = pos + 1;
        proof {
            assert(spec_digit_run_end(s@, pos as int - 1) == spec_digit_run_end(s@, pos as int));
        }
    }
    proof {
        assert(spec_digit_run_end(s@, pos as int) == pos as int);
        lemma_digit_run_end_ge(s@, start as int);
    }
    let count = pos - start;
    if count == 0 || count > 3 {
        return None;
    }
    if val > 255 {
        return None;
    }
    let strict = count == 1 || !char_eq_at(s, start, '0');
    Some((val as u8, pos, strict))
}

/// Whether the character at `i` is `c`.
fn char_eq_at(s: &str, i: usize, c: char) -> (r: bool)
    requires
        i < s@.len(),
    ensures
        r == (s@[i as int] == c),
{
    s.get_char(i) == c
}

/// How a host string is treated when a session is opened.
#[derive(Clone, Copy, PartialEq, Eq, Structural, Debug)]
pub enum HostClass {
    /// A dotted quad in strict address syntax: connect to these octets.
    Ipv4Literal(Ipv4Octets),
    /// Shaped like a dotted quad, but not a valid address (a leading zero):
    /// rejected as invalid input, never resolved.
    Ipv4Invalid,
    /// Anything else: handed to DNS resolution.
    Hostname,
}

/// Classifies a host string: a strict dotted quad is used as an address
/// directly, a dotted quad with leading zeros is invalid, and anything else
/// goes to DNS.
pub fn classify_host(host: &str) -> (r: HostClass)
    ensures
        spec_is_ipv4_pattern(host@) && spec_ipv4_no_leading_zeros(host@) ==> r
            == HostClass::Ipv4Literal(spec_ipv4_octets(host@)),
        spec_is_ipv4_pattern(host@) && !spec_ipv4_no_leading_zeros(host@) ==> r
            == HostClass::Ipv4Invalid,
        !spec_is_ipv4_pattern(host@) ==> r == HostClass::Hostname,
{
    let n = host.unicode_len();
    let p1 = match scan_part(host, 0, n) {
        Some(t) => t,
        None => {
            return HostClass::Hostname;
        },
    };
    if p1.1 >= n || !char_eq_at(host, p1.1, '.') {
        return HostClass::Hostname;
    }
    let p2 = match scan_part(host, p1.1 + 1, n) {
        Some(t) => t,
        None => {
            return HostClass::Hostname;
        },
    };
    if p2.1 >= n || !char_eq_at(host, p2.1, '.') {
        return HostClass::Hostname;
    }
    let p3 = match scan_part(host, p2.1 + 1, n) {
        Some(t) => t,
        None => {
            return HostClass::Hostname;
        },
    };
    if p3.1 >= n || !char_eq_at(host, p3.1, '.') {
        return HostClass::Hostname;
    }
    let p4 = match scan_part(host, p3.1 + 1, n) {
        Some(t) => t,
        None => {
            return HostClass::Hostname;
        },
    };
    if p4.1 != n {
        return HostClass::Hostname;
    }
    if p1.2 && p2.2 && p3.2 && p4.2 {
        HostClass::Ipv4Literal(Ipv4Octets { a: p1.0, b: p2.0, c: p3.0, d: p4.0 })
    } else {
        HostClass::Ipv4Invalid
    }
}

/// The identity key an endpoint is cached and throttled under: the literal
/// `host:port` string.
pub fn endpoint_key(host: &str, port: u16) -> (r: String)
    ensures
        r@ == host@ + ":"@ + spec_dec_digits(port as nat),
{
    let mut s = String::from_str(host);
    s.append(":");
    let digits = u32_to_dec_string(port as u32);
    s.append(digits.as_str());
    s
}

} // verus!
