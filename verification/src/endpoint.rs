use vstd::prelude::*;
use vstd::string::StrSliceExecFns;
use crate::errors::TunnelError;

verus! {

/// A resolved network endpoint: a dotted-quad address and a port.
/// Connect formats the caller's host and port into address text and
/// parses it back; only literal addresses are accepted — name
/// resolution is not offered through the tunnel.
#[derive(Clone, Copy, Debug, PartialEq, Eq, Structural)]
pub struct Endpoint {
    pub a: u8,
    pub b: u8,
    pub c: u8,
    pub d: u8,
    pub port: u16,
}

pub open spec fn is_ascii_digit(c: char) -> bool {
    48 <= c as u32 <= 57
}

pub open spec fn digit_val(c: char) -> int {
    c as u32 - 48
}

pub open spec fn all_digits(s: Seq<char>) -> bool {
    forall|p: int| 0 <= p < s.len() ==> is_ascii_digit(#[trigger] s[p])
}

/// The number the digit text denotes, most significant digit first.
pub open spec fn digits_value(s: Seq<char>) -> int
    decreases s.len(),
{
    if s.len() == 0 {
        0
    } else {
        digits_value(s.drop_last()) * 10 + digit_val(s.last())
    }
}

/// One address component: one to three digits, no leading zero, value
/// at most 255.
pub open spec fn is_octet_text(s: Seq<char>) -> bool {
    &&& 1 <= s.len() <= 3
    &&& all_digits(s)
    &&& (s.len() > 1 ==> s[0] != '0')
    &&& digits_value(s) <= 255
}

/// Position of the first dot at or after `from`, or the text's length
/// if there is none.
pub open spec fn dot_from(s: Seq<char>, from: int) -> int
    decreases s.len() - from,
{
    if from < 0 || from >= s.len() {
        s.len() as int
    } else if s[from] == '.' {
        from
    } else {
        dot_from(s, from + 1)
    }
}

pub proof fn lemma_dot_from_bounds(s: Seq<char>, from: int)
    requires
        0 <= from <= s.len(),
    ensures
        from <= dot_from(s, from) <= s.len(),
        dot_from(s, from) < s.len() ==> s[dot_from(s, from)] == '.',
    decreases s.len() - from,
{
    if from < s.len() && s[from] != '.' {
        lemma_dot_from_bounds(s, from + 1);
    }
}

/// Valid dotted-quad address text: the first three dots split it into
/// four octets, and there is no fourth dot. Octets contain no dots, so
/// this deterministic split is the only possible one.
pub open spec fn is_ipv4_text(s: Seq<char>) -> bool {
    let i = dot_from(s, 0);
    let j = dot_from(s, i + 1);
    let k = dot_from(s, j + 1);
    &&& k < s.len()
    &&& dot_from(s, k + 1) == s.len()
    &&& is_octet_text(s.subrange(0, i))
    &&& is_octet_text(s.subrange(i + 1, j))
    &&& is_octet_text(s.subrange(j + 1, k))
    &&& is_octet_text(s.subrange(k + 1, s.len() as int))
}

/// The four octet values of valid dotted-quad text.
pub open spec fn ipv4_value(s: Seq<char>) -> (int, int, int, int) {
    let i = dot_from(s, 0);
    let j = dot_from(s, i + 1);
    let k = dot_from(s, j + 1);
    (
        digits_value(s.subrange(0, i)),
        digits_value(s.subrange(i + 1, j)),
        digits_value(s.subrange(j + 1, k)),
        digits_value(s.subrange(k + 1, s.len() as int)),
    )
}

/// A port is in range exactly when it fits in sixteen bits; the caller
/// passes it as the wider boundary integer type.
pub open spec fn port_in_range(port: i32) -> bool {
    0 <= port <= 65535
}

/// Whether a host/port pair resolves to an endpoint at all.
pub open spec fn endpoint_ok(host: Seq<char>, port: i32) -> bool {
    is_ipv4_text(host) && port_in_range(port)
}

fn find_dot(s: &str, from: usize) -> (r: usize)
    requires
        from <= s@.len(),
    ensures
        r == dot_from(s@, from as int),
        from <= r <= s@.len(),
        r < s@.len() ==> s@[r as int] == '.',
{
    proof {
        lemma_dot_from_bounds(s@, from as int);
    }
    let n = s.unicode_len();
    let mut i = from;
    while i < n
        invariant
            n == s@.len(),
            from <= i <= n,
            dot_from(s@, from as int) == dot_from(s@, i as int),
        decreases n - i,
    {
        let c = s.get_char(i);
        if c == '.' {
            return i;
        }
        i = i + 1;
    }
    i
}

/// Parses the octet written at `s[lo..hi)`: its value if that text is
/// a well-formed octet, absent otherwise.
fn parse_octet(s: &str, lo: usize, hi: usize) -> (r: Option<u8>)
    requires
        lo <= hi <= s@.len(),
    ensures
        r is Some <==> is_octet_text(s@.subrange(lo as int, hi as int)),
        r matches Some(v) ==> v as int == digits_value(s@.subrange(lo as int, hi as int)),
{
    let ghost text = s@.subrange(lo as int, hi as int);
    let len = hi - lo;
    if len < 1 || len > 3 {
        return None;
    }
    if len > 1 && s.get_char(lo) == '0' {
        assert(text[0] == '0');
        return None;
    }
    let mut val: u32 = 0;
    let mut idx = lo;
    while idx < hi
        invariant
            lo <= idx <= hi <= s@.len(),
            hi - lo <= 3,
            text == s@.subrange(lo as int, hi as int),
            all_digits(s@.subrange(lo as int, idx as int)),
            val == digits_value(s@.subrange(lo as int, idx as int)),
            idx - lo == 0 ==> val == 0,
            idx - lo == 1 ==> val <= 9,
            idx - lo == 2 ==> val <= 99,
            idx - lo == 3 ==> val <= 999,
        decreases hi - idx,
    {
        let c = s.get_char(idx);
        let cv = c as u32;
        if cv < 48 || cv > 57 {
            proof {
                assert(text[idx - lo] == s@[idx as int]);
                assert(!all_digits(text));
            }
            return None;
        }
        proof {
            let prev = s@.subrange(lo as int, idx as int);
            let cur = s@.subrange(lo as int, idx as int + 1);
            assert(cur.drop_last() =~= prev);
            assert(cur.last() == s@[idx as int]);
            assert forall|p: int| 0 <= p < cur.len() implies is_ascii_digit(#[trigger] cur[p]) by {
                if p < prev.len() {
                    assert(cur[p] == prev[p]);
                }
            }
        }
        val = val * 10 + (cv - 48);
        idx = idx + 1;
    }
    if val > 255 {
        return None;
    }
    assert(text =~= s@.subrange(lo as int, idx as int));
    Some(val as u8)
}

/// Resolves a caller-supplied host string and port to an endpoint.
///
/// Succeeds exactly when the host is literal dotted-quad address text
/// and the port fits in sixteen bits; the endpoint then carries those
/// octet values and that port. Anything else — a hostname, malformed
/// text, an out-of-range port — is a connection failure: the tunnel
/// does not resolve names.
pub fn parse_endpoint(host: &str, port: i32) -> (r: Result<Endpoint, TunnelError>)
    ensures
        r is Ok <==> endpoint_ok(host@, port),
        r matches Ok(ep) ==> {
            &&& (ep.a as int, ep.b as int, ep.c as int, ep.d as int) == ipv4_value(host@)
            &&& ep.port == port
        },
        r matches Err(e) ==> e is ConnectionFailed,
{
    if port < 0 || port > 65535 {
        return Err(TunnelError::ConnectionFailed("port out of range".to_owned()));
    }
    let n = host.unicode_len();
    let i = find_dot(host, 0);
    if i >= n {
        return Err(TunnelError::ConnectionFailed("not a dotted-quad address".to_owned()));
    }
    let j = find_dot(host, i + 1);
    if j >= n {
        return Err(TunnelError::ConnectionFailed("not a dotted-quad address".to_owned()));
    }
    let k = find_dot(host, j + 1);
    if k >= n {
        return Err(TunnelError::ConnectionFailed("not a dotted-quad address".to_owned()));
    }
    let rest = find_dot(host, k + 1);
    if rest < n {
        return Err(TunnelError::ConnectionFailed("not a dotted-quad address".to_owned()));
    }
    let a = match parse_octet(host, 0, i) {
        Some(v) => v,
        None => {
            return Err(TunnelError::ConnectionFailed("malformed address octet".to_owned()));
        },
    };
    let b = match parse_octet(host, i + 1, j) {
        Some(v) => v,
        None => {
            return Err(TunnelError::ConnectionFailed("malformed address octet".to_owned()));
        },
    };
    let c = match parse_octet(host, j + 1, k) {
        Some(v) => v,
        None => {
            return Err(TunnelError::ConnectionFailed("malformed address octet".to_owned()));
        },
    };
    let d = match parse_octet(host, k + 1, n) {
        Some(v) => v,
        None => {
            return Err(TunnelError::ConnectionFailed("malformed address octet".to_owned()));
        },
    };
    Ok(Endpoint { a, b, c, d, port: port as u16 })
}

} // verus!
