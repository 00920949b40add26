//! Immutable per-session configuration, supplied by the caller.

use vstd::prelude::*;

verus! {

/// Session configuration. `uuid` is the 128-bit client identity used by the
/// VMess key-derivation scheme; `proxy_addr` / `proxy_port` is the secondary
/// (fallback) outbound target. The page URLs only matter to the unverified
/// routing layer around this library.
pub struct Config {
    pub uuid: Vec<u8>,
    pub host: String,
    pub proxy_addr: String,
    pub proxy_port: u16,
    pub main_page_url: String,
    pub sub_page_url: String,
    pub link_page_url: String,
    pub converter_page_url: String,
    pub checker_page_url: String,
}

impl Config {
    /// A well-formed configuration carries exactly 16 bytes of client identity.
    pub open spec fn wf(&self) -> bool {
        self.uuid@.len() == 16
    }
}

/// The position of the first `-` byte at or after `i`, if any. Splitting on
/// the byte 0x2D is faithful to splitting on the character `-`: no UTF-8
/// continuation byte has that value.
pub open spec fn spec_find_dash(s: Seq<u8>, i: int) -> Option<int>
    decreases s.len() - i,
{
    if i < 0 || i >= s.len() {
        None
    } else if s[i] == 45 {
        Some(i)
    } else {
        spec_find_dash(s, i + 1)
    }
}

/// Folds decimal digits onto `acc`; any non-digit byte or a value over
/// 65535 rejects.
pub open spec fn spec_parse_digits(s: Seq<u8>, acc: int) -> Option<u16>
    recommends
        0 <= acc <= 0xFFFF,
    decreases s.len(),
{
    if s.len() == 0 {
        Some(acc as u16)
    } else if 48 <= s[0] <= 57 {
        let v = acc * 10 + (s[0] as int - 48);
        if v > 0xFFFF {
            None
        } else {
            spec_parse_digits(s.skip(1), v)
        }
    } else {
        None
    }
}

/// A decimal port: an optional leading `+`, then at least one digit, value
/// at most 65535 — the inputs the standard integer parser accepts.
pub open spec fn spec_parse_u16(s: Seq<u8>) -> Option<u16> {
    let t = if s.len() > 0 && s[0] == 43 {
        s.skip(1)
    } else {
        s
    };
    if t.len() == 0 {
        None
    } else {
        spec_parse_digits(t, 0)
    }
}

/// What a routed `host-port` path segment splits to: the bytes before the
/// first `-`, and the port parsed from everything after it.
pub open spec fn spec_proxy_target(s: Seq<u8>) -> Option<(Seq<u8>, u16)> {
    match spec_find_dash(s, 0) {
        None => None,
        Some(i) => match spec_parse_u16(s.skip(i + 1)) {
            None => None,
            Some(p) => Some((s.take(i), p)),
        },
    }
}

/// Splits a routed `host-port` segment at its first `-` and parses the
/// port, as the tunnel route overrides the fallback target.
pub fn parse_proxy_target(s: &Vec<u8>) -> (r: Option<(Vec<u8>, u16)>)
    ensures
        (match r {
            Some(hp) => spec_proxy_target(s@) matches Some(shp) && hp.0@ == shp.0 && hp.1 == shp.1,
            None => spec_proxy_target(s@) is None,
        }),
{
    let n = s.len();
    let mut i: usize = 0;
    let mut dash: Option<usize> = None;
    while i < n
        invariant_except_break
            dash is None,
        invariant
            i <= n,
            n == s@.len(),
            spec_find_dash(s@, 0) == spec_find_dash(s@, i as int),
        ensures
            (dash matches Some(d) && d == i && i < n && s@[i as int] == 45) || (dash is None && i
                == n),
        decreases n - i,
    {
        if s[i] == 45 {
            dash = Some(i);
            break ;
        }
        i += 1;
    }
    let d = match dash {
        Some(d) => d,
        None => {
            return None;
        },
    };
    proof {
        assert(spec_find_dash(s@, 0) == Some(d as int));
    }
    let mut j = d + 1;
    if j < n && s[j] == 43 {
        j += 1;
    }
    let ghost tstart = j as int;
    proof {
        let t = s@.skip(d + 1);
        if t.len() > 0 && t[0] == 43 {
            assert(t[0] == s@[d + 1]);
            assert(t.skip(1) =~= s@.skip(tstart));
        } else {
            assert(t =~= s@.skip(tstart));
        }
    }
    if j == n {
        return None;
    }
    let mut acc: u32 = 0;
    while j < n
        invariant
            tstart <= j <= n,
            d < n,
            n == s@.len(),
            acc <= 0xFFFF,
            spec_find_dash(s@, 0) == Some(d as int),
            spec_parse_u16(s@.skip(d + 1)) == spec_parse_digits(s@.skip(tstart), 0),
            spec_parse_digits(s@.skip(tstart), 0) == spec_parse_digits(s@.skip(j as int), acc as int),
        decreases n - j,
    {
        let c = s[j];
        proof {
            assert(s@.skip(j as int)[0] == s@[j as int]);
        }
        if c < 48 || c > 57 {
            return None;
        }
        let v = acc * 10 + (c - 48) as u32;
        if v > 0xFFFF {
            return None;
        }
        proof {
            assert(s@.skip(j as int).skip(1) =~= s@.skip(j as int + 1));
        }
        acc = v;
        j += 1;
    }
    proof {
        assert(s@.skip(n as int).len() == 0);
    }
    let host = vstd::slice::slice_to_vec(vstd::slice::slice_subrange(s.as_slice(), 0, d));
    proof {
        assert(host@ =~= s@.take(d as int));
    }
    Some((host, acc as u16))
}

} // verus!
