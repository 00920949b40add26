//! The address record shared by all four codecs, and the canonical textual
//! rendering of decoded addresses.
//!
//! An address record is tagged by one type byte: `1` is followed by 4 raw
//! IPv4 bytes, `2` and `3` by one length byte and that many bytes of domain
//! name, `4` by 16 raw IPv6 bytes. The record decodes to canonical text: the
//! dotted decimal form for IPv4, the compressed lowercase-hex form for IPv6,
//! the (lossily UTF-8 decoded) name for domains.

use vstd::prelude::*;
use crate::spec_be_u16;
use crate::be_u16;

verus! {

/// The lowercase digit character for a value below 16.
pub open spec fn spec_digit(d: int) -> char
    recommends
        0 <= d < 16,
{
    "0123456789abcdef"@[d]
}

/// One-character string slice holding the digit for `d`.
fn digit_str(d: u8) -> (r: &'static str)
    requires
        d < 16,
    ensures
        r@ =~= seq![spec_digit(d as int)],
{
    proof {
        reveal_strlit("0123456789abcdef");
        reveal_strlit("0");
        reveal_strlit("1");
        reveal_strlit("2");
        reveal_strlit("3");
        reveal_strlit("4");
        reveal_strlit("5");
        reveal_strlit("6");
        reveal_strlit("7");
        reveal_strlit("8");
        reveal_strlit("9");
        reveal_strlit("a");
        reveal_strlit("b");
        reveal_strlit("c");
        reveal_strlit("d");
        reveal_strlit("e");
        reveal_strlit("f");
    }
    match d {
        0 => "0",
        1 => "1",
        2 => "2",
        3 => "3",
        4 => "4",
        5 => "5",
        6 => "6",
        7 => "7",
        8 => "8",
        9 => "9",
        10 => "a",
        11 => "b",
        12 => "c",
        13 => "d",
        14 => "e",
        _ => "f",
    }
}

/// The decimal rendering of a nonnegative integer, without leading zeros
/// (`0` renders as one digit).
pub open spec fn spec_dec_digits(n: int) -> Seq<char>
    recommends
        n >= 0,
    decreases n,
{
    if n < 10 {
        seq![spec_digit(n)]
    } else {
        spec_dec_digits(n / 10).push(spec_digit(n % 10))
    }
}

/// The lowercase hexadecimal rendering of a nonnegative integer, without
/// leading zeros.
pub open spec fn spec_hex_digits(n: int) -> Seq<char>
    recommends
        n >= 0,
    decreases n,
{
    if n < 16 {
        seq![spec_digit(n)]
    } else {
        spec_hex_digits(n / 16).push(spec_digit(n % 16))
    }
}

/// Renders an integer in decimal.
pub fn u16_dec_string(n: u16) -> (r: String)
    ensures
        r@ =~= spec_dec_digits(n as int),
    decreases n,
{
    if n < 10 {
        String::from_str(digit_str(n as u8))
    } else {
        let mut s = u16_dec_string(n / 10);
        s.append(digit_str((n % 10) as u8));
        s
    }
}

/// Renders an integer in lowercase hexadecimal.
pub fn u16_hex_string(n: u16) -> (r: String)
    ensures
        r@ =~= spec_hex_digits(n as int),
    decreases n,
{
    if n < 16 {
        String::from_str(digit_str(n as u8))
    } else {
        let mut s = u16_hex_string(n / 16);
        s.append(digit_str((n % 16) as u8));
        s
    }
}

/// The dotted-decimal text of four IPv4 bytes.
pub open spec fn spec_ipv4_chars(a: u8, b: u8, c: u8, d: u8) -> Seq<char> {
    spec_dec_digits(a as int) + seq!['.'] + spec_dec_digits(b as int) + seq!['.']
        + spec_dec_digits(c as int) + seq!['.'] + spec_dec_digits(d as int)
}

/// Renders four IPv4 bytes as dotted decimal.
pub fn ipv4_string(a: u8, b: u8, c: u8, d: u8) -> (r: String)
    ensures
        r@ =~= spec_ipv4_chars(a, b, c, d),
{
    proof {
        reveal_strlit(".");
    }
    let mut s = u16_dec_string(a as u16);
    s.append(".");
    let sb = u16_dec_string(b as u16);
    s.append(sb.as_str());
    s.append(".");
    let sc = u16_dec_string(c as u16);
    s.append(sc.as_str());
    s.append(".");
    let sd = u16_dec_string(d as u16);
    s.append(sd.as_str());
    s
}

/// The eight 16-bit groups held by 16 IPv6 bytes, big-endian.
pub open spec fn spec_groups(b: Seq<u8>) -> Seq<u16>
    recommends
        b.len() == 16,
{
    Seq::new(8, |i: int| spec_be_u16(b[2 * i], b[2 * i + 1]))
}

/// One step short of the longest run of zero groups: scans groups from
/// position `i` with a current run `(cs, cl)` and best-so-far `(bs, bl)`,
/// where a strictly longer run displaces the best (so the leftmost longest
/// run wins).
pub open spec fn spec_zero_span_scan(
    gs: Seq<u16>,
    i: int,
    cs: int,
    cl: int,
    bs: int,
    bl: int,
) -> (int, int)
    recommends
        0 <= i <= gs.len(),
    decreases gs.len() - i,
{
    if i < 0 || i >= gs.len() {
        (bs, bl)
    } else if gs[i] == 0 {
        let ncs = if cl == 0 {
            i
        } else {
            cs
        };
        let ncl = cl + 1;
        if ncl > bl {
            spec_zero_span_scan(gs, i + 1, ncs, ncl, ncs, ncl)
        } else {
            spec_zero_span_scan(gs, i + 1, ncs, ncl, bs, bl)
        }
    } else {
        spec_zero_span_scan(gs, i + 1, 0, 0, bs, bl)
    }
}

/// The leftmost longest run of zero groups, as `(start, length)`.
pub open spec fn spec_zero_span(gs: Seq<u16>) -> (int, int) {
    spec_zero_span_scan(gs, 0, 0, 0, 0, 0)
}

/// Hex groups joined by `:`.
pub open spec fn spec_hex_groups_join(gs: Seq<u16>) -> Seq<char>
    decreases gs.len(),
{
    if gs.len() == 0 {
        Seq::empty()
    } else if gs.len() == 1 {
        spec_hex_digits(gs[0] as int)
    } else {
        spec_hex_digits(gs[0] as int) + seq![':'] + spec_hex_groups_join(gs.skip(1))
    }
}

/// The canonical text of 16 IPv6 bytes: the IPv4-mapped form is printed as
/// `::ffff:a.b.c.d`; otherwise the leftmost longest run of two or more zero
/// groups is compressed to `::` and every group is lowercase hex without
/// leading zeros.
pub open spec fn spec_ipv6_chars(b: Seq<u8>) -> Seq<char>
    recommends
        b.len() == 16,
{
    let gs = spec_groups(b);
    if gs[0] == 0 && gs[1] == 0 && gs[2] == 0 && gs[3] == 0 && gs[4] == 0 && gs[5] == 0xffff {
        "::ffff:"@ + spec_ipv4_chars(b[12], b[13], b[14], b[15])
    } else {
        let span = spec_zero_span(gs);
        if span.1 > 1 {
            spec_hex_groups_join(gs.take(span.0)) + "::"@ + spec_hex_groups_join(
                gs.skip(span.0 + span.1),
            )
        } else {
            spec_hex_groups_join(gs)
        }
    }
}

/// Joins `gs[lo..hi]` as hex groups separated by `:`.
fn hex_join(gs: &Vec<u16>, lo: usize, hi: usize) -> (r: String)
    requires
        lo <= hi <= gs@.len(),
    ensures
        r@ =~= spec_hex_groups_join(gs@.subrange(lo as int, hi as int)),
    decreases hi - lo,
{
    proof {
        reveal_strlit(":");
    }
    if lo == hi {
        String::new()
    } else if lo + 1 == hi {
        let s = u16_hex_string(gs[lo]);
        proof {
            assert(gs@.subrange(lo as int, hi as int) =~= seq![gs@[lo as int]]);
        }
        s
    } else {
        let mut s = u16_hex_string(gs[lo]);
        s.append(":");
        let rest = hex_join(gs, lo + 1, hi);
        s.append(rest.as_str());
        proof {
            let sub = gs@.subrange(lo as int, hi as int);
            assert(sub[0] == gs@[lo as int]);
            assert(sub.skip(1) =~= gs@.subrange(lo as int + 1, hi as int));
        }
        s
    }
}

/// Renders 16 IPv6 bytes canonically.
pub fn ipv6_string(b: &Vec<u8>) -> (r: String)
    requires
        b@.len() == 16,
    ensures
        r@ =~= spec_ipv6_chars(b@),
{
    let mut gs: Vec<u16> = Vec::new();
    let mut i: usize = 0;
    while i < 8
        invariant
            i <= 8,
            b@.len() == 16,
            gs@.len() == i,
            forall|j: int| 0 <= j < i ==> gs@[j] == spec_be_u16(b@[2 * j], b@[2 * j + 1]),
        decreases 8 - i,
    {
        let g = be_u16(b[2 * i], b[2 * i + 1]);
        gs.push(g);
        i += 1;
    }
    proof {
        assert(gs@ =~= spec_groups(b@));
    }
    if gs[0] == 0 && gs[1] == 0 && gs[2] == 0 && gs[3] == 0 && gs[4] == 0 && gs[5] == 0xffff {
        proof {
            reveal_strlit("::ffff:");
        }
        let mut s = String::from_str("::ffff:");
        let v4 = ipv4_string(b[12], b[13], b[14], b[15]);
        s.append(v4.as_str());
        s
    } else {
        // scan for the leftmost longest zero run, as the canonical form asks
        let mut cs: usize = 0;
        let mut cl: usize = 0;
        let mut bs: usize = 0;
        let mut bl: usize = 0;
        let mut j: usize = 0;
        while j < 8
            invariant
                j <= 8,
                gs@.len() == 8,
                cl <= j,
                cs + cl <= j,
                bs + bl <= j,
                spec_zero_span_scan(gs@, j as int, cs as int, cl as int, bs as int, bl as int)
                    == spec_zero_span(gs@),
            decreases 8 - j,
        {
            if gs[j] == 0 {
                if cl == 0 {
                    cs = j;
                }
                cl = cl + 1;
                if cl > bl {
                    bs = cs;
                    bl = cl;
                }
            } else {
                cs = 0;
                cl = 0;
            }
            j += 1;
        }
        if bl > 1 {
            proof {
                reveal_strlit("::");
            }
            let mut s = hex_join(&gs, 0, bs);
            s.append("::");
            let tail = hex_join(&gs, bs + bl, 8);
            s.append(tail.as_str());
            proof {
                assert(gs@.subrange(0, bs as int) =~= gs@.take(bs as int));
                assert(gs@.subrange(bs as int + bl as int, 8) =~= gs@.skip(bs as int + bl as int));
            }
            s
        } else {
            let s = hex_join(&gs, 0, 8);
            proof {
                assert(gs@.subrange(0, 8) =~= gs@);
            }
            s
        }
    }
}

/// Whether every byte is ASCII.
pub open spec fn spec_all_ascii(b: Seq<u8>) -> bool {
    forall|i: int| 0 <= i < b.len() ==> b[i] < 0x80
}

/// ASCII bytes read as the characters they stand for.
pub open spec fn spec_ascii_chars(b: Seq<u8>) -> Seq<char> {
    b.map_values(|x: u8| x as char)
}

/// What a byte sequence decodes to under lossy UTF-8 decoding. The decoding
/// depends on the bytes alone.
pub uninterp spec fn utf8_lossy_of(b: Seq<u8>) -> Seq<char>;

/// Relies on String::from_utf8_lossy: the result is a pure function of the
/// bytes, and bytes that are all ASCII decode to themselves.
#[verifier::external_body]
fn utf8_lossy_string(b: &Vec<u8>) -> (r: String)
    ensures
        r@ == utf8_lossy_of(b@),
        spec_all_ascii(b@) ==> r@ == spec_ascii_chars(b@),
{
    String::from_utf8_lossy(b.as_slice()).into_owned()
}

/// How many bytes an address record starting at the head of `s` still needs
/// before it can be decoded or rejected, if any.
pub open spec fn spec_addr_need(s: Seq<u8>) -> Option<int> {
    if s.len() < 1 {
        Some(1int)
    } else if s[0] == 1 {
        if s.len() < 5 {
            Some(5int)
        } else {
            None
        }
    } else if s[0] == 2 || s[0] == 3 {
        if s.len() < 2 {
            Some(2int)
        } else if s.len() < 2 + s[1] {
            Some(2 + s[1] as int)
        } else {
            None
        }
    } else if s[0] == 4 {
        if s.len() < 17 {
            Some(17int)
        } else {
            None
        }
    } else {
        None
    }
}

/// Whether the type byte tags a known address form.
pub open spec fn spec_addr_valid(s: Seq<u8>) -> bool {
    s.len() >= 1 && (s[0] == 1 || s[0] == 2 || s[0] == 3 || s[0] == 4)
}

/// How many bytes a complete address record occupies.
pub open spec fn spec_addr_len(s: Seq<u8>) -> int
    recommends
        spec_addr_valid(s),
        spec_addr_need(s) is None,
{
    if s[0] == 1 {
        5
    } else if s[0] == 2 || s[0] == 3 {
        2 + s[1] as int
    } else {
        17
    }
}

/// The canonical host text of a complete address record. An all-ASCII
/// domain name decodes to exactly its own characters; any other domain
/// bytes decode lossily.
pub open spec fn spec_addr_host(s: Seq<u8>) -> Seq<char>
    recommends
        spec_addr_valid(s),
        spec_addr_need(s) is None,
{
    if s[0] == 1 {
        spec_ipv4_chars(s[1], s[2], s[3], s[4])
    } else if s[0] == 2 || s[0] == 3 {
        let dom = s.subrange(2, 2 + s[1] as int);
        if spec_all_ascii(dom) {
            spec_ascii_chars(dom)
        } else {
            utf8_lossy_of(dom)
        }
    } else {
        spec_ipv6_chars(s.subrange(1, 17))
    }
}

/// Outcome of decoding one address record.
pub enum AddrStep {
    /// The record needs at least this many bytes in all before it can be
    /// decoded or rejected.
    NeedMore(usize),
    /// The canonical host text and the number of bytes the record occupied.
    Decoded(String, usize),
    /// The type byte tags no known address form.
    Invalid,
}

/// Decodes the address record starting at position `at` of `b`.
pub fn parse_addr(b: &Vec<u8>, at: usize) -> (r: AddrStep)
    requires
        at <= b@.len(),
    ensures
        (match r {
            AddrStep::NeedMore(n) => spec_addr_need(b@.skip(at as int)) == Some(n as int),
            AddrStep::Decoded(host, used) => spec_addr_need(b@.skip(at as int)) is None
                && spec_addr_valid(b@.skip(at as int)) && host@ == spec_addr_host(
                b@.skip(at as int),
            ) && used as int == spec_addr_len(b@.skip(at as int)),
            AddrStep::Invalid => spec_addr_need(b@.skip(at as int)) is None && !spec_addr_valid(
                b@.skip(at as int),
            ),
        }),
{
    let ghost s = b@.skip(at as int);
    let avail = b.len() - at;
    if avail < 1 {
        return AddrStep::NeedMore(1);
    }
    let t = b[at];
    proof {
        assert(s[0] == b@[at as int]);
    }
    if t == 1 {
        if avail < 5 {
            AddrStep::NeedMore(5)
        } else {
            proof {
                assert(s[1] == b@[at + 1]);
                assert(s[2] == b@[at + 2]);
                assert(s[3] == b@[at + 3]);
                assert(s[4] == b@[at + 4]);
            }
            AddrStep::Decoded(ipv4_string(b[at + 1], b[at + 2], b[at + 3], b[at + 4]), 5)
        }
    } else if t == 2 || t == 3 {
        if avail < 2 {
            AddrStep::NeedMore(2)
        } else {
            let l = b[at + 1] as usize;
            proof {
                assert(s[1] == b@[at + 1]);
            }
            if avail < 2 + l {
                AddrStep::NeedMore(2 + l)
            } else {
                let dom = vstd::slice::slice_to_vec(
                    vstd::slice::slice_subrange(b.as_slice(), at + 2, at + 2 + l),
                );
                proof {
                    assert(dom@ =~= s.subrange(2, 2 + s[1] as int));
                }
                AddrStep::Decoded(utf8_lossy_string(&dom), 2 + l)
            }
        }
    } else if t == 4 {
        if avail < 17 {
            AddrStep::NeedMore(17)
        } else {
            let raw = vstd::slice::slice_to_vec(
                vstd::slice::slice_subrange(b.as_slice(), at + 1, at + 17),
            );
            proof {
                assert(raw@ =~= s.subrange(1, 17));
            }
            AddrStep::Decoded(ipv6_string(&raw), 17)
        }
    } else {
        AddrStep::Invalid
    }
}

/// A complete address record occupies at least its type byte and at most
/// the bytes that are there.
pub proof fn lemma_addr_complete_len(s: Seq<u8>)
    requires
        spec_addr_need(s) is None,
        spec_addr_valid(s),
    ensures
        1 <= spec_addr_len(s) <= s.len(),
{
}

/// The port held by two bytes at the head of `s`, if both are there.
pub open spec fn spec_parse_port(s: Seq<u8>) -> Option<u16> {
    if s.len() >= 2 {
        Some(spec_be_u16(s[0], s[1]))
    } else {
        None
    }
}

/// Reads the big-endian port at position `at` of `b`.
pub fn parse_port(b: &Vec<u8>, at: usize) -> (r: Option<u16>)
    requires
        at <= b@.len(),
    ensures
        r == spec_parse_port(b@.skip(at as int)),
{
    if b.len() - at >= 2 {
        proof {
            assert(b@.skip(at as int)[0] == b@[at as int]);
            assert(b@.skip(at as int)[1] == b@[at + 1]);
        }
        Some(be_u16(b[at], b[at + 1]))
    } else {
        None
    }
}

} // verus!

