//! The Shadowsocks handshake codec.
//!
//! Layout: one address record, then the 2-byte big-endian port. The
//! transport is always treated as TCP — telling a UDP-tagged Shadowsocks
//! packet apart is a documented limitation. No response header is written.

use vstd::prelude::*;
use crate::common::spec_addr_host;
use crate::common::spec_addr_len;
use crate::common::spec_addr_need;
use crate::common::spec_addr_valid;
use crate::common::parse_addr;
use crate::common::AddrStep;
use crate::conn::DecodeResult;
use crate::conn::Handshake;
use crate::conn::HandshakeSpec;
use crate::conn::DecodedTarget;
use crate::conn::ProxyStream;
use crate::conn::StepSpec;
use crate::conn::Transport;
use crate::conn::step_matches;
use crate::errors::ErrorKind;
use crate::errors::ProxyError;
use crate::spec_be_u16;
use crate::be_u16;

verus! {

/// One Shadowsocks decoding step over the buffered bytes `b`, from the
/// start of the handshake.
pub open spec fn spec_shadowsocks_step(b: Seq<u8>) -> StepSpec {
    match spec_addr_need(b) {
        Some(n) => StepSpec::Need(n),
        None => if !spec_addr_valid(b) {
            StepSpec::Reject(ErrorKind::Protocol, "invalid address"@)
        } else {
            let al = spec_addr_len(b);
            if b.len() < al + 2 {
                StepSpec::Need(al + 2)
            } else {
                StepSpec::Ready(
                    HandshakeSpec {
                        host: spec_addr_host(b),
                        port: spec_be_u16(b[al], b[al + 1]),
                        transport: Transport::Tcp,
                        consumed: al + 2,
                        frames: seq![],
                    },
                )
            }
        },
    }
}

impl ProxyStream {
    /// Decodes the Shadowsocks handshake held at the front of `b`.
    pub fn process_shadowsocks(&self, b: &Vec<u8>) -> (r: DecodeResult)
        ensures
            step_matches(r, spec_shadowsocks_step(b@)),
    {
        proof {
            assert(b@.skip(0) =~= b@);
        }
        match parse_addr(b, 0) {
            AddrStep::NeedMore(n) => DecodeResult::NeedBytes(n),
            AddrStep::Invalid => DecodeResult::Reject(
                ProxyError::Protocol(String::from_str("invalid address")),
            ),
            AddrStep::Decoded(host, used) => {
                if b.len() < used + 2 {
                    return DecodeResult::NeedBytes(used + 2);
                }
                let port = be_u16(b[used], b[used + 1]);
                let hs = Handshake {
                    target: DecodedTarget { host, port, transport: Transport::Tcp },
                    consumed: used + 2,
                    response_frames: Vec::new(),
                };
                proof {
                    assert(hs.response_frames@.map_values(|f: Vec<u8>| f@) =~= Seq::<
                        Seq<u8>,
                    >::empty());
                    assert(spec_shadowsocks_step(b@) matches StepSpec::Ready(h) && h.frames =~= Seq::<
                        Seq<u8>,
                    >::empty());
                }
                DecodeResult::Ready(hs)
            },
        }
    }
}

} // verus!
