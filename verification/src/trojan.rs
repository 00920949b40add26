//! The Trojan handshake codec.
//!
//! Layout: a 56-byte credential field (conventionally a hex-encoded secret
//! hash; read and discarded, not validated here), 2 bytes of CR LF, 1
//! command byte (1 is TCP, anything else UDP), one address record, the
//! 2-byte big-endian port, and 2 trailing CR LF bytes. No response header is
//! written.

use vstd::prelude::*;
use crate::common::spec_addr_host;
use crate::common::spec_addr_len;
use crate::common::spec_addr_need;
use crate::common::spec_addr_valid;
use crate::common::parse_addr;
use crate::common::AddrStep;
use crate::conn::DecodeResult;
use crate::conn::Handshake;
use crate::conn::HandshakeSpec;
use crate::conn::DecodedTarget;
use crate::conn::ProxyStream;
use crate::conn::StepSpec;
use crate::conn::Transport;
use crate::conn::step_matches;
use crate::errors::ErrorKind;
use crate::errors::ProxyError;
use crate::spec_be_u16;
use crate::be_u16;

verus! {

/// One Trojan decoding step over the buffered bytes `b`, from the start of
/// the handshake.
pub open spec fn spec_trojan_step(b: Seq<u8>) -> StepSpec {
    if b.len() < 59 {
        StepSpec::Need(59)
    } else {
        let rec = b.skip(59);
        match spec_addr_need(rec) {
            Some(n) => StepSpec::Need(59 + n),
            None => if !spec_addr_valid(rec) {
                StepSpec::Reject(ErrorKind::Protocol, "invalid address"@)
            } else {
                let al = spec_addr_len(rec);
                if b.len() < 63 + al {
                    StepSpec::Need(63 + al)
                } else {
                    let cmd = b[58];
                    StepSpec::Ready(
                        HandshakeSpec {
                            host: spec_addr_host(rec),
                            port: spec_be_u16(b[59 + al], b[60 + al]),
                            transport: if cmd == 1 {
                                Transport::Tcp
                            } else {
                                Transport::Udp
                            },
                            consumed: 63 + al,
                            frames: seq![],
                        },
                    )
                }
            },
        }
    }
}

impl ProxyStream {
    /// Decodes the Trojan handshake held at the front of `b`.
    pub fn process_trojan(&self, b: &Vec<u8>) -> (r: DecodeResult)
        ensures
            step_matches(r, spec_trojan_step(b@)),
    {
        if b.len() < 59 {
            return DecodeResult::NeedBytes(59);
        }
        let ghost rec = b@.skip(59);
        match parse_addr(b, 59) {
            AddrStep::NeedMore(n) => DecodeResult::NeedBytes(59 + n),
            AddrStep::Invalid => DecodeResult::Reject(
                ProxyError::Protocol(String::from_str("invalid address")),
            ),
            AddrStep::Decoded(host, used) => {
                if b.len() < 63 + used {
                    return DecodeResult::NeedBytes(63 + used);
                }
                let cmd = b[58];
                let port = be_u16(b[59 + used], b[60 + used]);
                let hs = Handshake {
                    target: DecodedTarget {
                        host,
                        port,
                        transport: if cmd == 1 {
                            Transport::Tcp
                        } else {
                            Transport::Udp
                        },
                    },
                    consumed: 63 + used,
                    response_frames: Vec::new(),
                };
                proof {
                    assert(hs.response_frames@.map_values(|f: Vec<u8>| f@) =~= Seq::<
                        Seq<u8>,
                    >::empty());
                    assert(spec_trojan_step(b@) matches StepSpec::Ready(h) && h.frames =~= Seq::<
                        Seq<u8>,
                    >::empty());
                }
                DecodeResult::Ready(hs)
            },
        }
    }
}

} // verus!
