//! The VLESS handshake codec.
//!
//! Layout: 1 version byte (ignored), a 16-byte client identifier (parsed,
//! not validated against the session identity), 1 length byte plus that many
//! bytes of opaque extension data (ignored), 1 command byte (1 is TCP,
//! anything else UDP), the 2-byte big-endian port, then one address record —
//! port before address, the reverse of the other protocols. A TCP session is
//! owed the fixed 2-byte acknowledgement `{0, 0}` before relaying.

use vstd::prelude::*;
use crate::common::spec_addr_host;
use crate::common::spec_addr_len;
use crate::common::spec_addr_need;
use crate::common::spec_addr_valid;
use crate::common::parse_addr;
use crate::common::AddrStep;
use crate::conn::DecodeResult;
use crate::conn::Handshake;
use crate::conn::HandshakeSpec;
use crate::conn::DecodedTarget;
use crate::conn::ProxyStream;
use crate::conn::StepSpec;
use crate::conn::Transport;
use crate::conn::step_matches;
use crate::errors::ErrorKind;
use crate::errors::ProxyError;
use crate::spec_be_u16;
use crate::be_u16;

verus! {

/// One VLESS decoding step over the buffered bytes `b`, from the start of
/// the handshake.
pub open spec fn spec_vless_step(b: Seq<u8>) -> StepSpec {
    if b.len() < 18 {
        StepSpec::Need(18)
    } else {
        let m = b[17] as int;
        if b.len() < 21 + m {
            StepSpec::Need(21 + m)
        } else {
            let rec = b.skip(21 + m);
            match spec_addr_need(rec) {
                Some(n) => StepSpec::Need(21 + m + n),
                None => if !spec_addr_valid(rec) {
                    StepSpec::Reject(ErrorKind::Protocol, "invalid address"@)
                } else {
                    let cmd = b[18 + m];
                    let tcp = cmd == 1;
                    StepSpec::Ready(
                        HandshakeSpec {
                            host: spec_addr_host(rec),
                            port: spec_be_u16(b[19 + m], b[20 + m]),
                            transport: if tcp {
                                Transport::Tcp
                            } else {
                                Transport::Udp
                            },
                            consumed: 21 + m + spec_addr_len(rec),
                            frames: if tcp {
                                seq![seq![0u8, 0u8]]
                            } else {
                                seq![]
                            },
                        },
                    )
                },
            }
        }
    }
}

impl ProxyStream {
    /// Decodes the VLESS handshake held at the front of `b`.
    pub fn process_vless(&self, b: &Vec<u8>) -> (r: DecodeResult)
        ensures
            step_matches(r, spec_vless_step(b@)),
    {
        if b.len() < 18 {
            return DecodeResult::NeedBytes(18);
        }
        let m = b[17] as usize;
        if b.len() < 21 + m {
            return DecodeResult::NeedBytes(21 + m);
        }
        let ghost rec = b@.skip(21 + m as int);
        match parse_addr(b, 21 + m) {
            AddrStep::NeedMore(n) => DecodeResult::NeedBytes(21 + m + n),
            AddrStep::Invalid => DecodeResult::Reject(
                ProxyError::Protocol(String::from_str("invalid address")),
            ),
            AddrStep::Decoded(host, used) => {
                let cmd = b[18 + m];
                proof {
                    assert(rec[0] == b@[21 + m as int]);
                }
                let tcp = cmd == 1;
                let port = be_u16(b[19 + m], b[20 + m]);
                let mut frames: Vec<Vec<u8>> = Vec::new();
                if tcp {
                    let mut ack: Vec<u8> = Vec::new();
                    ack.push(0u8);
                    ack.push(0u8);
                    proof {
                        assert(ack@ =~= seq![0u8, 0u8]);
                    }
                    frames.push(ack);
                }
                let hs = Handshake {
                    target: DecodedTarget {
                        host,
                        port,
                        transport: if tcp {
                            Transport::Tcp
                        } else {
                            Transport::Udp
                        },
                    },
                    consumed: 21 + m + used,
                    response_frames: frames,
                };
                proof {
                    if tcp {
                        assert(hs.response_frames@.map_values(|f: Vec<u8>| f@) =~= seq![
                            seq![0u8, 0u8],
                        ]);
                    } else {
                        assert(hs.response_frames@.map_values(|f: Vec<u8>| f@) =~= Seq::<
                            Seq<u8>,
                        >::empty());
                        assert(spec_vless_step(b@) matches StepSpec::Ready(h) && h.frames =~= Seq::<
                            Seq<u8>,
                        >::empty());
                    }
                }
                DecodeResult::Ready(hs)
            },
        }
    }
}

} // verus!
