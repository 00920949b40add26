//! The per-session stream state: a capacity-bounded FIFO byte buffer fed by
//! the inbound frame sequence, and the protocol sniffer that classifies a
//! session from a fixed-size peeked prefix.
//!
//! The buffer bridges a frame-oriented transport to byte-stream reads. Its
//! discipline: a single payload over 64 KiB is a fatal transport error; a
//! payload that would push the buffered total over 512 KiB is neither dropped
//! nor truncated — the caller is told to suspend and offer the same frame
//! again later.

use vstd::prelude::*;
use crate::config::Config;
use crate::errors::ErrorKind;
use crate::errors::ProxyError;
use crate::spec_be_u16;
use crate::be_u16;

verus! {

/// Largest single inbound frame payload accepted, in bytes.
pub const MAX_WEBSOCKET_SIZE: usize = 64 * 1024;

/// Largest number of bytes ever held by one session's buffer.
pub const MAX_BUFFER_SIZE: usize = 512 * 1024;

/// The protocol a session speaks, decided once from the peeked prefix.
#[derive(PartialEq, Eq, Structural, Clone, Copy, Debug)]
pub enum Protocol {
    Vless,
    Shadowsocks,
    Trojan,
    Vmess,
}

/// Whether a session relays to a TCP destination or performs the single
/// UDP (DNS) exchange.
#[derive(PartialEq, Eq, Structural, Clone, Copy, Debug)]
pub enum Transport {
    Tcp,
    Udp,
}

/// The destination recovered from a handshake.
pub struct DecodedTarget {
    pub host: String,
    pub port: u16,
    pub transport: Transport,
}

/// A fully decoded handshake: the destination, how many buffered bytes the
/// handshake occupied, and the acknowledgement frames the codec owes the
/// client before any payload is relayed.
pub struct Handshake {
    pub target: DecodedTarget,
    pub consumed: usize,
    pub response_frames: Vec<Vec<u8>>,
}

/// One decoding step over the buffered handshake bytes.
pub enum DecodeResult {
    /// The buffer must hold at least this many bytes in all before the codec
    /// can make progress; nothing was consumed.
    NeedBytes(usize),
    /// The handshake decoded; its bytes are accounted for by `consumed`.
    Ready(Handshake),
    /// The handshake is unrecoverable; the session must abort.
    Reject(ProxyError),
}

/// The ghost mirror of a decoded handshake.
pub ghost struct HandshakeSpec {
    pub host: Seq<char>,
    pub port: u16,
    pub transport: Transport,
    pub consumed: int,
    pub frames: Seq<Seq<u8>>,
}

/// The ghost mirror of a decoding step.
pub ghost enum StepSpec {
    Need(int),
    Ready(HandshakeSpec),
    Reject(ErrorKind, Seq<char>),
}

/// Whether an executable decoding step carries exactly the values of its
/// ghost mirror.
pub open spec fn step_matches(r: DecodeResult, s: StepSpec) -> bool {
    match s {
        StepSpec::Need(n) => r matches DecodeResult::NeedBytes(m) && m as int == n,
        StepSpec::Ready(h) => r matches DecodeResult::Ready(hs) && hs.target.host@ == h.host
            && hs.target.port == h.port && hs.target.transport == h.transport
            && hs.consumed as int == h.consumed && hs.response_frames@.map_values(
            |f: Vec<u8>| f@,
        ) == h.frames,
        StepSpec::Reject(k, m) => r matches DecodeResult::Reject(e) && e.spec_kind() == k
            && e.spec_message() == m,
    }
}

/// What became of one inbound frame payload.
#[derive(PartialEq, Eq, Structural, Clone, Copy, Debug)]
pub enum FrameOutcome {
    /// The payload was appended to the buffer.
    Accepted,
    /// Appending would exceed the buffer cap; nothing changed, offer the
    /// same payload again once the buffer has drained.
    Backpressure,
    /// The payload alone exceeds the frame cap: fatal transport error.
    Oversized,
}

/// One session's stream state.
pub struct ProxyStream {
    pub config: Config,
    pub buffer: Vec<u8>,
}

/// What the buffer holds after offering one frame payload to it: oversized
/// payloads and payloads that would exceed the cap leave it unchanged.
pub open spec fn spec_accept(buf: Seq<u8>, frame: Seq<u8>) -> Seq<u8> {
    if frame.len() > MAX_WEBSOCKET_SIZE as int || buf.len() + frame.len() > MAX_BUFFER_SIZE as int {
        buf
    } else {
        buf + frame
    }
}

/// The buffer contents after offering a whole sequence of frame payloads,
/// oldest first, to an initially empty buffer with nothing consumed.
pub open spec fn spec_buffer_after(frames: Seq<Seq<u8>>) -> Seq<u8>
    decreases frames.len(),
{
    if frames.len() == 0 {
        Seq::empty()
    } else {
        spec_accept(spec_buffer_after(frames.drop_last()), frames.last())
    }
}

/// Backpressure invariant: whatever frames arrive, and however many, the
/// buffered byte count never exceeds the cap.
pub proof fn lemma_backpressure_bound(frames: Seq<Seq<u8>>)
    ensures
        spec_buffer_after(frames).len() <= MAX_BUFFER_SIZE as int,
    decreases frames.len(),
{
    if frames.len() > 0 {
        lemma_backpressure_bound(frames.drop_last());
    }
}

impl ProxyStream {
    /// Buffer within its cap and a well-formed configuration.
    pub open spec fn wf(&self) -> bool {
        self.buffer@.len() <= MAX_BUFFER_SIZE as int && self.config.wf()
    }

    /// A fresh session stream with an empty buffer.
    pub fn new(config: Config) -> (r: ProxyStream)
        ensures
            r.buffer@.len() == 0,
            r.config == config,
            config.wf() ==> r.wf(),
    {
        ProxyStream { config, buffer: Vec::new() }
    }

    /// Bytes currently buffered.
    pub fn buffered_len(&self) -> (r: usize)
        ensures
            r == self.buffer@.len(),
    {
        self.buffer.len()
    }

    /// Offers one inbound frame payload to the buffer. No bytes are ever
    /// dropped: a payload that does not fit leaves the buffer unchanged and
    /// the caller suspends instead.
    pub fn accept_frame(&mut self, data: &[u8]) -> (r: FrameOutcome)
        requires
            old(self).wf(),
        ensures
            final(self).wf(),
            final(self).config == old(self).config,
            final(self).buffer@ == spec_accept(old(self).buffer@, data@),
            r == FrameOutcome::Oversized <==> data@.len() > MAX_WEBSOCKET_SIZE as int,
            r == FrameOutcome::Backpressure <==> (data@.len() <= MAX_WEBSOCKET_SIZE as int
                && old(self).buffer@.len() + data@.len() > MAX_BUFFER_SIZE as int),
            r == FrameOutcome::Accepted <==> final(self).buffer@ == old(self).buffer@ + data@
                && data@.len() <= MAX_WEBSOCKET_SIZE as int,
    {
        if data.len() > MAX_WEBSOCKET_SIZE {
            FrameOutcome::Oversized
        } else if self.buffer.len() + data.len() > MAX_BUFFER_SIZE {
            FrameOutcome::Backpressure
        } else {
            let mut incoming = vstd::slice::slice_to_vec(data);
            self.buffer.append(&mut incoming);
            FrameOutcome::Accepted
        }
    }

    /// The first `n` buffered bytes, or all of them if fewer are buffered.
    /// Peeking consumes nothing.
    pub fn peek_buffer(&self, n: usize) -> (r: &[u8])
        ensures
            r@ == self.buffer@.take(if n <= self.buffer@.len() {
                n as int
            } else {
                self.buffer@.len() as int
            }),
    {
        let len = if self.buffer.len() < n {
            self.buffer.len()
        } else {
            n
        };
        let s = vstd::slice::slice_subrange(self.buffer.as_slice(), 0, len);
        proof {
            assert(s@ =~= self.buffer@.take(len as int));
        }
        s
    }

    /// Removes and returns up to `n` bytes from the front of the buffer, in
    /// arrival order.
    pub fn take_front(&mut self, n: usize) -> (r: Vec<u8>)
        requires
            old(self).wf(),
        ensures
            final(self).wf(),
            final(self).config == old(self).config,
            r@ == old(self).buffer@.take(if n <= old(self).buffer@.len() {
                n as int
            } else {
                old(self).buffer@.len() as int
            }),
            final(self).buffer@ == old(self).buffer@.skip(if n <= old(self).buffer@.len() {
                n as int
            } else {
                old(self).buffer@.len() as int
            }),
    {
        let len = if self.buffer.len() < n {
            self.buffer.len()
        } else {
            n
        };
        let front = vstd::slice::slice_to_vec(
            vstd::slice::slice_subrange(self.buffer.as_slice(), 0, len),
        );
        let rest = self.buffer.split_off(len);
        self.buffer = rest;
        proof {
            assert(front@ =~= old(self).buffer@.take(len as int));
            assert(self.buffer@ =~= old(self).buffer@.skip(len as int));
        }
        front
    }

    /// True while the sniffing fill loop should keep pulling frames: the
    /// buffer holds fewer than `n` bytes.
    pub fn needs_fill(&self, n: usize) -> (r: bool)
        ensures
            r == (self.buffer@.len() < n),
    {
        self.buffer.len() < n
    }
}

impl ProxyStream {
    /// Runs one handshake step: peeks the sniff window, classifies the
    /// session first-match-wins, and lets the matched codec decode the
    /// buffered handshake. Fewer than 31 peekable bytes is the fatal
    /// insufficient-data error and no codec is attempted. On a decoded
    /// handshake, exactly its bytes are consumed from the buffer, leaving
    /// the payload to relay; any other step leaves the buffer untouched.
    pub fn process(&mut self) -> (r: DecodeResult)
        requires
            old(self).wf(),
        ensures
            final(self).wf(),
            final(self).config == old(self).config,
            !(r matches DecodeResult::Ready(_)) ==> final(self).buffer@ == old(self).buffer@,
            r matches DecodeResult::Ready(hs) ==> hs.consumed as int <= old(self).buffer@.len()
                && final(self).buffer@ == old(self).buffer@.skip(hs.consumed as int),
            old(self).buffer@.len() < 31 ==> (r matches DecodeResult::Reject(e) && e is Protocol
                && e.spec_message() == "insufficient data"@),
            old(self).buffer@.len() >= 31 && spec_classify(old(self).buffer@) == Some(
                Protocol::Vless,
            ) ==> step_matches(r, crate::vless::spec_vless_step(old(self).buffer@)),
            old(self).buffer@.len() >= 31 && spec_classify(old(self).buffer@) == Some(
                Protocol::Shadowsocks,
            ) ==> step_matches(r, crate::shadowsocks::spec_shadowsocks_step(old(self).buffer@)),
            old(self).buffer@.len() >= 31 && spec_classify(old(self).buffer@) == Some(
                Protocol::Trojan,
            ) ==> step_matches(r, crate::trojan::spec_trojan_step(old(self).buffer@)),
            old(self).buffer@.len() >= 31 && spec_classify(old(self).buffer@) == Some(
                Protocol::Vmess,
            ) ==> ((r matches DecodeResult::NeedBytes(n) ==> old(self).buffer@.len() < n as int)
                && (forall|payload: Seq<u8>|
                crate::vmess::spec_envelope_ok(old(self).config.uuid@, old(self).buffer@, payload)
                    ==> crate::vmess::spec_vmess_outcome_matches(r, payload)) && (r matches
            DecodeResult::Reject(e) ==> ((forall|payload: Seq<u8>|
                !crate::vmess::spec_envelope_ok(
                    old(self).config.uuid@,
                    old(self).buffer@,
                    payload,
                )) ==> e is Crypto))),
    {
        if self.buffer.len() < 31 {
            return DecodeResult::Reject(
                ProxyError::Protocol(String::from_str("insufficient data")),
            );
        }
        let peek = self.peek_buffer(62);
        let r: DecodeResult;
        if self.is_vless(peek) {
            r = self.process_vless(&self.buffer);
            proof {
                let b = self.buffer@;
                if crate::vless::spec_vless_step(b) is Ready {
                    let m = b[17] as int;
                    crate::common::lemma_addr_complete_len(b.skip(21 + m));
                }
            }
        } else if self.is_shadowsocks(peek) {
            r = self.process_shadowsocks(&self.buffer);
            proof {
                let b = self.buffer@;
                if crate::shadowsocks::spec_shadowsocks_step(b) is Ready {
                    crate::common::lemma_addr_complete_len(b);
                }
            }
        } else if self.is_trojan(peek) {
            r = self.process_trojan(&self.buffer);
            proof {
                let b = self.buffer@;
                if crate::trojan::spec_trojan_step(b) is Ready {
                    crate::common::lemma_addr_complete_len(b.skip(59));
                }
            }
        } else {
            r = self.process_vmess(&self.buffer);
        }
        match r {
            DecodeResult::Ready(hs) => {
                let _ = self.take_front(hs.consumed);
                DecodeResult::Ready(hs)
            },
            other => other,
        }
    }

    /// The ordered outbound candidate list for a TCP target: the decoded
    /// destination first, then the configured fallback. The relay visits
    /// both candidates unconditionally, in this order.
    pub fn relay_candidates(&self, target: &DecodedTarget) -> (r: Vec<(String, u16)>)
        ensures
            r@.len() == 2,
            r@[0].0@ == target.host@,
            r@[0].1 == target.port,
            r@[1].0@ == self.config.proxy_addr@,
            r@[1].1 == self.config.proxy_port,
    {
        let mut v: Vec<(String, u16)> = Vec::new();
        v.push((target.host.clone(), target.port));
        v.push((self.config.proxy_addr.clone(), self.config.proxy_port));
        v
    }
}

/// The VLESS shape: the first byte is the VLESS version 0.
pub open spec fn spec_is_vless(b: Seq<u8>) -> bool {
    b.len() > 0 && b[0] == 0
}

/// The Shadowsocks shape: the first byte tags an address record (IPv4,
/// domain, or IPv6) whose remainder is syntactically complete and whose port
/// field is nonzero.
pub open spec fn spec_is_shadowsocks(b: Seq<u8>) -> bool {
    b.len() > 0 && (if b[0] == 1 {
        b.len() >= 7 && spec_be_u16(b[5], b[6]) != 0
    } else if b[0] == 3 {
        b.len() >= 2 && b.len() >= 4 + b[1] && spec_be_u16(
            b[2 + b[1] as int],
            b[3 + b[1] as int],
        ) != 0
    } else if b[0] == 4 {
        b.len() >= 19 && spec_be_u16(b[17], b[18]) != 0
    } else {
        false
    })
}

/// The Trojan shape: a 56-byte credential field followed by CR LF.
pub open spec fn spec_is_trojan(b: Seq<u8>) -> bool {
    b.len() > 57 && b[56] == 13 && b[57] == 10
}

/// The VMess fallback: any nonempty prefix that matched nothing else.
pub open spec fn spec_is_vmess(b: Seq<u8>) -> bool {
    b.len() > 0
}

/// First-match-wins classification of a peeked prefix, in the fixed order
/// VLESS, Shadowsocks, Trojan, VMess. The order is load-bearing for wire
/// compatibility: an ambiguous prefix must always resolve the same way.
pub open spec fn spec_sniff(b: Seq<u8>) -> Option<Protocol> {
    if spec_is_vless(b) {
        Some(Protocol::Vless)
    } else if spec_is_shadowsocks(b) {
        Some(Protocol::Shadowsocks)
    } else if spec_is_trojan(b) {
        Some(Protocol::Trojan)
    } else if spec_is_vmess(b) {
        Some(Protocol::Vmess)
    } else {
        None
    }
}

/// How a session's buffered bytes classify: the sniffer sees the peeked
/// window of at most 62 bytes and nothing past it.
pub open spec fn spec_classify(buf: Seq<u8>) -> Option<Protocol> {
    spec_sniff(buf.take(if buf.len() < 62 {
        buf.len() as int
    } else {
        62
    }))
}

/// Classification is a pure function of the 62-byte prefix: two buffer
/// states that agree on their first 62 bytes classify identically, however
/// much else they hold.
pub proof fn lemma_classify_prefix_determined(b1: Seq<u8>, b2: Seq<u8>)
    requires
        b1.len() >= 62,
        b2.len() >= 62,
        b1.take(62) =~= b2.take(62),
    ensures
        spec_classify(b1) == spec_classify(b2),
{
}

/// First-match-wins: a prefix that satisfies the VLESS predicate classifies
/// as VLESS even when it also has a Shadowsocks or Trojan shape.
pub proof fn lemma_vless_wins(b: Seq<u8>)
    requires
        spec_is_vless(b),
        spec_is_shadowsocks(b) || spec_is_trojan(b),
    ensures
        spec_sniff(b) == Some(Protocol::Vless),
{
}

impl ProxyStream {
    /// Does the peeked prefix have the VLESS shape?
    pub fn is_vless(&self, buffer: &[u8]) -> (r: bool)
        requires
            buffer@.len() > 0,
        ensures
            r == spec_is_vless(buffer@),
    {
        *vstd::slice::slice_index_get(buffer, 0) == 0
    }

    /// Does the peeked prefix have the Shadowsocks shape?
    pub fn is_shadowsocks(&self, buffer: &[u8]) -> (r: bool)
        requires
            buffer@.len() > 0,
        ensures
            r == spec_is_shadowsocks(buffer@),
    {
        let t = *vstd::slice::slice_index_get(buffer, 0);
        if t == 1 {
            if buffer.len() < 7 {
                return false;
            }
            let p = be_u16(
                *vstd::slice::slice_index_get(buffer, 5),
                *vstd::slice::slice_index_get(buffer, 6),
            );
            p != 0
        } else if t == 3 {
            if buffer.len() < 2 {
                return false;
            }
            let domain_len = *vstd::slice::slice_index_get(buffer, 1) as usize;
            if buffer.len() < 2 + domain_len + 2 {
                return false;
            }
            let p = be_u16(
                *vstd::slice::slice_index_get(buffer, 2 + domain_len),
                *vstd::slice::slice_index_get(buffer, 2 + domain_len + 1),
            );
            p != 0
        } else if t == 4 {
            if buffer.len() < 19 {
                return false;
            }
            let p = be_u16(
                *vstd::slice::slice_index_get(buffer, 17),
                *vstd::slice::slice_index_get(buffer, 18),
            );
            p != 0
        } else {
            false
        }
    }

    /// Does the peeked prefix have the Trojan shape?
    pub fn is_trojan(&self, buffer: &[u8]) -> (r: bool)
        ensures
            r == spec_is_trojan(buffer@),
    {
        buffer.len() > 57 && *vstd::slice::slice_index_get(buffer, 56) == 13
            && *vstd::slice::slice_index_get(buffer, 57) == 10
    }

    /// Does the peeked prefix fall to the VMess fallback?
    pub fn is_vmess(&self, buffer: &[u8]) -> (r: bool)
        ensures
            r == spec_is_vmess(buffer@),
    {
        buffer.len() > 0
    }
}

} // verus!
