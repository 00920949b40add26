//! Verified core of an edge tunnel endpoint.
//!
//! The endpoint accepts a bidirectional byte stream delivered as message
//! frames over an upgraded connection, determines which of four lightweight
//! proxy protocols the client speaks (VLESS, Trojan, Shadowsocks, VMess),
//! strips and validates that protocol's handshake, and hands the decoded
//! destination to an outbound relay.
//!
//! This crate holds the session engine: the bounded inbound byte buffer with
//! its backpressure discipline, the protocol sniffer, the four handshake
//! codecs (including VMess's authenticated-encryption handshake and its
//! key-derivation scheme), and the outbound candidate policy. The transport
//! itself (frames in, frames out), the outbound sockets, and the DNS exchange
//! are external collaborators driven by unverified glue around this library.

use vstd::prelude::*;

pub mod aead;
pub mod common;
pub mod config;
pub mod conn;
pub mod hash;
pub mod errors;
pub mod fe;
pub mod shadowsocks;
pub mod trojan;
pub mod vless;
pub mod vmess;

verus! {

/// The 16-bit big-endian integer held by two bytes, as every port field on
/// the wire is laid out.
pub open spec fn spec_be_u16(b0: u8, b1: u8) -> u16 {
    (b0 as u16 * 256 + b1 as u16) as u16
}

/// Reads a big-endian 16-bit integer from two bytes.
pub fn be_u16(b0: u8, b1: u8) -> (r: u16)
    ensures
        r == spec_be_u16(b0, b1),
{
    (b0 as u16) * 256 + (b1 as u16)
}

} // verus!
