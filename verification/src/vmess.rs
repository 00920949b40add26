//! The VMess handshake codec: an authenticated-encryption handshake.
//!
//! The inbound envelope is a 16-byte authentication id, an 18-byte sealed
//! length block, and an 8-byte nonce, followed by the sealed header payload
//! (cleartext length plus the 16-byte tag). Both seals are AES-128-GCM with
//! the authentication id as associated data, under sub-keys derived from the
//! session's command key by the layered KDF, salted with named constants
//! concatenated with the authentication id and nonce.
//!
//! The cleartext header payload is: 1 version byte (must be 1), a 16-byte
//! data IV, a 16-byte data key, a 4-byte options block (only byte 0 is used
//! later), 1 command byte (1 is TCP, anything else UDP), the 2-byte
//! big-endian port, and one address record.
//!
//! The response owed to the client before any relayed payload: the sealed
//! 16-bit value 4 (the declared response-header length), then a sealed
//! 4-byte block `{options[0], 0, 0, 0}`, under response sub-keys derived
//! from the SHA-256 digests of the data key and data IV.

use vstd::prelude::*;
use vstd::string::StringSliceAdditionalSpecFns;
use crate::aead::aes128gcm_seal_of;
use crate::aead::aes128gcm_seal;
use crate::aead::aes128gcm_open;
use crate::common::spec_addr_host;
use crate::common::spec_addr_need;
use crate::common::spec_addr_valid;
use crate::common::parse_addr;
use crate::common::AddrStep;
use crate::hash::md5_of;
use crate::hash::sha256_of;
use crate::hash::spec_vmess_kdf;
use crate::hash::clone_bytes;
use crate::hash::append_bytes;
use crate::hash::md5_concat;
use crate::hash::sha256_digest;
use crate::hash::vmess_kdf;
use crate::conn::DecodeResult;
use crate::conn::DecodedTarget;
use crate::conn::Handshake;
use crate::conn::ProxyStream;
use crate::conn::Transport;
use crate::errors::ProxyError;
use crate::spec_be_u16;
use crate::be_u16;

verus! {

/// KDF salt for the key sealing the header-length block.
pub open spec fn spec_salt_length_key() -> Seq<u8> {
    "VMess Header AEAD Key_Length".spec_bytes()
}

/// KDF salt for the nonce sealing the header-length block.
pub open spec fn spec_salt_length_iv() -> Seq<u8> {
    "VMess Header AEAD Nonce_Length".spec_bytes()
}

/// KDF salt for the key sealing the header payload.
pub open spec fn spec_salt_header_key() -> Seq<u8> {
    "VMess Header AEAD Key".spec_bytes()
}

/// KDF salt for the nonce sealing the header payload.
pub open spec fn spec_salt_header_iv() -> Seq<u8> {
    "VMess Header AEAD Nonce".spec_bytes()
}

/// KDF salt for the key sealing the response-length block.
pub open spec fn spec_salt_resp_len_key() -> Seq<u8> {
    "AEAD Resp Header Len Key".spec_bytes()
}

/// KDF salt for the nonce sealing the response-length block.
pub open spec fn spec_salt_resp_len_iv() -> Seq<u8> {
    "AEAD Resp Header Len IV".spec_bytes()
}

/// KDF salt for the key sealing the response header.
pub open spec fn spec_salt_resp_key() -> Seq<u8> {
    "AEAD Resp Header Key".spec_bytes()
}

/// KDF salt for the nonce sealing the response header.
pub open spec fn spec_salt_resp_iv() -> Seq<u8> {
    "AEAD Resp Header IV".spec_bytes()
}

/// The fixed 36-byte domain-separation constant appended to the client
/// identity when deriving the command key.
pub open spec fn spec_domain_sep() -> Seq<u8> {
    "c48619fe-8f02-49e0-b9e9-edf763e17e21".spec_bytes()
}

fn salt_length_key_bytes() -> (r: Vec<u8>)
    ensures
        r@ == spec_salt_length_key(),
{
    ("VMess Header AEAD Key_Length").as_bytes_vec()
}

fn salt_length_iv_bytes() -> (r: Vec<u8>)
    ensures
        r@ == spec_salt_length_iv(),
{
    ("VMess Header AEAD Nonce_Length").as_bytes_vec()
}

fn salt_header_key_bytes() -> (r: Vec<u8>)
    ensures
        r@ == spec_salt_header_key(),
{
    ("VMess Header AEAD Key").as_bytes_vec()
}

fn salt_header_iv_bytes() -> (r: Vec<u8>)
    ensures
        r@ == spec_salt_header_iv(),
{
    ("VMess Header AEAD Nonce").as_bytes_vec()
}

fn salt_resp_len_key_bytes() -> (r: Vec<u8>)
    ensures
        r@ == spec_salt_resp_len_key(),
{
    ("AEAD Resp Header Len Key").as_bytes_vec()
}

fn salt_resp_len_iv_bytes() -> (r: Vec<u8>)
    ensures
        r@ == spec_salt_resp_len_iv(),
{
    ("AEAD Resp Header Len IV").as_bytes_vec()
}

fn salt_resp_key_bytes() -> (r: Vec<u8>)
    ensures
        r@ == spec_salt_resp_key(),
{
    ("AEAD Resp Header Key").as_bytes_vec()
}

fn salt_resp_iv_bytes() -> (r: Vec<u8>)
    ensures
        r@ == spec_salt_resp_iv(),
{
    ("AEAD Resp Header IV").as_bytes_vec()
}

fn domain_sep_bytes() -> (r: Vec<u8>)
    ensures
        r@ == spec_domain_sep(),
{
    ("c48619fe-8f02-49e0-b9e9-edf763e17e21").as_bytes_vec()
}

/// The session's command key: MD5 of the client identity followed by the
/// domain-separation constant.
pub open spec fn spec_cmd_key(uuid: Seq<u8>) -> Seq<u8> {
    md5_of(uuid + spec_domain_sep())
}

/// Computes the command key of a 16-byte client identity.
pub fn vmess_cmd_key(uuid: &Vec<u8>) -> (r: Vec<u8>)
    ensures
        r@ == spec_cmd_key(uuid@),
        r@.len() == 16,
{
    let mut parts: Vec<Vec<u8>> = Vec::new();
    parts.push(clone_bytes(uuid));
    parts.push(domain_sep_bytes());
    proof {
        let ps = parts@.map_values(|v: Vec<u8>| v@);
        assert(ps =~= seq![uuid@, spec_domain_sep()]);
        crate::hash::lemma_concat2(uuid@, spec_domain_sep());
    }
    md5_concat(&parts)
}

/// The first `n` bytes of the KDF tower keyed by `salt`, `aid`, `nonce`,
/// applied to `master`.
fn kdf3_take(master: &Vec<u8>, salt: Vec<u8>, aid: &Vec<u8>, nonce: &Vec<u8>, n: usize) -> (r: Vec<
    u8,
>)
    requires
        n <= 32,
    ensures
        r@ == spec_vmess_kdf(master@, seq![salt@, aid@, nonce@]).take(n as int),
        r@.len() == n,
{
    let mut path: Vec<Vec<u8>> = Vec::new();
    let ghost sv = salt@;
    path.push(salt);
    path.push(clone_bytes(aid));
    path.push(clone_bytes(nonce));
    proof {
        assert(path@.map_values(|v: Vec<u8>| v@) =~= seq![sv, aid@, nonce@]);
    }
    let full = vmess_kdf(master, &path);
    let cut = vstd::slice::slice_to_vec(vstd::slice::slice_subrange(full.as_slice(), 0, n));
    proof {
        assert(cut@ =~= full@.take(n as int));
    }
    cut
}

/// The first `n` bytes of the KDF tower keyed by `salt` alone, applied to
/// `master`.
fn kdf1_take(master: &Vec<u8>, salt: Vec<u8>, n: usize) -> (r: Vec<u8>)
    requires
        n <= 32,
    ensures
        r@ == spec_vmess_kdf(master@, seq![salt@]).take(n as int),
        r@.len() == n,
{
    let mut path: Vec<Vec<u8>> = Vec::new();
    let ghost sv = salt@;
    path.push(salt);
    proof {
        assert(path@.map_values(|v: Vec<u8>| v@) =~= seq![sv]);
    }
    let full = vmess_kdf(master, &path);
    let cut = vstd::slice::slice_to_vec(vstd::slice::slice_subrange(full.as_slice(), 0, n));
    proof {
        assert(cut@ =~= full@.take(n as int));
    }
    cut
}

/// The sub-key sealing the length block.
pub open spec fn spec_length_key(ck: Seq<u8>, aid: Seq<u8>, nonce: Seq<u8>) -> Seq<u8> {
    spec_vmess_kdf(ck, seq![spec_salt_length_key(), aid, nonce]).take(16)
}

/// The sub-nonce sealing the length block.
pub open spec fn spec_length_nonce(ck: Seq<u8>, aid: Seq<u8>, nonce: Seq<u8>) -> Seq<u8> {
    spec_vmess_kdf(ck, seq![spec_salt_length_iv(), aid, nonce]).take(12)
}

/// The sub-key sealing the header payload.
pub open spec fn spec_header_key(ck: Seq<u8>, aid: Seq<u8>, nonce: Seq<u8>) -> Seq<u8> {
    spec_vmess_kdf(ck, seq![spec_salt_header_key(), aid, nonce]).take(16)
}

/// The sub-nonce sealing the header payload.
pub open spec fn spec_header_nonce(ck: Seq<u8>, aid: Seq<u8>, nonce: Seq<u8>) -> Seq<u8> {
    spec_vmess_kdf(ck, seq![spec_salt_header_iv(), aid, nonce]).take(12)
}

/// The two bytes of a 16-bit big-endian value.
pub open spec fn spec_be16_bytes(n: int) -> Seq<u8> {
    seq![(n / 256) as u8, (n % 256) as u8]
}

/// Builds the two big-endian bytes of `n`.
pub fn be16_bytes(n: u16) -> (r: Vec<u8>)
    ensures
        r@ == spec_be16_bytes(n as int),
{
    let mut r: Vec<u8> = Vec::new();
    r.push((n / 256) as u8);
    r.push((n % 256) as u8);
    proof {
        assert(r@ =~= spec_be16_bytes(n as int));
    }
    r
}

/// Whether the envelope at the front of `b` is, for this client identity,
/// a well-formed sealing of the cleartext header `payload`: the length
/// block seals the payload's length, and the payload block seals the
/// payload, each under its derived sub-key and sub-nonce with the
/// authentication id as associated data.
pub open spec fn spec_envelope_ok(uuid: Seq<u8>, b: Seq<u8>, payload: Seq<u8>) -> bool {
    let aid = b.take(16);
    let nonce = b.subrange(34, 42);
    let ck = spec_cmd_key(uuid);
    b.len() >= 58 + payload.len() && payload.len() <= 0xFFFF && b.subrange(16, 34)
        == aes128gcm_seal_of(
        spec_length_key(ck, aid, nonce),
        spec_length_nonce(ck, aid, nonce),
        aid,
        spec_be16_bytes(payload.len() as int),
    ) && b.subrange(42, 58 + payload.len() as int) == aes128gcm_seal_of(
        spec_header_key(ck, aid, nonce),
        spec_header_nonce(ck, aid, nonce),
        aid,
        payload,
    )
}

/// A parsed cleartext VMess header.
pub struct VmessHeader {
    pub iv: Vec<u8>,
    pub key: Vec<u8>,
    pub options: Vec<u8>,
    pub cmd: u8,
    pub port: u16,
    pub host: String,
}

/// The ghost mirror of a parsed header, together with the raw address
/// record fields it came from.
pub ghost struct VmessHeaderSpec {
    pub iv: Seq<u8>,
    pub key: Seq<u8>,
    pub options: Seq<u8>,
    pub cmd: u8,
    pub port: u16,
    pub addr_kind: u8,
    pub addr_body: Seq<u8>,
    pub host: Seq<char>,
}

/// How parsing a cleartext header payload can end.
pub ghost enum HeaderParseSpec {
    Parsed(VmessHeaderSpec),
    /// The version byte is not 1.
    BadVersion,
    /// The payload ends before the fixed fields or the address record do.
    Short,
    /// The address record's type byte tags no known form.
    BadAddr,
}

/// Parses a cleartext header payload: version (must be 1), data IV, data
/// key, options, command, port, address record; trailing bytes (padding and
/// checksum) are ignored.
pub open spec fn spec_parse_vmess_header(p: Seq<u8>) -> HeaderParseSpec {
    if p.len() < 1 {
        HeaderParseSpec::Short
    } else if p[0] != 1 {
        HeaderParseSpec::BadVersion
    } else if p.len() < 40 {
        HeaderParseSpec::Short
    } else {
        let rec = p.skip(40);
        if spec_addr_need(rec) is Some {
            HeaderParseSpec::Short
        } else if !spec_addr_valid(rec) {
            HeaderParseSpec::BadAddr
        } else {
            HeaderParseSpec::Parsed(
                VmessHeaderSpec {
                    iv: p.subrange(1, 17),
                    key: p.subrange(17, 33),
                    options: p.subrange(33, 37),
                    cmd: p[37],
                    port: spec_be_u16(p[38], p[39]),
                    addr_kind: rec[0],
                    addr_body: if rec[0] == 1 {
                        rec.subrange(1, 5)
                    } else if rec[0] == 2 || rec[0] == 3 {
                        rec.subrange(2, 2 + rec[1] as int)
                    } else {
                        rec.subrange(1, 17)
                    },
                    host: spec_addr_host(rec),
                },
            )
        }
    }
}

/// Parses the cleartext header payload recovered from the envelope.
pub fn parse_vmess_header(p: &Vec<u8>) -> (r: Result<VmessHeader, crate::errors::ProxyError>)
    ensures
        (match spec_parse_vmess_header(p@) {
            HeaderParseSpec::Parsed(h) => r matches Ok(v) && v.iv@ == h.iv && v.key@ == h.key
                && v.options@ == h.options && v.cmd == h.cmd && v.port == h.port && v.host@
                == h.host,
            HeaderParseSpec::BadVersion => r matches Err(e) && e is Crypto && e.spec_message()
                == "invalid version"@,
            HeaderParseSpec::Short => r matches Err(e) && e is Protocol && e.spec_message()
                == "invalid header"@,
            HeaderParseSpec::BadAddr => r matches Err(e) && e is Protocol && e.spec_message()
                == "invalid address"@,
        }),
{
    if p.len() < 1 {
        return Err(crate::errors::ProxyError::Protocol(String::from_str("invalid header")));
    }
    if p[0] != 1 {
        return Err(crate::errors::ProxyError::Crypto(String::from_str("invalid version")));
    }
    if p.len() < 40 {
        return Err(crate::errors::ProxyError::Protocol(String::from_str("invalid header")));
    }
    let ghost rec = p@.skip(40);
    match parse_addr(p, 40) {
        AddrStep::NeedMore(_) => Err(
            crate::errors::ProxyError::Protocol(String::from_str("invalid header")),
        ),
        AddrStep::Invalid => Err(
            crate::errors::ProxyError::Protocol(String::from_str("invalid address")),
        ),
        AddrStep::Decoded(host, _used) => {
            let iv = vstd::slice::slice_to_vec(vstd::slice::slice_subrange(p.as_slice(), 1, 17));
            let key = vstd::slice::slice_to_vec(vstd::slice::slice_subrange(p.as_slice(), 17, 33));
            let options = vstd::slice::slice_to_vec(
                vstd::slice::slice_subrange(p.as_slice(), 33, 37),
            );
            let cmd = p[37];
            let port = be_u16(p[38], p[39]);
            proof {
                assert(rec[0] == p@[40]);
            }
            Ok(VmessHeader { iv, key, options, cmd, port, host })
        },
    }
}

/// The first `n` bytes of `v`.
fn take_bytes(v: &Vec<u8>, n: usize) -> (r: Vec<u8>)
    requires
        n <= v@.len(),
    ensures
        r@ == v@.take(n as int),
{
    let r = vstd::slice::slice_to_vec(vstd::slice::slice_subrange(v.as_slice(), 0, n));
    proof {
        assert(r@ =~= v@.take(n as int));
    }
    r
}

/// The sealed response-length frame owed to a client whose header carried
/// this data key and data IV: the 16-bit value 4, sealed under response
/// sub-keys derived from the digests of the data key and IV, with no
/// associated data.
pub open spec fn spec_resp_len_frame(key: Seq<u8>, iv: Seq<u8>) -> Seq<u8> {
    aes128gcm_seal_of(
        spec_vmess_kdf(sha256_of(key).take(16), seq![spec_salt_resp_len_key()]).take(16),
        spec_vmess_kdf(sha256_of(iv).take(16), seq![spec_salt_resp_len_iv()]).take(12),
        Seq::<u8>::empty(),
        seq![0u8, 4u8],
    )
}

/// The sealed response-header frame: the 4-byte block `{options[0],0,0,0}`
/// under its own pair of response sub-keys, with no associated data.
pub open spec fn spec_resp_hdr_frame(key: Seq<u8>, iv: Seq<u8>, opt0: u8) -> Seq<u8> {
    aes128gcm_seal_of(
        spec_vmess_kdf(sha256_of(key).take(16), seq![spec_salt_resp_key()]).take(16),
        spec_vmess_kdf(sha256_of(iv).take(16), seq![spec_salt_resp_iv()]).take(12),
        Seq::<u8>::empty(),
        seq![opt0, 0u8, 0u8, 0u8],
    )
}

/// Builds the two mandatory response frames for a decoded header.
pub fn build_vmess_response(key: &Vec<u8>, iv: &Vec<u8>, opt0: u8) -> (r: Vec<Vec<u8>>)
    ensures
        r@.map_values(|f: Vec<u8>| f@) == seq![
            spec_resp_len_frame(key@, iv@),
            spec_resp_hdr_frame(key@, iv@, opt0),
        ],
{
    let dk = sha256_digest(key);
    let rk = take_bytes(&dk, 16);
    let dv = sha256_digest(iv);
    let riv = take_bytes(&dv, 16);
    let empty_aad: Vec<u8> = Vec::new();

    let lkey = kdf1_take(&rk, salt_resp_len_key_bytes(), 16);
    let lnonce = kdf1_take(&riv, salt_resp_len_iv_bytes(), 12);
    let mut msg1: Vec<u8> = Vec::new();
    msg1.push(0u8);
    msg1.push(4u8);
    proof {
        assert(msg1@ =~= seq![0u8, 4u8]);
        assert(empty_aad@ =~= Seq::<u8>::empty());
    }
    let f1 = aes128gcm_seal(&lkey, &lnonce, &empty_aad, &msg1);

    let hkey = kdf1_take(&rk, salt_resp_key_bytes(), 16);
    let hnonce = kdf1_take(&riv, salt_resp_iv_bytes(), 12);
    let mut msg2: Vec<u8> = Vec::new();
    msg2.push(opt0);
    msg2.push(0u8);
    msg2.push(0u8);
    msg2.push(0u8);
    proof {
        assert(msg2@ =~= seq![opt0, 0u8, 0u8, 0u8]);
    }
    let f2 = aes128gcm_seal(&hkey, &hnonce, &empty_aad, &msg2);

    let mut frames: Vec<Vec<u8>> = Vec::new();
    frames.push(f1);
    frames.push(f2);
    proof {
        assert(frames@.map_values(|f: Vec<u8>| f@) =~= seq![
            spec_resp_len_frame(key@, iv@),
            spec_resp_hdr_frame(key@, iv@, opt0),
        ]);
    }
    frames
}

/// Splitting a 16-bit value into big-endian bytes and reading them back is
/// the identity.
pub proof fn lemma_be16_inverse(n: int)
    requires
        0 <= n <= 0xFFFF,
    ensures
        spec_be_u16(spec_be16_bytes(n)[0], spec_be16_bytes(n)[1]) == n,
{
    assert((n / 256) as u8 as int == n / 256);
    assert((n % 256) as u8 as int == n % 256);
}

/// Reading two bytes big-endian and splitting the value again gives back
/// the same bytes.
pub proof fn lemma_be16_bytes_of_pair(a: u8, b: u8)
    ensures
        spec_be16_bytes(spec_be_u16(a, b) as int) =~= seq![a, b],
{
    let n = a as int * 256 + b as int;
    assert(n / 256 == a as int);
    assert(n % 256 == b as int);
}

/// Whether an executable decoding step is the one the cleartext header
/// `payload` calls for: a parsed header becomes the decoded target with its
/// two sealed response frames; a bad version is a cryptographic rejection; a
/// malformed payload is a protocol rejection.
pub open spec fn spec_vmess_outcome_matches(r: DecodeResult, payload: Seq<u8>) -> bool {
    match spec_parse_vmess_header(payload) {
        HeaderParseSpec::Parsed(h) => r matches DecodeResult::Ready(hs) && hs.target.host@
            == h.host && hs.target.port == h.port && hs.target.transport == (if h.cmd == 1 {
            Transport::Tcp
        } else {
            Transport::Udp
        }) && hs.consumed as int == 58 + payload.len() && hs.response_frames@.map_values(
            |f: Vec<u8>| f@,
        ) == seq![
            spec_resp_len_frame(h.key, h.iv),
            spec_resp_hdr_frame(h.key, h.iv, h.options[0]),
        ],
        HeaderParseSpec::BadVersion => r matches DecodeResult::Reject(e) && e is Crypto
            && e.spec_message() == "invalid version"@,
        HeaderParseSpec::Short => r matches DecodeResult::Reject(e) && e is Protocol
            && e.spec_message() == "invalid header"@,
        HeaderParseSpec::BadAddr => r matches DecodeResult::Reject(e) && e is Protocol
            && e.spec_message() == "invalid address"@,
    }
}

impl ProxyStream {
    /// Decodes the VMess handshake held at the front of `b`: opens the
    /// length block, then the header payload, parses it, and builds the two
    /// response frames. Whatever came back from the cipher, the step is
    /// sound; for every cleartext `payload` whose well-formed sealing under
    /// this session's identity the buffer holds, the step is exactly what
    /// that payload calls for; and a rejection of a buffer that holds no
    /// such sealing — a mismatched identity or corrupted envelope — is
    /// always the cryptographic kind.
    #[verifier::rlimit(100)]
    pub fn process_vmess(&self, b: &Vec<u8>) -> (r: DecodeResult)
        requires
            self.config.wf(),
        ensures
            r matches DecodeResult::NeedBytes(n) ==> b@.len() < n && n <= 42 + 0xFFFF + 16,
            forall|payload: Seq<u8>|
                spec_envelope_ok(self.config.uuid@, b@, payload) ==> spec_vmess_outcome_matches(
                    r,
                    payload,
                ),
            r matches DecodeResult::Ready(hs) ==> hs.consumed <= b@.len() && exists|
                payload: Seq<u8>,
            |
                spec_envelope_ok(self.config.uuid@, b@, payload) && spec_vmess_outcome_matches(
                    r,
                    payload,
                ),
            r matches DecodeResult::Reject(e) ==> ((forall|payload: Seq<u8>|
                !spec_envelope_ok(self.config.uuid@, b@, payload)) ==> e is Crypto),
    {
        if b.len() < 42 {
            return DecodeResult::NeedBytes(42);
        }
        let aid = take_bytes(b, 16);
        let elen = vstd::slice::slice_to_vec(vstd::slice::slice_subrange(b.as_slice(), 16, 34));
        let nonce = vstd::slice::slice_to_vec(vstd::slice::slice_subrange(b.as_slice(), 34, 42));
        proof {
            assert(aid@ =~= b@.take(16));
            assert(elen@ =~= b@.subrange(16, 34));
            assert(nonce@ =~= b@.subrange(34, 42));
        }
        let ck = vmess_cmd_key(&self.config.uuid);
        let lk = kdf3_take(&ck, salt_length_key_bytes(), &aid, &nonce, 16);
        let ln = kdf3_take(&ck, salt_length_iv_bytes(), &aid, &nonce, 12);
        let lb = match aes128gcm_open(&lk, &ln, &aid, &elen) {
            Some(lb) => lb,
            None => {
                proof {
                    assert forall|payload: Seq<u8>|
                        spec_envelope_ok(self.config.uuid@, b@, payload) implies false by {
                        assert(spec_be16_bytes(payload.len() as int).len() + 16 == elen@.len());
                    }
                }
                return DecodeResult::Reject(
                    ProxyError::Crypto(String::from_str("length decrypt failed")),
                );
            },
        };
        let len = be_u16(lb[0], lb[1]) as usize;
        let total = 58 + len;
        proof {
            assert forall|payload: Seq<u8>|
                spec_envelope_ok(self.config.uuid@, b@, payload) implies payload.len()
                == len as int by {
                assert(spec_be16_bytes(payload.len() as int).len() + 16 == elen@.len());
                assert(lb@ == spec_be16_bytes(payload.len() as int));
                lemma_be16_inverse(payload.len() as int);
            }
        }
        if b.len() < total {
            return DecodeResult::NeedBytes(total);
        }
        let ct = vstd::slice::slice_to_vec(vstd::slice::slice_subrange(b.as_slice(), 42, total));
        proof {
            assert(ct@ =~= b@.subrange(42, total as int));
        }
        let hk = kdf3_take(&ck, salt_header_key_bytes(), &aid, &nonce, 16);
        let hn = kdf3_take(&ck, salt_header_iv_bytes(), &aid, &nonce, 12);
        let payload = match aes128gcm_open(&hk, &hn, &aid, &ct) {
            Some(p) => p,
            None => {
                return DecodeResult::Reject(
                    ProxyError::Crypto(String::from_str("header decrypt failed")),
                );
            },
        };
        proof {
            assert forall|q: Seq<u8>|
                spec_envelope_ok(self.config.uuid@, b@, q) implies q == payload@ by {
                assert(q.len() == len as int);
                assert(b@.subrange(42, 58 + q.len() as int) == ct@);
            }
            assert(spec_envelope_ok(self.config.uuid@, b@, payload@)) by {
                assert(payload@.len() == len as int);
                assert(b@.subrange(42, 58 + payload@.len() as int) == ct@);
                lemma_be16_bytes_of_pair(lb@[0], lb@[1]);
                assert(lb@ =~= spec_be16_bytes(len as int));
            }
        }
        match parse_vmess_header(&payload) {
            Err(e) => DecodeResult::Reject(e),
            Ok(h) => {
                proof {
                    assert(spec_parse_vmess_header(payload@) matches HeaderParseSpec::Parsed(hh)
                        ==> hh.options.len() == 4);
                }
                let frames = build_vmess_response(&h.key, &h.iv, h.options[0]);
                let hs = Handshake {
                    target: DecodedTarget {
                        host: h.host,
                        port: h.port,
                        transport: if h.cmd == 1 {
                            Transport::Tcp
                        } else {
                            Transport::Udp
                        },
                    },
                    consumed: total,
                    response_frames: frames,
                };
                proof {
                    let ghost_payload = payload@;
                    let sp = spec_parse_vmess_header(ghost_payload);
                    if !(sp is Parsed) {
                        assert(false);
                    }
                    assert(spec_vmess_outcome_matches(DecodeResult::Ready(hs), ghost_payload));
                }
                DecodeResult::Ready(hs)
            },
        }
    }
}

/// Whether an address body fits its type: 4 bytes for IPv4, at most 255
/// for a domain name, 16 for IPv6.
pub open spec fn spec_addr_body_wf(kind: u8, body: Seq<u8>) -> bool {
    if kind == 1 {
        body.len() == 4
    } else if kind == 2 || kind == 3 {
        body.len() <= 255
    } else if kind == 4 {
        body.len() == 16
    } else {
        false
    }
}

/// The wire form of an address record.
pub open spec fn spec_encode_addr(kind: u8, body: Seq<u8>) -> Seq<u8> {
    if kind == 2 || kind == 3 {
        seq![kind, body.len() as u8] + body
    } else {
        seq![kind] + body
    }
}

/// An address record as raw bytes, for building a request.
pub struct AddressBytes {
    pub kind: u8,
    pub body: Vec<u8>,
}

/// A client request header, as handed to the encoder.
pub struct VmessRequest {
    pub iv: Vec<u8>,
    pub key: Vec<u8>,
    pub options: Vec<u8>,
    pub cmd: u8,
    pub port: u16,
    pub addr: AddressBytes,
}

impl VmessRequest {
    /// Fixed-width fields have their widths and the address body fits its
    /// type.
    pub open spec fn wf(&self) -> bool {
        self.iv@.len() == 16 && self.key@.len() == 16 && self.options@.len() == 4
            && spec_addr_body_wf(self.addr.kind, self.addr.body@)
    }
}

/// The cleartext header payload a request serializes to.
pub open spec fn spec_encode_vmess_header(
    iv: Seq<u8>,
    key: Seq<u8>,
    options: Seq<u8>,
    cmd: u8,
    port: u16,
    kind: u8,
    body: Seq<u8>,
) -> Seq<u8> {
    seq![1u8] + iv + key + options + seq![cmd] + spec_be16_bytes(port as int) + spec_encode_addr(
        kind,
        body,
    )
}

/// Serializes a request header to its cleartext payload.
pub fn encode_vmess_header(h: &VmessRequest) -> (r: Vec<u8>)
    requires
        h.wf(),
    ensures
        r@ == spec_encode_vmess_header(
            h.iv@,
            h.key@,
            h.options@,
            h.cmd,
            h.port,
            h.addr.kind,
            h.addr.body@,
        ),
{
    let mut r: Vec<u8> = Vec::new();
    r.push(1u8);
    append_bytes(&mut r, &h.iv);
    append_bytes(&mut r, &h.key);
    append_bytes(&mut r, &h.options);
    r.push(h.cmd);
    let mut pb = be16_bytes(h.port);
    append_bytes(&mut r, &pb);
    if h.addr.kind == 2 || h.addr.kind == 3 {
        r.push(h.addr.kind);
        r.push(h.addr.body.len() as u8);
    } else {
        r.push(h.addr.kind);
    }
    append_bytes(&mut r, &h.addr.body);
    proof {
        assert(r@ =~= spec_encode_vmess_header(
            h.iv@,
            h.key@,
            h.options@,
            h.cmd,
            h.port,
            h.addr.kind,
            h.addr.body@,
        ));
    }
    r
}

/// Round trip of the cleartext header: serializing a well-formed request
/// and parsing the result recovers every field unchanged.
pub proof fn lemma_vmess_header_round_trip(
    iv: Seq<u8>,
    key: Seq<u8>,
    options: Seq<u8>,
    cmd: u8,
    port: u16,
    kind: u8,
    body: Seq<u8>,
)
    requires
        iv.len() == 16,
        key.len() == 16,
        options.len() == 4,
        spec_addr_body_wf(kind, body),
    ensures
        spec_parse_vmess_header(spec_encode_vmess_header(iv, key, options, cmd, port, kind, body))
            matches HeaderParseSpec::Parsed(h) && h.iv == iv && h.key == key && h.options
            == options && h.cmd == cmd && h.port == port && h.addr_kind == kind && h.addr_body
            == body,
{
    let enc = spec_encode_addr(kind, body);
    let p = spec_encode_vmess_header(iv, key, options, cmd, port, kind, body);
    assert(p.len() == 40 + enc.len());
    assert(p[0] == 1);
    let rec = p.skip(40);
    assert(rec =~= enc);
    lemma_be16_inverse(port as int);
    assert(p[38] == spec_be16_bytes(port as int)[0]);
    assert(p[39] == spec_be16_bytes(port as int)[1]);
    if kind == 2 || kind == 3 {
        assert(rec[0] == kind);
        assert(rec[1] == body.len() as u8);
        assert(rec.len() == 2 + body.len());
        assert(spec_addr_need(rec) is None);
        assert(spec_addr_valid(rec));
        assert(rec.subrange(2, 2 + rec[1] as int) =~= body);
    } else if kind == 1 {
        assert(rec[0] == 1);
        assert(rec.len() == 5);
        assert(rec.subrange(1, 5) =~= body);
    } else {
        assert(rec[0] == 4);
        assert(rec.len() == 17);
        assert(rec.subrange(1, 17) =~= body);
    }
    assert(spec_parse_vmess_header(p) matches HeaderParseSpec::Parsed(h) && h.iv =~= iv && h.key
        =~= key && h.options =~= options && h.cmd == cmd && h.port == port && h.addr_kind == kind
        && h.addr_body =~= body);
}

/// Seals a cleartext header payload into the inbound envelope a client
/// would send: authentication id, sealed length block, nonce, sealed
/// payload.
pub fn seal_vmess_request(uuid: &Vec<u8>, auth_id: &Vec<u8>, nonce: &Vec<u8>, payload: &Vec<
    u8,
>) -> (r: Vec<u8>)
    requires
        uuid@.len() == 16,
        auth_id@.len() == 16,
        nonce@.len() == 8,
        payload@.len() <= 0xFFFF,
    ensures
        spec_envelope_ok(uuid@, r@, payload@),
        r@.len() == 58 + payload@.len(),
        r@.take(16) == auth_id@,
        r@.subrange(34, 42) == nonce@,
{
    let ck = vmess_cmd_key(uuid);
    let lk = kdf3_take(&ck, salt_length_key_bytes(), auth_id, nonce, 16);
    let ln = kdf3_take(&ck, salt_length_iv_bytes(), auth_id, nonce, 12);
    let lmsg = be16_bytes(payload.len() as u16);
    let elen = aes128gcm_seal(&lk, &ln, auth_id, &lmsg);
    let hk = kdf3_take(&ck, salt_header_key_bytes(), auth_id, nonce, 16);
    let hn = kdf3_take(&ck, salt_header_iv_bytes(), auth_id, nonce, 12);
    let ct = aes128gcm_seal(&hk, &hn, auth_id, payload);
    let mut r = clone_bytes(auth_id);
    append_bytes(&mut r, &elen);
    append_bytes(&mut r, &nonce);
    append_bytes(&mut r, &ct);
    proof {
        assert(r@.take(16) =~= auth_id@);
        assert(r@.subrange(16, 34) =~= elen@);
        assert(r@.subrange(34, 42) =~= nonce@);
        assert(r@.subrange(42, 58 + payload@.len() as int) =~= ct@);
        assert(lmsg@ == spec_be16_bytes(payload@.len() as int));
    }
    r
}

} // verus!
