use aes_gcm::Aes128Gcm;
use aes_gcm::KeyInit;
use aes_gcm::aead::Aead;
use aes_gcm::aead::Payload;
use aes_gcm::aead::array::Array;

use siren_tunnel::config::Config;
use siren_tunnel::conn::DecodeResult;
use siren_tunnel::conn::ProxyStream;
use siren_tunnel::conn::Transport;
use siren_tunnel::errors::ErrorKind;
use siren_tunnel::hash::sha256_concat;
use siren_tunnel::hash::vmess_kdf;
use siren_tunnel::vmess::AddressBytes;
use siren_tunnel::vmess::VmessRequest;
use siren_tunnel::vmess::encode_vmess_header;
use siren_tunnel::vmess::parse_vmess_header;
use siren_tunnel::vmess::seal_vmess_request;

fn config_with_uuid(uuid: [u8; 16]) -> Config {
    Config {
        uuid: uuid.to_vec(),
        host: String::from("edge.test"),
        proxy_addr: String::from("fallback.test"),
        proxy_port: 8443,
        main_page_url: String::new(),
        sub_page_url: String::new(),
        link_page_url: String::new(),
        converter_page_url: String::new(),
        checker_page_url: String::new(),
    }
}

fn sample_request() -> VmessRequest {
    VmessRequest {
        iv: vec![0x11; 16],
        key: vec![0x22; 16],
        options: vec![0x05, 0, 0, 0],
        cmd: 1,
        port: 443,
        addr: AddressBytes { kind: 2, body: b"example.com".to_vec() },
    }
}

#[test]
fn header_serialization_round_trips() {
    let req = sample_request();
    let payload = encode_vmess_header(&req);
    let parsed = parse_vmess_header(&payload).expect("well-formed header must parse");
    assert_eq!(parsed.iv, req.iv);
    assert_eq!(parsed.key, req.key);
    assert_eq!(parsed.options, req.options);
    assert_eq!(parsed.cmd, req.cmd);
    assert_eq!(parsed.port, req.port);
    assert_eq!(parsed.host, "example.com");
}

#[test]
fn vmess_round_trip_recovers_the_header() {
    let uuid = [0xA7u8; 16];
    let req = sample_request();
    let payload = encode_vmess_header(&req);
    let env = seal_vmess_request(&uuid.to_vec(), &vec![0x05; 16], &vec![0x0B; 8], &payload);

    let ps = ProxyStream::new(config_with_uuid(uuid));
    match ps.process_vmess(&env) {
        DecodeResult::Ready(hs) => {
            assert_eq!(hs.target.host, "example.com");
            assert_eq!(hs.target.port, 443);
            assert_eq!(hs.target.transport, Transport::Tcp);
            assert_eq!(hs.consumed, env.len());
            assert_eq!(hs.response_frames.len(), 2);
        }
        _ => panic!("a well-formed envelope must decode"),
    }
}

#[test]
fn response_frames_decrypt_to_declared_shape() {
    let uuid = [0xA7u8; 16];
    let req = sample_request();
    let payload = encode_vmess_header(&req);
    let env = seal_vmess_request(&uuid.to_vec(), &vec![0x05; 16], &vec![0x0B; 8], &payload);
    let ps = ProxyStream::new(config_with_uuid(uuid));
    let frames = match ps.process_vmess(&env) {
        DecodeResult::Ready(hs) => hs.response_frames,
        _ => panic!("a well-formed envelope must decode"),
    };

    // Re-derive the response sub-keys the way the scheme defines them and
    // decrypt both frames independently.
    let rkey = &sha256_concat(&vec![req.key.clone()])[..16];
    let riv = &sha256_concat(&vec![req.iv.clone()])[..16];
    let open = |salt_k: &[u8], salt_n: &[u8], frame: &[u8]| -> Vec<u8> {
        let k = vmess_kdf(&rkey.to_vec(), &vec![salt_k.to_vec()]);
        let n = vmess_kdf(&riv.to_vec(), &vec![salt_n.to_vec()]);
        let cipher = Aes128Gcm::new_from_slice(&k[..16]).unwrap();
        let nonce = Array::try_from(&n[..12]).unwrap();
        cipher.decrypt(&nonce, Payload { msg: frame, aad: b"" }).unwrap()
    };
    let len_block = open(b"AEAD Resp Header Len Key", b"AEAD Resp Header Len IV", &frames[0]);
    assert_eq!(len_block, vec![0, 4]);
    let header = open(b"AEAD Resp Header Key", b"AEAD Resp Header IV", &frames[1]);
    assert_eq!(header, vec![0x05, 0, 0, 0]);
}

#[test]
fn mismatched_identity_rejects_at_length_decrypt() {
    let sender_uuid = [0xA7u8; 16];
    let req = sample_request();
    let payload = encode_vmess_header(&req);
    let env = seal_vmess_request(&sender_uuid.to_vec(), &vec![0x05; 16], &vec![0x0B; 8], &payload);

    // The session was configured with a different client identity.
    let mut ps = ProxyStream::new(config_with_uuid([0x13u8; 16]));
    ps.accept_frame(&env);
    match ps.process() {
        DecodeResult::Reject(e) => {
            assert_eq!(e.kind(), ErrorKind::Crypto);
            assert_eq!(e.message().as_str(), "length decrypt failed");
        }
        _ => panic!("a mismatched identity must be a crypto error"),
    }
    // Session aborted before anything was consumed or relayed.
    assert_eq!(ps.buffered_len(), env.len());
}

#[test]
fn wrong_version_rejects_as_crypto_error() {
    let uuid = [0xA7u8; 16];
    let mut payload = encode_vmess_header(&sample_request());
    payload[0] = 2; // an unsupported version, sealed under the right identity
    let env = seal_vmess_request(&uuid.to_vec(), &vec![0x05; 16], &vec![0x0B; 8], &payload);
    let ps = ProxyStream::new(config_with_uuid(uuid));
    match ps.process_vmess(&env) {
        DecodeResult::Reject(e) => {
            assert_eq!(e.kind(), ErrorKind::Crypto);
            assert_eq!(e.message().as_str(), "invalid version");
        }
        _ => panic!("an unsupported version must be a crypto error"),
    }
}

#[test]
fn udp_command_maps_to_udp_transport() {
    let uuid = [0x3Cu8; 16];
    let mut req = sample_request();
    req.cmd = 2;
    req.addr = AddressBytes { kind: 1, body: vec![9, 9, 9, 9] };
    req.port = 53;
    let payload = encode_vmess_header(&req);
    let env = seal_vmess_request(&uuid.to_vec(), &vec![0x06; 16], &vec![0x0C; 8], &payload);
    let ps = ProxyStream::new(config_with_uuid(uuid));
    match ps.process_vmess(&env) {
        DecodeResult::Ready(hs) => {
            assert_eq!(hs.target.host, "9.9.9.9");
            assert_eq!(hs.target.port, 53);
            assert_eq!(hs.target.transport, Transport::Udp);
            // Both response frames are still owed before any relay.
            assert_eq!(hs.response_frames.len(), 2);
        }
        _ => panic!("a well-formed envelope must decode"),
    }
}

#[test]
fn truncated_envelope_asks_for_more() {
    let uuid = [0xA7u8; 16];
    let req = sample_request();
    let payload = encode_vmess_header(&req);
    let env = seal_vmess_request(&uuid.to_vec(), &vec![0x05; 16], &vec![0x0B; 8], &payload);
    let ps = ProxyStream::new(config_with_uuid(uuid));

    let partial = env[..41].to_vec();
    assert!(matches!(ps.process_vmess(&partial), DecodeResult::NeedBytes(42)));
    let partial = env[..50].to_vec();
    match ps.process_vmess(&partial) {
        DecodeResult::NeedBytes(n) => assert_eq!(n, env.len()),
        _ => panic!("a truncated envelope must ask for more bytes"),
    }
}
