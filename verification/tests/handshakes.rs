use siren_tunnel::config::Config;
use siren_tunnel::conn::DecodeResult;
use siren_tunnel::conn::ProxyStream;
use siren_tunnel::conn::Transport;
use siren_tunnel::errors::ErrorKind;

fn test_config() -> Config {
    Config {
        uuid: vec![3u8; 16],
        host: String::from("edge.test"),
        proxy_addr: String::from("fallback.test"),
        proxy_port: 8443,
        main_page_url: String::new(),
        sub_page_url: String::new(),
        link_page_url: String::new(),
        converter_page_url: String::new(),
        checker_page_url: String::new(),
    }
}

fn stream_with(bytes: &[u8]) -> ProxyStream {
    let mut ps = ProxyStream::new(test_config());
    ps.accept_frame(bytes);
    ps
}

#[test]
fn vless_tcp_handshake_decodes_and_acks() {
    let mut b = vec![0u8]; // version
    b.extend_from_slice(&[9u8; 16]); // client id
    b.push(0); // no extension data
    b.push(1); // TCP
    b.extend_from_slice(&[0, 80]);
    b.push(2); // domain
    b.push(11);
    b.extend_from_slice(b"example.com");
    let handshake_len = b.len();
    b.extend_from_slice(b"GET /"); // first relayed bytes

    let mut ps = stream_with(&b);
    match ps.process() {
        DecodeResult::Ready(hs) => {
            assert_eq!(hs.target.host, "example.com");
            assert_eq!(hs.target.port, 80);
            assert_eq!(hs.target.transport, Transport::Tcp);
            assert_eq!(hs.consumed, handshake_len);
            // The fixed two-byte acknowledgement precedes any relayed data.
            assert_eq!(hs.response_frames, vec![vec![0u8, 0u8]]);
        }
        _ => panic!("expected a decoded VLESS handshake"),
    }
    // Only payload is left for the relay.
    assert_eq!(ps.take_front(100), b"GET /".to_vec());
}

#[test]
fn vless_udp_handshake_writes_no_ack() {
    let mut b = vec![0u8];
    b.extend_from_slice(&[9u8; 16]);
    b.push(0);
    b.push(2); // not TCP
    b.extend_from_slice(&[0, 53]);
    b.push(1);
    b.extend_from_slice(&[8, 8, 8, 8]);
    b.extend_from_slice(&[0u8; 10]);

    let mut ps = stream_with(&b);
    match ps.process() {
        DecodeResult::Ready(hs) => {
            assert_eq!(hs.target.host, "8.8.8.8");
            assert_eq!(hs.target.port, 53);
            assert_eq!(hs.target.transport, Transport::Udp);
            assert!(hs.response_frames.is_empty());
        }
        _ => panic!("expected a decoded VLESS handshake"),
    }
}

#[test]
fn trojan_handshake_decodes() {
    let mut b = vec![b'a'; 56]; // credential field, not validated
    b.extend_from_slice(&[13, 10]);
    b.push(1); // TCP
    b.push(1); // IPv4
    b.extend_from_slice(&[10, 0, 0, 1]);
    b.extend_from_slice(&[0x1F, 0x90]); // port 8080, after the address
    b.extend_from_slice(&[13, 10]);
    let handshake_len = b.len();
    b.extend_from_slice(b"payload");

    let mut ps = stream_with(&b);
    match ps.process() {
        DecodeResult::Ready(hs) => {
            assert_eq!(hs.target.host, "10.0.0.1");
            assert_eq!(hs.target.port, 8080);
            assert_eq!(hs.target.transport, Transport::Tcp);
            assert_eq!(hs.consumed, handshake_len);
            assert!(hs.response_frames.is_empty());
        }
        _ => panic!("expected a decoded Trojan handshake"),
    }
    assert_eq!(ps.take_front(100), b"payload".to_vec());
}

#[test]
fn shadowsocks_handshake_decodes_as_tcp() {
    let mut b = vec![3u8, 11];
    b.extend_from_slice(b"example.com");
    b.extend_from_slice(&[1, 187]); // port 443
    let handshake_len = b.len();
    b.extend_from_slice(&[0u8; 40]); // payload pads the sniff window

    let mut ps = stream_with(&b);
    match ps.process() {
        DecodeResult::Ready(hs) => {
            assert_eq!(hs.target.host, "example.com");
            assert_eq!(hs.target.port, 443);
            // UDP cannot be told apart: always TCP.
            assert_eq!(hs.target.transport, Transport::Tcp);
            assert_eq!(hs.consumed, handshake_len);
            assert!(hs.response_frames.is_empty());
        }
        _ => panic!("expected a decoded Shadowsocks handshake"),
    }
}

#[test]
fn vless_bad_address_type_rejects() {
    let mut b = vec![0u8];
    b.extend_from_slice(&[9u8; 16]);
    b.push(0);
    b.push(1);
    b.extend_from_slice(&[0, 80]);
    b.push(9); // unknown address form
    b.extend_from_slice(&[0u8; 20]);

    let mut ps = stream_with(&b);
    match ps.process() {
        DecodeResult::Reject(e) => {
            assert_eq!(e.kind(), ErrorKind::Protocol);
            assert_eq!(e.message().as_str(), "invalid address");
        }
        _ => panic!("expected a protocol rejection"),
    }
}

#[test]
fn incomplete_vless_handshake_asks_for_more() {
    // 31 bytes of a VLESS handshake whose extension data is longer.
    let mut b = vec![0u8];
    b.extend_from_slice(&[9u8; 16]);
    b.push(40); // extension length: 40 bytes, mostly not yet arrived
    b.extend_from_slice(&[0u8; 13]);
    let mut ps = stream_with(&b);
    match ps.process() {
        DecodeResult::NeedBytes(n) => assert_eq!(n, 21 + 40),
        _ => panic!("expected a request for more bytes"),
    }
    assert_eq!(ps.buffered_len(), 31);
}

#[test]
fn candidate_pool_is_target_then_fallback() {
    let ps = ProxyStream::new(test_config());
    let target = siren_tunnel::conn::DecodedTarget {
        host: String::from("example.com"),
        port: 80,
        transport: Transport::Tcp,
    };
    let pool = ps.relay_candidates(&target);
    assert_eq!(pool.len(), 2);
    assert_eq!(pool[0], (String::from("example.com"), 80));
    assert_eq!(pool[1], (String::from("fallback.test"), 8443));
}
