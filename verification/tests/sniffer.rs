use siren_tunnel::config::Config;
use siren_tunnel::conn::DecodeResult;
use siren_tunnel::conn::ProxyStream;
use siren_tunnel::conn::Transport;
use siren_tunnel::errors::ErrorKind;

fn test_config() -> Config {
    Config {
        uuid: vec![0u8; 16],
        host: String::from("edge.test"),
        proxy_addr: String::from("fallback.test"),
        proxy_port: 8443,
        main_page_url: String::new(),
        sub_page_url: String::new(),
        link_page_url: String::new(),
        converter_page_url: String::new(),
        checker_page_url: String::new(),
    }
}

fn stream_with(bytes: &[u8]) -> ProxyStream {
    let mut ps = ProxyStream::new(test_config());
    ps.accept_frame(bytes);
    ps
}

fn vless_example_com_80() -> Vec<u8> {
    let mut b = vec![0u8]; // version
    b.extend_from_slice(&[9u8; 16]); // client id
    b.push(0); // no extension data
    b.push(1); // TCP
    b.extend_from_slice(&[0, 80]); // port, before the address
    b.push(2); // domain
    b.push(11);
    b.extend_from_slice(b"example.com");
    b
}

#[test]
fn vless_prefix_classifies_as_vless() {
    let ps = stream_with(&vless_example_com_80());
    let peek = ps.peek_buffer(62);
    assert!(ps.is_vless(peek));
    assert!(!ps.is_trojan(peek));
}

#[test]
fn identical_prefixes_classify_identically() {
    // Two buffers equal in their first 62 bytes, different afterwards.
    let mut one = vless_example_com_80();
    one.extend_from_slice(&[0xAA; 40]);
    let mut two = one.clone();
    two.truncate(62);
    two.extend_from_slice(&[0x55; 80]);
    let ps1 = stream_with(&one);
    let ps2 = stream_with(&two);
    let (p1, p2) = (ps1.peek_buffer(62), ps2.peek_buffer(62));
    assert_eq!(ps1.is_vless(p1), ps2.is_vless(p2));
    assert_eq!(ps1.is_shadowsocks(p1), ps2.is_shadowsocks(p2));
    assert_eq!(ps1.is_trojan(p1), ps2.is_trojan(p2));
    assert_eq!(ps1.is_vmess(p1), ps2.is_vmess(p2));
}

#[test]
fn first_match_wins_vless_beats_trojan_shape() {
    // A valid VLESS handshake whose extension data plants CR LF at
    // positions 56 and 57, so the Trojan predicate matches too.
    let mut b = vec![0u8];
    b.extend_from_slice(&[9u8; 16]);
    b.push(40); // extension bytes cover positions 18..58
    let mut ext = [0u8; 40];
    ext[56 - 18] = 13;
    ext[57 - 18] = 10;
    b.extend_from_slice(&ext);
    b.push(1); // TCP
    b.extend_from_slice(&[0, 80]);
    b.push(1); // IPv4
    b.extend_from_slice(&[10, 0, 0, 1]);

    let mut ps = stream_with(&b);
    {
        let peek = ps.peek_buffer(62);
        assert!(ps.is_vless(peek));
        assert!(ps.is_trojan(peek));
    }
    match ps.process() {
        DecodeResult::Ready(hs) => {
            assert_eq!(hs.target.host, "10.0.0.1");
            assert_eq!(hs.target.port, 80);
            assert_eq!(hs.target.transport, Transport::Tcp);
            assert_eq!(hs.response_frames, vec![vec![0u8, 0u8]]);
        }
        _ => panic!("expected a decoded VLESS handshake"),
    }
}

#[test]
fn shadowsocks_prefix_classifies_before_trojan() {
    // Type byte 1, nonzero port: the Shadowsocks shape.
    let mut b = vec![1u8, 10, 0, 0, 1, 0x1F, 0x90];
    b.extend_from_slice(&[0u8; 40]); // payload padding for the sniff window
    let ps = stream_with(&b);
    let peek = ps.peek_buffer(62);
    assert!(!ps.is_vless(peek));
    assert!(ps.is_shadowsocks(peek));
}

#[test]
fn zero_port_rejects_shadowsocks_shape() {
    let mut b = vec![1u8, 10, 0, 0, 1, 0, 0];
    b.extend_from_slice(&[0xEEu8; 40]);
    let ps = stream_with(&b);
    let peek = ps.peek_buffer(62);
    assert!(!ps.is_shadowsocks(peek));
    assert!(ps.is_vmess(peek));
}

#[test]
fn short_prefix_is_insufficient_data() {
    let mut ps = stream_with(&[0u8; 30]);
    match ps.process() {
        DecodeResult::Reject(e) => {
            assert_eq!(e.kind(), ErrorKind::Protocol);
            assert_eq!(e.message().as_str(), "insufficient data");
        }
        _ => panic!("expected a fatal protocol error"),
    }
    // No codec consumed anything.
    assert_eq!(ps.buffered_len(), 30);
}
