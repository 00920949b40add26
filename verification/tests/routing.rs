use siren_tunnel::config::parse_proxy_target;
use siren_tunnel::errors::ErrorKind;
use siren_tunnel::errors::ProxyError;
use siren_tunnel::fe::build_front_end;

#[test]
fn host_dash_port_splits_at_the_first_dash() {
    let r = parse_proxy_target(&b"203.0.113.9-443".to_vec());
    assert_eq!(r, Some((b"203.0.113.9".to_vec(), 443)));
}

#[test]
fn segment_without_a_port_is_rejected() {
    assert_eq!(parse_proxy_target(&b"no dash here".to_vec()), None);
    assert_eq!(parse_proxy_target(&b"host-".to_vec()), None);
    assert_eq!(parse_proxy_target(&b"host-12x".to_vec()), None);
    assert_eq!(parse_proxy_target(&b"host-99999".to_vec()), None);
}

#[test]
fn split_takes_the_first_dash() {
    // The remainder after the first dash must be all digits to parse.
    assert_eq!(parse_proxy_target(&b"a-b-1".to_vec()), None);
    assert_eq!(parse_proxy_target(&b"host-80".to_vec()), Some((b"host".to_vec(), 80)));
    assert_eq!(parse_proxy_target(&b"host-+80".to_vec()), Some((b"host".to_vec(), 80)));
}

#[test]
fn every_error_carries_its_class_and_message() {
    let cases = vec![
        (ProxyError::Transport(String::from("t")), ErrorKind::Transport),
        (ProxyError::Protocol(String::from("p")), ErrorKind::Protocol),
        (ProxyError::Crypto(String::from("c")), ErrorKind::Crypto),
        (ProxyError::Outbound(String::from("o")), ErrorKind::Outbound),
        (ProxyError::Resolution(String::from("r")), ErrorKind::Resolution),
    ];
    let expected = ["t", "p", "c", "o", "r"];
    for (i, (e, kind)) in cases.iter().enumerate() {
        assert_eq!(e.kind(), *kind);
        assert_eq!(e.message().as_str(), expected[i]);
    }
}

#[test]
fn front_end_page_is_served() {
    let page = build_front_end();
    assert!(page.contains("<!DOCTYPE html>"));
    assert!(page.contains("Selamat Datang!"));
    // The card copy keeps its em-dash character, not an entity for it.
    assert!(page.contains("perangkat\u{2014}desktop"));
}
