use siren_tunnel::common::parse_addr;
use siren_tunnel::common::parse_port;
use siren_tunnel::common::ipv4_string;
use siren_tunnel::common::ipv6_string;
use siren_tunnel::common::u16_dec_string;
use siren_tunnel::common::u16_hex_string;
use siren_tunnel::common::AddrStep;

#[test]
fn ipv4_record_decodes_to_dotted_decimal() {
    let rec = vec![1u8, 192, 168, 0, 1];
    match parse_addr(&rec, 0) {
        AddrStep::Decoded(host, used) => {
            assert_eq!(host, "192.168.0.1");
            assert_eq!(used, 5);
        }
        _ => panic!("expected a decoded IPv4 record"),
    }
}

#[test]
fn domain_record_decodes_to_its_name() {
    let mut rec = vec![3u8, 11];
    rec.extend_from_slice(b"example.com");
    match parse_addr(&rec, 0) {
        AddrStep::Decoded(host, used) => {
            assert_eq!(host, "example.com");
            assert_eq!(used, 13);
        }
        _ => panic!("expected a decoded domain record"),
    }
    // Type 2 carries the same layout as type 3.
    let mut rec2 = vec![2u8, 11];
    rec2.extend_from_slice(b"example.com");
    match parse_addr(&rec2, 0) {
        AddrStep::Decoded(host, _) => assert_eq!(host, "example.com"),
        _ => panic!("expected a decoded domain record"),
    }
}

#[test]
fn ipv6_loopback_decodes_to_compressed_form() {
    let mut rec = vec![4u8];
    let mut b = [0u8; 16];
    b[15] = 1;
    rec.extend_from_slice(&b);
    match parse_addr(&rec, 0) {
        AddrStep::Decoded(host, used) => {
            assert_eq!(host, "::1");
            assert_eq!(used, 17);
        }
        _ => panic!("expected a decoded IPv6 record"),
    }
}

#[test]
fn ipv6_canonical_forms() {
    assert_eq!(ipv6_string(&vec![0u8; 16]), "::");
    // 2001:db8::1
    let b = vec![0x20u8, 0x01, 0x0d, 0xb8, 0, 0, 0, 0, 0, 0, 0, 0, 0, 0, 0, 1];
    assert_eq!(ipv6_string(&b), "2001:db8::1");
    // The IPv4-mapped form keeps its dotted tail.
    let b = vec![0u8, 0, 0, 0, 0, 0, 0, 0, 0, 0, 0xff, 0xff, 192, 168, 0, 1];
    assert_eq!(ipv6_string(&b), "::ffff:192.168.0.1");
    // Two equally long zero runs: the leftmost is compressed.
    let b = vec![0u8, 1, 0, 0, 0, 0, 0, 2, 0, 0, 0, 0, 0, 3, 0, 4];
    assert_eq!(ipv6_string(&b), "1::2:0:0:3:4");
    // A single zero group is not compressed.
    let b = vec![0u8, 1, 0, 0, 0, 2, 0, 3, 0, 4, 0, 5, 0, 6, 0, 7];
    assert_eq!(ipv6_string(&b), "1:0:2:3:4:5:6:7");
}

#[test]
fn domain_record_decodes_lossily() {
    // An invalid UTF-8 byte becomes the replacement character.
    let rec = vec![3u8, 2, 0xFF, b'a'];
    match parse_addr(&rec, 0) {
        AddrStep::Decoded(host, used) => {
            assert_eq!(host, "\u{FFFD}a");
            assert_eq!(used, 4);
        }
        _ => panic!("expected a decoded domain record"),
    }
}

#[test]
fn unknown_type_byte_is_invalid() {
    let rec = vec![9u8, 0, 0, 0, 0];
    assert!(matches!(parse_addr(&rec, 0), AddrStep::Invalid));
}

#[test]
fn truncated_records_ask_for_more() {
    assert!(matches!(parse_addr(&vec![], 0), AddrStep::NeedMore(1)));
    assert!(matches!(parse_addr(&vec![1u8, 10], 0), AddrStep::NeedMore(5)));
    assert!(matches!(parse_addr(&vec![3u8], 0), AddrStep::NeedMore(2)));
    assert!(matches!(parse_addr(&vec![3u8, 4, b'a'], 0), AddrStep::NeedMore(6)));
    assert!(matches!(parse_addr(&vec![4u8, 0, 0], 0), AddrStep::NeedMore(17)));
}

#[test]
fn ports_read_big_endian() {
    assert_eq!(parse_port(&vec![0x1F, 0x90], 0), Some(8080));
    assert_eq!(parse_port(&vec![0, 80], 0), Some(80));
    assert_eq!(parse_port(&vec![0xFF], 0), None);
}

#[test]
fn number_rendering() {
    assert_eq!(u16_dec_string(0), "0");
    assert_eq!(u16_dec_string(65535), "65535");
    assert_eq!(u16_hex_string(0), "0");
    assert_eq!(u16_hex_string(0x20a), "20a");
    assert_eq!(ipv4_string(0, 0, 0, 0), "0.0.0.0");
    assert_eq!(ipv4_string(255, 255, 255, 255), "255.255.255.255");
}
