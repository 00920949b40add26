use siren_tunnel::config::Config;
use siren_tunnel::conn::FrameOutcome;
use siren_tunnel::conn::ProxyStream;
use siren_tunnel::conn::MAX_BUFFER_SIZE;
use siren_tunnel::conn::MAX_WEBSOCKET_SIZE;

fn test_config() -> Config {
    Config {
        uuid: vec![7u8; 16],
        host: String::new(),
        proxy_addr: String::new(),
        proxy_port: 0,
        main_page_url: String::new(),
        sub_page_url: String::new(),
        link_page_url: String::new(),
        converter_page_url: String::new(),
        checker_page_url: String::new(),
    }
}

#[test]
fn frames_append_in_order() {
    let mut ps = ProxyStream::new(test_config());
    assert_eq!(ps.accept_frame(&[1, 2, 3]), FrameOutcome::Accepted);
    assert_eq!(ps.accept_frame(&[4, 5]), FrameOutcome::Accepted);
    assert_eq!(ps.buffered_len(), 5);
    assert_eq!(ps.take_front(4), vec![1, 2, 3, 4]);
    assert_eq!(ps.take_front(10), vec![5]);
    assert_eq!(ps.buffered_len(), 0);
}

#[test]
fn peek_consumes_nothing() {
    let mut ps = ProxyStream::new(test_config());
    ps.accept_frame(&[9, 8, 7]);
    assert_eq!(ps.peek_buffer(2), &[9, 8]);
    assert_eq!(ps.peek_buffer(10), &[9, 8, 7]);
    assert_eq!(ps.buffered_len(), 3);
}

#[test]
fn oversized_frame_is_fatal() {
    let mut ps = ProxyStream::new(test_config());
    let frame = vec![0u8; MAX_WEBSOCKET_SIZE + 1];
    assert_eq!(ps.accept_frame(&frame), FrameOutcome::Oversized);
    assert_eq!(ps.buffered_len(), 0);
    // Exactly the cap is still accepted.
    let frame = vec![0u8; MAX_WEBSOCKET_SIZE];
    assert_eq!(ps.accept_frame(&frame), FrameOutcome::Accepted);
}

#[test]
fn backpressure_at_capacity_drops_nothing() {
    let mut ps = ProxyStream::new(test_config());
    let frame = vec![0u8; MAX_WEBSOCKET_SIZE];
    for _ in 0..(MAX_BUFFER_SIZE / MAX_WEBSOCKET_SIZE) {
        assert_eq!(ps.accept_frame(&frame), FrameOutcome::Accepted);
    }
    assert_eq!(ps.buffered_len(), MAX_BUFFER_SIZE);
    // The buffer is full: one more byte must suspend, not truncate.
    assert_eq!(ps.accept_frame(&[0]), FrameOutcome::Backpressure);
    assert_eq!(ps.buffered_len(), MAX_BUFFER_SIZE);
    // Draining makes room; the same frame is accepted afterwards.
    let drained = ps.take_front(1);
    assert_eq!(drained.len(), 1);
    assert_eq!(ps.accept_frame(&[0]), FrameOutcome::Accepted);
    assert_eq!(ps.buffered_len(), MAX_BUFFER_SIZE);
}
