use frpc::transport::{
    accept_chunk, is_rpc_call, parse_u32_bytes, split_frame, Admission, TransportConfig,
};

#[test]
fn default_limit() {
    assert_eq!(TransportConfig::new().max_unary_payload_size, 128 * 1024);
    assert_eq!(TransportConfig::default().max_unary_payload_size, 131072);
}

#[test]
fn parse_content_length() {
    assert_eq!(parse_u32_bytes(b"0"), Some(0));
    assert_eq!(parse_u32_bytes(b"42"), Some(42));
    assert_eq!(parse_u32_bytes(b"+7"), Some(7));
    assert_eq!(parse_u32_bytes(b"007"), Some(7));
    assert_eq!(parse_u32_bytes(b"4294967295"), Some(u32::MAX));
    assert_eq!(parse_u32_bytes(b"4294967296"), None);
    assert_eq!(parse_u32_bytes(b"99999999999999999999"), None);
    assert_eq!(parse_u32_bytes(b""), None);
    assert_eq!(parse_u32_bytes(b"+"), None);
    assert_eq!(parse_u32_bytes(b"-1"), None);
    assert_eq!(parse_u32_bytes(b"1 "), None);
    assert_eq!(parse_u32_bytes(b"12a"), None);
    for s in ["0", "1", "65535", "+12", "4294967295", "4294967296", "", "+", "-0", " 1"] {
        assert_eq!(parse_u32_bytes(s.as_bytes()), s.parse::<u32>().ok(), "{s:?}");
    }
}

#[test]
fn admission_decisions() {
    let config = TransportConfig::new();
    assert_eq!(config.admission(None), Admission::Stream);
    assert_eq!(config.admission(Some(None)), Admission::Drop);
    assert_eq!(config.admission(Some(Some(b"abc"))), Admission::Drop);
    assert_eq!(config.admission(Some(Some(b"131072"))), Admission::Read { len: 131072 });
    assert_eq!(config.admission(Some(Some(b"131073"))), Admission::TooLarge);
    let small = TransportConfig { max_unary_payload_size: 4 };
    assert_eq!(small.admission(Some(Some(b"5"))), Admission::TooLarge);
}

#[test]
fn body_chunks() {
    let mut buf = Vec::new();
    assert!(accept_chunk(&mut buf, &[1, 2], 4));
    assert!(accept_chunk(&mut buf, &[3, 4], 4));
    assert_eq!(buf, vec![1, 2, 3, 4]);
    assert!(!accept_chunk(&mut buf, &[5], 4));
    assert_eq!(buf, vec![1, 2, 3, 4, 5]);
}

#[test]
fn frame_split() {
    assert_eq!(split_frame(&[]), None);
    assert_eq!(split_frame(&[1]), None);
    assert_eq!(split_frame(&[1, 0]), Some((1, &[][..])));
    assert_eq!(split_frame(&[0x34, 0x12, 9, 8]), Some((0x1234, &[9u8, 8][..])));
    let id: u16 = 0xBEEF;
    let mut frame = id.to_le_bytes().to_vec();
    frame.extend_from_slice(b"data");
    assert_eq!(split_frame(&frame), Some((id, &b"data"[..])));
}

#[test]
fn rpc_calls_are_posts_to_rpc() {
    assert!(is_rpc_call(b"POST", b"/rpc"));
    assert!(!is_rpc_call(b"GET", b"/rpc"));
    assert!(!is_rpc_call(b"POST", b"/rpc/echo"));
    assert!(!is_rpc_call(b"POST", b"/"));
    assert!(!is_rpc_call(b"post", b"/rpc"));
}
