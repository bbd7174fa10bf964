use frpc::responce::{EncodeError, Responce, Status};

#[test]
fn responce_test_name() {}

#[test]
fn status_codes() {
    assert_eq!(Status::Success.code(), 0);
    assert_eq!(Status::Error.code(), 1);
    assert_eq!(Status::Close.code(), 2);
    let mut out = vec![9];
    Status::Close.encoder(&mut out);
    assert_eq!(out, vec![9, 2]);
}

#[test]
fn frame_short_payload() {
    let mut out = Vec::new();
    Responce::new(Status::Success, &[1, 2, 3]).encoder(&mut out).unwrap();
    assert_eq!(out, vec![0, 3, 1, 2, 3]);
}

#[test]
fn frame_two_byte_length() {
    let data = vec![7u8; 200];
    let mut out = Vec::new();
    Responce::new(Status::Error, &data).encoder(&mut out).unwrap();
    // 200 = 0b11_001000: first byte 10_001000, second byte 3.
    assert_eq!(&out[..3], &[1, 0x80 | (200 % 64) as u8, (200 / 64) as u8]);
    assert_eq!(out.len(), 3 + 200);
}

#[test]
fn frame_three_byte_length() {
    let data = vec![0u8; 0x4000];
    let mut out = Vec::new();
    Responce::new(Status::Close, &data).encoder(&mut out).unwrap();
    assert_eq!(&out[..4], &[2, 0xC0, 0, 1]);
    assert_eq!(out.len(), 4 + 0x4000);
}

#[test]
fn frame_too_long() {
    let data = vec![0u8; 0x400000];
    let mut out = Vec::new();
    assert_eq!(
        Responce::new(Status::Success, &data).encoder(&mut out),
        Err(EncodeError::PayloadTooLong)
    );
    assert_eq!(out, vec![0]);
}
