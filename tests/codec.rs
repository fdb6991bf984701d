use algorithm::buf::{BinaryMut, Bt, BtMut};
use hcnet::codec::{decode_frame, decode_message, encode_message, encode_u24, read_u24};
use hcnet::error::NetError;
use hcnet::message::{CloseCode, Message};
use hcnet::settings::Settings;

fn round_trip(msg: Message) -> Message {
    let mut buf = BinaryMut::new();
    encode_message(&mut buf, msg, false).unwrap();
    let out = decode_message(&mut buf, &Settings::default()).unwrap().unwrap();
    assert_eq!(buf.len(), 0);
    out
}

#[test]
fn text_frame_bytes() {
    let mut buf = BinaryMut::new();
    encode_message(&mut buf, Message::Text("hi".to_string()), false).unwrap();
    assert_eq!(buf.chunk(), &[0u8, 0, 6, 1, b'h', b'i'][..]);
}

#[test]
fn close_frame_bytes() {
    let mut buf = BinaryMut::new();
    encode_message(&mut buf, Message::Close(CloseCode::Away, "exit".to_string()), false).unwrap();
    assert_eq!(buf.chunk(), &[0u8, 0, 10, 8, 0x03, 0xE9, b'e', b'x', b'i', b't'][..]);
}

#[test]
fn round_trip_each_kind() {
    assert_eq!(round_trip(Message::Text("hi".to_string())), Message::Text("hi".to_string()));
    assert_eq!(round_trip(Message::Text("héllo €".to_string())), Message::Text("héllo €".to_string()));
    assert_eq!(round_trip(Message::Binary(vec![0, 255, 7])), Message::Binary(vec![0, 255, 7]));
    assert_eq!(round_trip(Message::Ping(b"x".to_vec())), Message::Ping(b"x".to_vec()));
    assert_eq!(round_trip(Message::Pong(vec![])), Message::Pong(vec![]));
    assert_eq!(
        round_trip(Message::Close(CloseCode::Away, "exit".to_string())),
        Message::Close(CloseCode::Away, "exit".to_string())
    );
    assert_eq!(
        round_trip(Message::Close(CloseCode::Other(4000), "".to_string())),
        Message::Close(CloseCode::Other(4000), "".to_string())
    );
}

#[test]
fn two_frames_decode_in_order() {
    let mut buf = BinaryMut::new();
    encode_message(&mut buf, Message::Text("a".to_string()), false).unwrap();
    encode_message(&mut buf, Message::Binary(vec![9]), false).unwrap();
    let s = Settings::default();
    assert_eq!(decode_message(&mut buf, &s).unwrap(), Some(Message::Text("a".to_string())));
    assert_eq!(decode_message(&mut buf, &s).unwrap(), Some(Message::Binary(vec![9])));
    assert_eq!(decode_message(&mut buf, &s).unwrap(), None);
}

#[test]
fn shutdown_is_never_written() {
    let mut buf = BinaryMut::new();
    encode_message(&mut buf, Message::Shutdown, false).unwrap();
    assert_eq!(buf.len(), 0);
}

#[test]
fn incomplete_frame_consumes_nothing() {
    let mut buf = BinaryMut::new();
    buf.put_slice(&[0, 0, 6, 1, b'h']);
    assert_eq!(decode_message(&mut buf, &Settings::default()).unwrap(), None);
    assert_eq!(buf.len(), 5);
    buf.put_slice(&[b'i']);
    assert_eq!(decode_message(&mut buf, &Settings::default()).unwrap(), Some(Message::Text("hi".to_string())));
}

#[test]
fn short_header_is_pending() {
    assert_eq!(decode_frame(&[0, 0, 9], &Settings::default()).unwrap(), None);
}

#[test]
fn length_below_header_is_too_short() {
    assert_eq!(decode_frame(&[0, 0, 3, 1], &Settings::default()), Err(NetError::TooShort));
}

#[test]
fn over_size_frame_is_fatal() {
    let mut s = Settings::default();
    s.onemsg_max_size = 10;
    assert_eq!(decode_frame(&[0, 0, 11, 2, 0, 0, 0, 0, 0, 0, 0], &s), Err(NetError::OverMsgSize));
    assert_eq!(decode_frame(&[0, 0, 10, 2, 0, 0, 0, 0, 0, 0], &s).unwrap().unwrap().1, 10);
}

#[test]
fn bad_text_is_fatal() {
    assert_eq!(decode_frame(&[0, 0, 5, 1, 0xFF], &Settings::default()), Err(NetError::BadText));
}

#[test]
fn bad_close_reason_is_fatal() {
    assert_eq!(decode_frame(&[0, 0, 7, 8, 3, 232, 0xC0], &Settings::default()), Err(NetError::BadText));
}

#[test]
fn close_without_code_is_too_short() {
    assert_eq!(decode_frame(&[0, 0, 5, 8, 3], &Settings::default()), Err(NetError::TooShort));
}

#[test]
fn unknown_opcode_is_bad_code() {
    assert_eq!(decode_frame(&[0, 0, 4, 11], &Settings::default()), Err(NetError::BadCode));
    assert_eq!(decode_frame(&[0, 0, 4, 3], &Settings::default()), Err(NetError::BadCode));
}

#[test]
fn payload_is_length_less_header() {
    let (m, n) = decode_frame(&[0, 0, 7, 2, 1, 2, 3, 99], &Settings::default()).unwrap().unwrap();
    assert_eq!(n, 7);
    assert_eq!(m, Message::Binary(vec![1, 2, 3]));
}

#[test]
fn raw_mode_passes_bytes_through() {
    let mut buf = BinaryMut::new();
    encode_message(&mut buf, Message::Text("ab".to_string()), true).unwrap();
    encode_message(&mut buf, Message::Ping(vec![1]), true).unwrap();
    encode_message(&mut buf, Message::Close(CloseCode::Normal, "x".to_string()), true).unwrap();
    encode_message(&mut buf, Message::Binary(vec![3]), true).unwrap();
    assert_eq!(buf.chunk(), &[b'a', b'b', 3][..]);
    let mut s = Settings::default();
    s.is_raw = true;
    assert_eq!(decode_message(&mut buf, &s).unwrap(), Some(Message::Binary(vec![b'a', b'b', 3])));
    assert_eq!(decode_message(&mut buf, &s).unwrap(), None);
}

#[test]
fn frame_too_long_for_header_is_refused() {
    let mut buf = BinaryMut::new();
    let big = vec![0u8; 0xFFFFFF - 3];
    assert_eq!(encode_message(&mut buf, Message::Binary(big), false), Err(NetError::OverMsgSize));
    assert_eq!(buf.len(), 0);
    let fits = vec![0u8; 0xFFFFFF - 4];
    encode_message(&mut buf, Message::Binary(fits), false).unwrap();
    assert_eq!(&buf.chunk()[..4], &[0xFF, 0xFF, 0xFF, 2][..]);
}

#[test]
fn u24_read_and_write() {
    let mut buf = BinaryMut::new();
    assert_eq!(encode_u24(&mut buf, 0x01_02_03), 3);
    assert_eq!(buf.chunk(), &[1u8, 2, 3][..]);
    assert_eq!(read_u24(&mut buf), 0x01_02_03);
    assert_eq!(buf.len(), 0);
    buf.put_slice(&[7, 8]);
    assert_eq!(read_u24(&mut buf), 0);
    assert_eq!(buf.len(), 2);
    let mut b2 = BinaryMut::new();
    encode_u24(&mut b2, 0xAB_CD_EF_12);
    assert_eq!(b2.chunk(), &[0xCDu8, 0xEF, 0x12][..]);
}
