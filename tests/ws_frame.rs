use hcnet::error::NetError;
use hcnet::message::{CloseCode, Message};
use hcnet::ws_frame::{frames_to_message, read_ws_frame, ws_encode, ws_message, WsPayload};

fn decode_one(bytes: &[u8]) -> (Message, usize) {
    let (frame, used) = read_ws_frame(bytes).unwrap().unwrap();
    (frames_to_message(vec![frame]).unwrap(), used)
}

#[test]
fn server_text_frame_is_unmasked() {
    let mut out = Vec::new();
    ws_encode(&mut out, Message::Text("hi".to_string()), None).unwrap();
    assert_eq!(out, vec![0x81, 0x02, b'h', b'i']);
    assert_eq!(decode_one(&out), (Message::Text("hi".to_string()), 4));
}

#[test]
fn client_frame_is_masked() {
    let mut out = Vec::new();
    ws_encode(&mut out, Message::Text("hi".to_string()), Some([1, 2, 3, 4])).unwrap();
    assert_eq!(out, vec![0x81, 0x82, 1, 2, 3, 4, b'h' ^ 1, b'i' ^ 2]);
    assert_eq!(decode_one(&out), (Message::Text("hi".to_string()), 8));
}

#[test]
fn close_and_ping_round_trip() {
    let mut out = Vec::new();
    ws_encode(&mut out, Message::Close(CloseCode::Away, "exit".to_string()), None).unwrap();
    assert_eq!(out, vec![0x88, 6, 0x03, 0xE9, b'e', b'x', b'i', b't']);
    assert_eq!(decode_one(&out).0, Message::Close(CloseCode::Away, "exit".to_string()));
    let mut p = Vec::new();
    ws_encode(&mut p, Message::Ping(b"x".to_vec()), None).unwrap();
    assert_eq!(decode_one(&p).0, Message::Ping(b"x".to_vec()));
}

#[test]
fn shutdown_goes_out_as_bare_close() {
    let mut out = Vec::new();
    ws_encode(&mut out, Message::Shutdown, None).unwrap();
    assert_eq!(out, vec![0x88, 0x00]);
    assert_eq!(decode_one(&out).0, Message::Close(CloseCode::Normal, String::new()));
}

#[test]
fn long_control_frame_is_refused() {
    let mut out = vec![7u8];
    assert!(matches!(ws_encode(&mut out, Message::Ping(vec![0; 126]), None), Err(NetError::Web(_))));
    assert_eq!(out, vec![7u8]);
    ws_encode(&mut out, Message::Binary(vec![0; 126]), None).unwrap();
    assert_eq!(&out[..5], &[7u8, 0x82, 126, 0, 126][..]);
}

#[test]
fn incomplete_frame_waits() {
    assert!(read_ws_frame(&[]).unwrap().is_none());
    assert!(read_ws_frame(&[0x81]).unwrap().is_none());
    assert!(read_ws_frame(&[0x81, 0x02, b'h']).unwrap().is_none());
}

#[test]
fn unknown_opcode_does_not_panic() {
    let r = read_ws_frame(&[0x83, 0x00]);
    if let Ok(Some((frame, used))) = r {
        assert_eq!(used, 2);
        let _ = frames_to_message(vec![frame]);
    }
}

#[test]
fn payload_mapping() {
    assert_eq!(ws_message(WsPayload::Close(1001, "x".to_string())).unwrap(), Message::Close(CloseCode::Away, "x".to_string()));
    assert_eq!(ws_message(WsPayload::Failed("bad".to_string())), Err(NetError::Web("bad".to_string())));
    assert_eq!(ws_message(WsPayload::Pong(vec![1])).unwrap(), Message::Pong(vec![1]));
}
