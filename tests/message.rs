use hcnet::message::{CloseCode, Message, OpCode};

#[test]
fn close_codes_map_to_wire_values() {
    assert_eq!(CloseCode::Normal.to_u16(), 1000);
    assert_eq!(CloseCode::Away.to_u16(), 1001);
    assert_eq!(CloseCode::Error.to_u16(), 1011);
    assert_eq!(CloseCode::Tls.to_u16(), 1015);
    assert_eq!(CloseCode::Empty.to_u16(), 0);
    assert_eq!(CloseCode::Other(4321).to_u16(), 4321);
    assert_eq!(CloseCode::from_u16(1001), CloseCode::Away);
    assert_eq!(CloseCode::from_u16(1004), CloseCode::Other(1004));
    for v in [0u16, 999, 1000, 1004, 1011, 1015, 3000, 65535] {
        assert_eq!(CloseCode::from_u16(v).to_u16(), v);
    }
}

#[test]
fn opcodes_and_control_frames() {
    assert!(!OpCode::Text.is_control());
    assert!(!OpCode::Binary.is_control());
    assert!(OpCode::Close.is_control());
    assert!(OpCode::Ping.is_control());
    assert!(OpCode::Pong.is_control());
    assert!(OpCode::Bad.is_control());
    assert_eq!(OpCode::from_u8(1), OpCode::Text);
    assert_eq!(OpCode::from_u8(10), OpCode::Pong);
    assert_eq!(OpCode::from_u8(11), OpCode::Bad);
    assert_eq!(OpCode::Pong.to_u8(), 10);
    assert_eq!(OpCode::Shutdown.name(), "SHUTDOWN");
}

#[test]
fn message_opcodes_and_types() {
    assert_eq!(Message::Text("a".to_string()).op_code(), OpCode::Text);
    assert_eq!(Message::Close(CloseCode::Normal, String::new()).op_code(), OpCode::Close);
    assert_eq!(Message::Shutdown.op_code(), OpCode::Shutdown);
    assert_eq!(Message::Binary(vec![]).get_type(), 2);
    assert_eq!(Message::Ping(vec![]).get_type(), 9);
    assert_eq!(Message::Pong(vec![]).get_type(), 10);
    assert_eq!(Message::Close(CloseCode::Normal, String::new()).get_type(), 8);
}
