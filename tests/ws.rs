use hcnet::engine::Step;
use hcnet::error::NetError;
use hcnet::message::{CloseCode, Message};
use hcnet::settings::Settings;
use hcnet::ws_engine::WsEngine;
use hcnet::ws_state::WsState;

fn open_server() -> WsEngine {
    let mut e = WsEngine::new(Settings::default(), 0);
    assert!(e.handshake_sent(1));
    assert_eq!(e.server_answer(101, 2), Ok(None));
    assert!(e.ready_check());
    e
}

#[test]
fn websocket_open_then_echo() {
    let mut e = WsEngine::new(Settings::default(), 0);
    assert!(!e.ready_check());
    assert!(!e.accepts_command(0));
    assert!(e.handshake_sent(1));
    assert!(!e.ready_check());
    assert_eq!(e.client_answer(101, 2), Ok(()));
    assert!(e.ready_check());
    assert!(!e.ready_check());
    assert_eq!(e.inbound(Message::Text("hi".to_string())), Step::Deliver(Message::Text("hi".to_string())));
    assert_eq!(e.command(Message::Text("hi".to_string()), 3), Some(Message::Text("hi".to_string())));
}

#[test]
fn websocket_rejected_upgrade_closes() {
    let mut s = WsEngine::new(Settings::default(), 0);
    s.handshake_sent(1);
    let r = s.server_answer(400, 2).unwrap();
    assert_eq!(r, Some(Message::Close(CloseCode::Normal, "handshake failed!".to_string())));
    assert!(matches!(s.state(), WsState::Closing(CloseCode::Normal, _)));
    let mut c = WsEngine::new(Settings::default(), 0);
    c.handshake_sent(1);
    assert_eq!(c.client_answer(400, 2), Ok(()));
    assert!(matches!(c.state(), WsState::Closing(..)));
    assert!(!c.ready_check());
}

#[test]
fn websocket_answer_out_of_turn_is_error() {
    let mut e = WsEngine::new(Settings::default(), 0);
    assert_eq!(e.server_answer(101, 1), Err(NetError::Ws(hcnet::error::WsError::BadStatus)));
}

#[test]
fn websocket_ping_and_close() {
    let mut e = open_server();
    assert_eq!(e.inbound(Message::Ping(vec![1])), Step::Ping(vec![1]));
    assert_eq!(e.ping_reply(Some(vec![1])), Some(Message::Pong(vec![1])));
    assert_eq!(e.command(Message::Shutdown, 5), Some(Message::Close(CloseCode::Away, "Shutdown".to_string())));
    assert_eq!(*e.state(), WsState::Closing(CloseCode::Away, "Shutdown".to_string()));
    assert_eq!(e.command(Message::Binary(vec![2]), 6), None);
    assert_eq!(e.ping_reply(Some(vec![3])), None);
    assert_eq!(e.command(Message::Close(CloseCode::Away, String::new()), 6), None);
    e.closing_done();
    assert!(matches!(e.state(), WsState::Closed(CloseCode::Away, _)));
}

#[test]
fn websocket_remote_close_is_last() {
    let mut e = open_server();
    assert_eq!(
        e.inbound(Message::Close(CloseCode::Away, "exit".to_string())),
        Step::Close(CloseCode::Away, "exit".to_string())
    );
    assert_eq!(e.inbound(Message::Text("late".to_string())), Step::Stop);
    assert!(!e.fail());
}

#[test]
fn websocket_deadlines() {
    let mut s = Settings::default();
    s.shake_timeout = 50;
    s.read_timeout = 100;
    s.closing_time = 10;
    let mut e = WsEngine::new(s, 0);
    assert_eq!(e.check_timeout(49), Ok(false));
    assert_eq!(e.check_timeout(50), Err(NetError::Timeout));
    e.handshake_sent(60);
    e.server_answer(101, 60).unwrap();
    e.read_progress(60);
    assert_eq!(e.check_timeout(159), Ok(false));
    assert_eq!(e.check_timeout(160), Err(NetError::ReadTimeout));
    e.close(CloseCode::Normal, String::new(), 200);
    assert_eq!(e.check_timeout(205), Ok(false));
    assert_eq!(e.check_timeout(210), Ok(true));
    assert!(matches!(e.state(), WsState::Closed(..)));
}

#[test]
fn websocket_read_buffer_bound() {
    let mut s = Settings::default();
    s.in_buffer_max = 10;
    let e = WsEngine::new(s, 0);
    assert!(e.check_in_buffer(9).is_ok());
    assert_eq!(e.check_in_buffer(10), Err(NetError::OverInbufferSize));
}

#[test]
fn websocket_close_during_handshake_has_no_frame() {
    let mut e = WsEngine::new(Settings::default(), 0);
    assert_eq!(e.command(Message::Close(CloseCode::Away, "bye".to_string()), 3), None);
    assert_eq!(*e.state(), WsState::Closing(CloseCode::Away, "bye".to_string()));
}
