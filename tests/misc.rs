use hcnet::builder::Builder;
use hcnet::error::{Command, NetError};
use hcnet::id_center::{admits, ConnectionIds, IdCenter, MAX_SERVER_ID};
use hcnet::message::{CloseCode, Message};
use hcnet::online_count::{acquire_step, release_step, OnlineCount};
use hcnet::sender::NetSender;
use hcnet::settings::Settings;
use hcnet::transport::NetType;
use hcnet::ws_state::WsState;

#[test]
fn default_settings() {
    let s = Settings::default();
    assert_eq!(s.max_connections, 1024);
    assert_eq!(s.queue_size, 10);
    assert_eq!(s.in_buffer_max, 10 * 1024 * 1024);
    assert_eq!(s.out_buffer_max, 10 * 1024 * 1024);
    assert_eq!(s.onemsg_max_size, 65535);
    assert_eq!(s.closing_time, 1000);
    assert_eq!(s.connect_timeout, 30000);
    assert_eq!(s.shake_timeout, 30000);
    assert_eq!(s.read_timeout, 60000);
    assert!(!s.is_raw);
    assert!(s.domain.is_none() && s.cert.is_none() && s.key.is_none());
}

#[test]
fn builder_sets_each_field() {
    let s = Builder::new()
        .max_connections(2)
        .queue_size(3)
        .in_buffer_max(4)
        .out_buffer_max(5)
        .onemsg_max_size(6)
        .closing_time(7)
        .connect_timeout(8)
        .shake_timeout(9)
        .read_timeout(10)
        .domain("example.com".to_string())
        .tls("cert.pem".to_string(), "key.pem".to_string())
        .settings();
    assert_eq!(
        (s.max_connections, s.queue_size, s.in_buffer_max, s.out_buffer_max, s.onemsg_max_size),
        (2, 3, 4, 5, 6)
    );
    assert_eq!((s.closing_time, s.connect_timeout, s.shake_timeout, s.read_timeout), (7, 8, 9, 10));
    assert_eq!(s.domain.as_deref(), Some("example.com"));
    assert_eq!(s.cert.as_deref(), Some("cert.pem"));
    assert_eq!(s.key.as_deref(), Some("key.pem"));
}

#[test]
fn server_ids_count_up_and_wrap() {
    let mut c = IdCenter::new();
    assert_eq!(c.next_server_id(), 1);
    assert_eq!(c.next_server_id(), 2);
    for _ in 0..10 {
        let id = c.next_server_id();
        assert!(id >= 1 && id <= MAX_SERVER_ID);
    }
}

#[test]
fn connection_ids_combine_server_and_counter() {
    let mut ids = ConnectionIds::new(3);
    assert_eq!(ids.mint(), (3u64 << 32) | 1);
    assert_eq!(ids.mint(), (3u64 << 32) | 2);
    assert_eq!(ids.server_id(), 3);
}

#[test]
fn admission_control() {
    assert!(admits(1, 2));
    assert!(!admits(2, 2));
    assert!(!admits(3, 2));
}

#[test]
fn online_count_returns_after_children_end() {
    let root = OnlineCount::new();
    assert_eq!(root.now(), 0);
    let a = root.add();
    let b = root.add();
    assert_eq!(root.now(), 2);
    assert!(!admits(root.now(), 2));
    drop(a);
    assert_eq!(root.now(), 1);
    assert!(admits(root.now(), 2));
    drop(b);
    assert_eq!(root.now(), 0);
    let none = OnlineCount::default();
    assert_eq!(none.now(), 0);
}

#[test]
fn count_steps() {
    assert_eq!(acquire_step(0), 1);
    assert_eq!(acquire_step(usize::MAX), 0);
    assert_eq!(release_step(5), 4);
    assert_eq!(release_step(0), 0);
    assert_eq!(release_step(acquire_step(41)), 41);
}

#[test]
fn sender_reports_full_and_closed() {
    let (mut s, rx) = NetSender::new(1, 77);
    assert_eq!(s.get_connection_id(), 77);
    assert_eq!(s.max_capacity(), 1);
    assert!(s.send_message(Message::Text("a".to_string())).is_ok());
    assert_eq!(
        s.send_message(Message::Text("b".to_string())),
        Err(NetError::SendFull(Command { msg: Message::Text("b".to_string()) }))
    );
    assert!(!s.is_closed());
    drop(rx);
    assert!(s.is_closed());
    assert_eq!(
        s.close_with_reason(CloseCode::Away, "x".to_string()),
        Err(NetError::SendClosed(Command { msg: Message::Close(CloseCode::Away, "x".to_string()) }))
    );
}

#[test]
fn sender_queue_delivers_in_order() {
    let (mut s, mut rx) = NetSender::new(4, 1);
    let mut other = s.clone_handle();
    s.send_message(Message::Binary(vec![1])).unwrap();
    other.close_with_reason(CloseCode::Normal, String::new()).unwrap();
    assert_eq!(rx.try_recv().unwrap().msg, Message::Binary(vec![1]));
    assert_eq!(rx.try_recv().unwrap().msg, Message::Close(CloseCode::Normal, String::new()));
}

#[test]
fn ws_state_transitions() {
    let mut st = WsState::Wait;
    assert!(!st.is_ready());
    assert!(st.handshake_sent());
    assert_eq!(st, WsState::WaitRet);
    assert!(st.handler_response().is_ok());
    assert!(st.is_ready());
    assert!(st.handler_response().is_err());
    assert!(st.close(CloseCode::Normal, "bye".to_string()));
    assert_eq!(st, WsState::Closing(CloseCode::Normal, "bye".to_string()));
    assert!(!st.close(CloseCode::Away, "again".to_string()));
    st.closing_to_closed();
    assert_eq!(st, WsState::Closed(CloseCode::Normal, "bye".to_string()));
    let mut early = WsState::Wait;
    assert!(!early.close(CloseCode::Normal, "handshake failed!".to_string()));
    assert!(matches!(early, WsState::Closing(..)));
}

#[test]
fn only_tcp_from_an_address() {
    assert!(NetType::Tcp.is_supported());
    assert!(!NetType::Websocket.is_supported());
    assert!(!NetType::Quic.is_supported());
}

#[test]
fn max_connections_rejects_third_until_one_closes() {
    let settings = Builder::new().max_connections(2).settings();
    let root = OnlineCount::new();
    let first = root.add();
    let second = root.add();
    assert!(!admits(root.now(), settings.max_connections));
    drop(first);
    assert!(admits(root.now(), settings.max_connections));
    let third = root.add();
    assert_eq!(root.now(), 2);
    drop(second);
    drop(third);
    assert_eq!(root.now(), 0);
}

#[test]
fn sender_capacity_is_clamped() {
    let (s, _rx) = NetSender::new(usize::MAX, 5);
    assert_eq!(s.max_capacity(), usize::MAX >> 3);
    assert_eq!(s.clone_handle().max_capacity(), usize::MAX >> 3);
    let (t, _rx2) = NetSender::new(10, 5);
    assert_eq!(t.max_capacity(), 10);
}

#[test]
fn child_handle_shares_the_count() {
    let root = OnlineCount::new();
    let child = root.add();
    assert_eq!(child.now(), 1);
    let grandchild = child.add();
    assert_eq!(root.now(), 2);
    drop(grandchild);
    drop(child);
    assert_eq!(root.now(), 0);
}
