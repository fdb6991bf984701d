use hcnet::engine::{Engine, Step, TcpState};
use hcnet::error::NetError;
use hcnet::message::{CloseCode, Message};
use hcnet::settings::Settings;

fn open_engine(settings: Settings) -> Engine {
    let mut e = Engine::new(settings, 0);
    assert!(e.open());
    e
}

/// Moves every pending byte of `from` to `to`, as a transport would.
fn pump(from: &mut Engine, to: &mut Engine, now: u64) {
    let bytes = from.pending_output().to_vec();
    let n = bytes.len();
    from.written(n);
    to.received(&bytes, now).unwrap();
}

#[test]
fn on_open_fires_once() {
    let mut e = Engine::new(Settings::default(), 0);
    assert!(e.open());
    assert!(!e.open());
}

#[test]
fn nothing_is_delivered_before_open() {
    let mut e = Engine::new(Settings::default(), 0);
    e.received(&[0, 0, 5, 2, 7], 1).unwrap();
    assert_eq!(e.next_step().unwrap(), Step::Idle);
    assert!(e.open());
    assert_eq!(e.next_step().unwrap(), Step::Deliver(Message::Binary(vec![7])));
}

#[test]
fn tcp_echo() {
    let mut client = open_engine(Settings::default());
    let mut server = open_engine(Settings::default());
    client.command(Message::Text("hi".to_string()), 1).unwrap();
    pump(&mut client, &mut server, 1);
    let got = match server.next_step().unwrap() {
        Step::Deliver(m) => m,
        other => panic!("unexpected {:?}", other),
    };
    assert_eq!(got, Message::Text("hi".to_string()));
    server.command(got, 2).unwrap();
    pump(&mut server, &mut client, 2);
    assert_eq!(client.next_step().unwrap(), Step::Deliver(Message::Text("hi".to_string())));
    client.command(Message::Close(CloseCode::Away, "exit".to_string()), 3).unwrap();
    assert!(matches!(client.state(), TcpState::Closing(CloseCode::Away, _)));
    pump(&mut client, &mut server, 3);
    assert_eq!(server.next_step().unwrap(), Step::Close(CloseCode::Away, "exit".to_string()));
    assert!(server.is_finished());
    assert_eq!(server.next_step().unwrap(), Step::Stop);
}

#[test]
fn tcp_ping_pong() {
    let mut client = open_engine(Settings::default());
    let mut server = open_engine(Settings::default());
    client.command(Message::Ping(b"x".to_vec()), 1).unwrap();
    pump(&mut client, &mut server, 1);
    assert_eq!(server.next_step().unwrap(), Step::Ping(b"x".to_vec()));
    server.ping_reply(Some(b"x".to_vec())).unwrap();
    pump(&mut server, &mut client, 2);
    assert_eq!(client.next_step().unwrap(), Step::Pong(b"x".to_vec()));
}

#[test]
fn no_pong_when_handler_declines() {
    let mut e = open_engine(Settings::default());
    e.ping_reply(None).unwrap();
    assert!(e.pending_output().is_empty());
}

#[test]
fn over_size_frame_ends_with_error_close() {
    let mut s = Settings::default();
    s.onemsg_max_size = 16;
    let mut server = open_engine(s);
    server.received(&[0, 0, 17, 2], 1).unwrap();
    assert_eq!(server.next_step(), Err(NetError::OverMsgSize));
    assert!(server.fail());
    assert!(!server.fail());
    assert_eq!(server.next_step().unwrap(), Step::Stop);
}

#[test]
fn close_round_trip_between_peers() {
    let mut a = open_engine(Settings::default());
    let mut b = open_engine(Settings::default());
    a.close(CloseCode::Other(4001), "bye ünïcode".to_string(), 5).unwrap();
    pump(&mut a, &mut b, 5);
    assert_eq!(b.next_step().unwrap(), Step::Close(CloseCode::Other(4001), "bye ünïcode".to_string()));
}

#[test]
fn read_timeout_under_silence() {
    let mut s = Settings::default();
    s.read_timeout = 100;
    let mut e = Engine::new(s, 1000);
    assert_eq!(e.check_timeout(1099), Ok(false));
    assert_eq!(e.check_timeout(1100), Err(NetError::ReadTimeout));
    e.received(&[1], 1100).unwrap();
    assert_eq!(e.check_timeout(1150), Ok(false));
}

#[test]
fn read_buffer_bound_is_fatal() {
    let mut s = Settings::default();
    s.in_buffer_max = 4;
    let mut e = open_engine(s);
    e.received(&[0, 0, 99], 1).unwrap();
    e.received(&[2, 0, 0], 1).unwrap();
    assert_eq!(e.received(&[0], 1), Err(NetError::OverInbufferSize));
}

#[test]
fn command_gate_follows_write_buffer() {
    let mut s = Settings::default();
    s.out_buffer_max = 8;
    let mut e = open_engine(s);
    assert!(e.accepts_command());
    e.command(Message::Binary(vec![1, 2, 3]), 1).unwrap();
    assert!(e.accepts_command());
    e.command(Message::Binary(vec![1]), 1).unwrap();
    assert!(!e.accepts_command());
    e.written(12);
    assert!(e.accepts_command());
}

#[test]
fn closing_drops_data_but_not_close() {
    let mut e = open_engine(Settings::default());
    e.command(Message::Shutdown, 1).unwrap();
    assert!(matches!(e.state(), TcpState::Closing(CloseCode::Away, r) if r == "Shutdown"));
    let before = e.pending_output().to_vec();
    e.command(Message::Text("late".to_string()), 2).unwrap();
    e.command(Message::Ping(vec![1]), 2).unwrap();
    e.ping_reply(Some(vec![2])).unwrap();
    assert_eq!(e.pending_output(), &before[..]);
    e.command(Message::Close(CloseCode::Normal, String::new()), 3).unwrap();
    assert_eq!(e.pending_output().len(), before.len() + 6);
}

#[test]
fn graceful_close_drains_pending_bytes() {
    let mut e = open_engine(Settings::default());
    e.command(Message::Binary(vec![7u8; 1020]), 1).unwrap();
    e.close(CloseCode::Normal, "done".to_string(), 2).unwrap();
    let total = e.pending_output().len();
    assert_eq!(total, 1024 + 10);
    assert!(!e.written(1000));
    assert_eq!(e.check_timeout(500), Ok(false));
    assert!(e.written(total - 1000));
    assert_eq!(*e.state(), TcpState::Closed);
    assert_eq!(e.next_step().unwrap(), Step::Stop);
}

#[test]
fn closing_is_forced_after_closing_time() {
    let mut s = Settings::default();
    s.closing_time = 1000;
    let mut e = Engine::new(s, 0);
    e.command(Message::Binary(vec![0u8; 1024]), 0).unwrap();
    e.close(CloseCode::Normal, String::new(), 10).unwrap();
    assert_eq!(e.check_timeout(1009), Ok(false));
    assert_eq!(e.check_timeout(1010), Ok(true));
    assert_eq!(*e.state(), TcpState::Closed);
}

#[test]
fn peer_eof_stops_without_close() {
    let mut e = open_engine(Settings::default());
    e.peer_closed();
    assert!(e.is_finished());
    assert!(!e.fail());
    assert_eq!(e.next_step().unwrap(), Step::Stop);
}

#[test]
fn writes_do_not_delay_read_timeout() {
    let mut s = Settings::default();
    s.read_timeout = 10;
    let mut e = Engine::new(s, 0);
    assert!(e.open());
    e.received(&[0], 100).unwrap();
    e.command(Message::Binary(vec![1]), 104).unwrap();
    let n = e.pending_output().len();
    e.written(n);
    assert_eq!(e.check_timeout(109), Ok(false));
    assert_eq!(e.check_timeout(111), Err(NetError::ReadTimeout));
}

#[test]
fn closed_engine_stays_closed() {
    let mut e = open_engine(Settings::default());
    e.close(CloseCode::Normal, String::new(), 1).unwrap();
    let n = e.pending_output().len();
    assert!(e.written(n));
    assert_eq!(e.next_step().unwrap(), Step::Stop);
    assert_eq!(*e.state(), TcpState::Closed);
}
