use hcnet::error::{NetError, WsError};
use hcnet::handshake::{check_response_status, client_key, first_protocol, handshake_reply, validate_key, HandshakeReply, WsHandshake};

#[test]
fn accept_of_rfc_sample_key() {
    assert_eq!(
        WsHandshake::build_accept("dGhlIHNhbXBsZSBub25jZQ==").unwrap(),
        "s3pPLMBiTxaQ9kYGzzhZRbK+xOo="
    );
}

#[test]
fn accept_rejects_bad_keys() {
    assert!(matches!(WsHandshake::build_accept("not base64!"), Err(NetError::Ws(WsError::ProtocolError(_)))));
    assert!(matches!(WsHandshake::build_accept("YWJj"), Err(NetError::Ws(WsError::ProtocolError(_)))));
}

#[test]
fn key_must_be_sixteen_bytes() {
    assert!(validate_key(Some(vec![0; 16])).is_ok());
    assert!(validate_key(Some(vec![0; 15])).is_err());
    assert!(validate_key(None).is_err());
}

#[test]
fn first_protocol_of_lists() {
    assert_eq!(first_protocol("chat, superchat"), "chat");
    assert_eq!(first_protocol("  ,superchat chat"), "superchat");
    assert_eq!(first_protocol(", ,"), "chat");
    assert_eq!(first_protocol(""), "chat");
}

#[test]
fn reply_accepts_valid_request() {
    let r = handshake_reply(
        Some("dGhlIHNhbXBsZSBub25jZQ==".to_string()),
        Some("superchat, chat".to_string()),
        Some("13".to_string()),
    )
    .unwrap();
    assert_eq!(
        r,
        HandshakeReply::Accept {
            accept: "s3pPLMBiTxaQ9kYGzzhZRbK+xOo=".to_string(),
            protocol: "superchat".to_string()
        }
    );
    let d = handshake_reply(Some("dGhlIHNhbXBsZSBub25jZQ==".to_string()), None, Some("13".to_string())).unwrap();
    assert!(matches!(d, HandshakeReply::Accept { protocol, .. } if protocol == "chat"));
}

#[test]
fn reply_rejects_missing_key_or_version() {
    assert_eq!(handshake_reply(None, None, Some("13".to_string())).unwrap(), HandshakeReply::Reject);
    assert_eq!(
        handshake_reply(Some("dGhlIHNhbXBsZSBub25jZQ==".to_string()), None, Some("12".to_string())).unwrap(),
        HandshakeReply::Reject
    );
    assert_eq!(
        handshake_reply(Some("dGhlIHNhbXBsZSBub25jZQ==".to_string()), None, None).unwrap(),
        HandshakeReply::Reject
    );
}

#[test]
fn reply_fails_on_bad_key() {
    assert!(handshake_reply(Some("abc".to_string()), None, Some("13".to_string())).is_err());
}

#[test]
fn response_status_must_be_101() {
    assert!(check_response_status(101).is_ok());
    assert_eq!(check_response_status(400), Err(NetError::Ws(WsError::FailStatus(400))));
}

#[test]
fn client_key_is_base64_of_nonce() {
    assert_eq!(client_key(b"the sample nonce"), "dGhlIHNhbXBsZSBub25jZQ==");
}
