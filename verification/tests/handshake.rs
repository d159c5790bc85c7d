use std::io::Write;

use tarkov::auth::{Handshake, HandshakeAction};
use tarkov::{Error, LoginError, Tarkov};

fn compress(text: &str) -> Vec<u8> {
    let mut encoder =
        flate2::write::ZlibEncoder::new(Vec::new(), flate2::Compression::default());
    encoder.write_all(text.as_bytes()).unwrap();
    encoder.finish().unwrap()
}

#[test]
fn login_handshake_resolves_session() {
    let h = Handshake::with_credentials("user@example.com", "hunter2", "abc123");
    match h.pending_action() {
        Some(HandshakeAction::Login { email, password, hwid }) => {
            assert_eq!(email, "user@example.com");
            assert_eq!(password, "hunter2");
            assert_eq!(hwid, "abc123");
        }
        other => panic!("expected a login action, got {:?}", other.is_some()),
    }

    let login_body = compress(r#"{"err":0,"data":{"access_token":"tok-9"}}"#);
    let h = h.advance(200, &login_body).unwrap();
    match h.pending_action() {
        Some(HandshakeAction::Exchange { access_token, hwid }) => {
            assert_eq!(access_token, "tok-9");
            assert_eq!(hwid, "abc123");
        }
        other => panic!("expected an exchange action, got {:?}", other.is_some()),
    }

    let exchange_body = compress(r#"{"err":0,"data":{"session":"SESS-42"}}"#);
    let h = h.advance(200, &exchange_body).unwrap();
    assert!(h.pending_action().is_none());
    let client = h.into_client();
    assert_eq!(client.session, "SESS-42");
    assert_eq!(client.hwid, "abc123");
}

#[test]
fn access_token_entry_needs_one_exchange_call() {
    let h = Handshake::with_access_token("tok-1", "abc123");
    match h.pending_action() {
        Some(HandshakeAction::Exchange { access_token, hwid }) => {
            assert_eq!(access_token, "tok-1");
            assert_eq!(hwid, "abc123");
        }
        other => panic!("expected an exchange action, got {:?}", other.is_some()),
    }

    let exchange_body = compress(r#"{"err":0,"data":{"session":"SESSIONID9"}}"#);
    let h = h.advance(200, &exchange_body).unwrap();
    assert!(h.pending_action().is_none());
    assert_eq!(h.into_client().session, "SESSIONID9");
}

#[test]
fn session_entry_wraps_identifier_verbatim() {
    let client = Tarkov::from_session("SESSIONID1", "abc123");
    assert_eq!(client.session, "SESSIONID1");
    assert_eq!(client.hwid, "abc123");
}

#[test]
fn rejected_login_surfaces_login_error() {
    let h = Handshake::with_credentials("user@example.com", "wrong", "abc123");
    let body = compress(r#"{"err":201,"errmsg":"denied"}"#);
    match h.advance(200, &body) {
        Err(Error::LoginError(LoginError::NotAuthorized)) => {}
        other => panic!("expected the login error, got {:?}", other.is_err()),
    }
}

#[test]
fn unknown_login_code_surfaces_login_error() {
    let h = Handshake::with_credentials("user@example.com", "pw", "abc123");
    let body = compress(r#"{"err":206,"errmsg":"locked"}"#);
    match h.advance(200, &body) {
        Err(Error::LoginError(LoginError::UnknownCode(206))) => {}
        other => panic!("expected the login error, got {:?}", other.is_err()),
    }
}

#[test]
fn expired_access_token_is_not_authorized() {
    let h = Handshake::with_access_token("tok-stale", "abc123");
    let body = compress(r#"{"err":201}"#);
    match h.advance(200, &body) {
        Err(Error::NotAuthorized) => {}
        other => panic!("expected the authorization error, got {:?}", other.is_err()),
    }
}

#[test]
fn login_payload_without_token_is_format_error() {
    let h = Handshake::with_credentials("user@example.com", "pw", "abc123");
    let body = compress(r#"{"err":0,"data":{"kind":"none"}}"#);
    match h.advance(200, &body) {
        Err(Error::Json) => {}
        other => panic!("expected the format error, got {:?}", other.is_err()),
    }
}

#[test]
fn exchange_payload_without_session_is_format_error() {
    let h = Handshake::with_access_token("tok-1", "abc123");
    let body = compress(r#"{"err":0,"data":{}}"#);
    match h.advance(200, &body) {
        Err(Error::Json) => {}
        other => panic!("expected the format error, got {:?}", other.is_err()),
    }
}

#[test]
fn transport_status_fails_handshake_stage() {
    let h = Handshake::with_access_token("tok-1", "abc123");
    let body = compress(r#"{"err":0,"data":{"session":"S"}}"#);
    match h.advance(502, &body) {
        Err(Error::Status(502)) => {}
        other => panic!("expected the status error, got {:?}", other.is_err()),
    }
}
