use std::io::Write;

use tarkov::codec::decode_response;
use tarkov::profile::{ProfileError, SelectError};
use tarkov::taxonomy::{resolve_code, ProtocolError};
use tarkov::{Error, Tarkov};

fn compress(text: &str) -> Vec<u8> {
    let mut encoder =
        flate2::write::ZlibEncoder::new(Vec::new(), flate2::Compression::default());
    encoder.write_all(text.as_bytes()).unwrap();
    encoder.finish().unwrap()
}

#[test]
fn it_works() {
    assert_eq!(2 + 2, 4);
}

#[test]
fn success_envelope_payload_identity() {
    let body = compress(r#"{"err":0,"data":{"session":"xyz"}}"#);
    let t = Tarkov::from_session("s", "h");
    let r = t.response_payload(200, &body, false);
    assert_eq!(r, Ok(r#"{"session":"xyz"}"#.to_string()));
}

#[test]
fn unknown_code_is_reported_raw() {
    let body = compress(r#"{"err":42,"errmsg":"strange"}"#);
    let t = Tarkov::from_session("s", "h");
    assert_eq!(t.response_payload(200, &body, false), Err(Error::UnknownAPIError(42)));
    assert_eq!(t.response_payload(200, &body, true), Err(Error::UnknownAPIError(42)));
}

#[test]
fn not_authorized_with_and_without_payload() {
    let with_payload = compress(r#"{"err":201,"data":{"k":1}}"#);
    let without_payload = compress(r#"{"err":201}"#);
    let t = Tarkov::from_session("s", "h");
    assert_eq!(t.response_payload(200, &with_payload, false), Err(Error::NotAuthorized));
    assert_eq!(t.response_payload(200, &without_payload, true), Err(Error::NotAuthorized));
}

#[test]
fn zlib_round_trip_decodes_envelope() {
    let body = compress(r#"{"err":0,"errmsg":"fine","data":[1,2,3]}"#);
    let env = decode_response(200, &body).unwrap();
    assert_eq!(env.code, 0);
    assert_eq!(env.message, Some("fine".to_string()));
    assert_eq!(env.payload, Some("[1,2,3]".to_string()));
}

#[test]
fn status_gate_short_circuits_valid_body() {
    let body = compress(r#"{"err":0,"data":{"k":1}}"#);
    match decode_response(403, &body) {
        Err(Error::Status(403)) => {}
        other => panic!("expected the status error, got {:?}", other),
    }
    let t = Tarkov::from_session("s", "h");
    assert_eq!(t.response_payload(500, &body, false), Err(Error::Status(500)));
}

#[test]
fn malformed_body_is_format_error() {
    let body = compress("this is not json");
    match decode_response(200, &body) {
        Err(Error::Json) => {}
        other => panic!("expected the format error, got {:?}", other),
    }
    let t = Tarkov::from_session("s", "h");
    assert_eq!(t.response_payload(200, &body, false), Err(Error::Json));
}

#[test]
fn invalid_zlib_stream_is_io_error() {
    let body = vec![1u8, 2, 3, 4];
    let t = Tarkov::from_session("s", "h");
    assert_eq!(t.response_payload(200, &body, false), Err(Error::Io));
}

#[test]
fn success_without_payload_is_format_error() {
    let body = compress(r#"{"err":0,"errmsg":"no data"}"#);
    let t = Tarkov::from_session("s", "h");
    assert_eq!(t.response_payload(200, &body, false), Err(Error::Json));
}

#[test]
fn oversized_code_is_format_error() {
    let body = compress(r#"{"err":9999}"#);
    let t = Tarkov::from_session("s", "h");
    assert_eq!(t.response_payload(200, &body, false), Err(Error::Json));
}

#[test]
fn resolve_code_covers_the_taxonomy() {
    assert_eq!(resolve_code(0, false), ProtocolError::Success);
    assert_eq!(resolve_code(0, true), ProtocolError::Success);
    assert_eq!(resolve_code(201, false), ProtocolError::NotAuthorized);
    assert_eq!(resolve_code(201, true), ProtocolError::NotAuthorized);
    assert_eq!(resolve_code(205, true), ProtocolError::InvalidUserSelection);
    assert_eq!(resolve_code(205, false), ProtocolError::UnknownCode(205));
    assert_eq!(resolve_code(7, true), ProtocolError::UnknownCode(7));
}

#[test]
fn handle_error_passes_payload_through() {
    let t = Tarkov::from_session("s", "h");
    assert_eq!(t.handle_error(0, false, 7u32), Ok(7u32));
    assert_eq!(t.handle_error(201, false, 7u32), Err(Error::NotAuthorized));
    assert_eq!(
        t.handle_error(205, true, 7u32),
        Err(Error::SelectError(SelectError::InvalidUserID))
    );
    assert_eq!(t.handle_error(205, false, 7u32), Err(Error::UnknownAPIError(205)));
    assert_eq!(t.handle_error(99, true, 7u32), Err(Error::UnknownAPIError(99)));
}

#[test]
fn profiles_error_kinds_exist() {
    assert_eq!(ProfileError::NotAuthorized, ProfileError::NotAuthorized);
    assert_ne!(
        Error::ProfileError(ProfileError::NotAuthorized),
        Error::NotAuthorized
    );
}
