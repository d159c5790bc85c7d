//! Response decoding: the transport-status gate, zlib decompression of the
//! body, and parsing of the uniform response envelope out of the decompressed
//! text. Every endpoint call decodes through this one path.

use vstd::prelude::*;

verus! {

use crate::Error;

/// The only transport status on which a response body is decoded.
pub const STATUS_OK: u16 = 200;

/// What zlib decompression followed by UTF-8 decoding yields on a body:
/// `None` where the bytes are not a valid zlib stream of valid text.
pub uninterp spec fn inflated_text(body: Seq<u8>) -> Option<Seq<char>>;

/// The unsigned-integer field of the given name in a JSON object text:
/// `None` where the text is not a JSON object holding such a field.
pub uninterp spec fn u64_field_of(text: Seq<char>, name: Seq<char>) -> Option<u64>;

/// The string field of the given name in a JSON object text: `None` where
/// the text is not a JSON object holding a string under that name.
pub uninterp spec fn string_field_of(text: Seq<char>, name: Seq<char>) -> Option<Seq<char>>;

/// The field of the given name in a JSON object text, re-serialized as JSON
/// text: `None` where the text is not a JSON object holding such a field.
pub uninterp spec fn raw_field_of(text: Seq<char>, name: Seq<char>) -> Option<Seq<char>>;

/// Relies on flate2's `ZlibDecoder` driven by `std::io::Read::read_to_string`:
/// inflates the body and decodes the result as UTF-8 text, a function of the
/// bytes alone; fails exactly where the stream or the text is invalid.
#[verifier::external_body]
fn zlib_decompress(body: &Vec<u8>) -> (r: Option<String>)
    ensures
        r is Some <==> inflated_text(body@) is Some,
        r is Some ==> r.unwrap()@ == inflated_text(body@).unwrap(),
{
    let mut decoder = flate2::read::ZlibDecoder::new(&body[..]);
    let mut text = String::new();
    match std::io::Read::read_to_string(&mut decoder, &mut text) {
        Ok(_) => Some(text),
        Err(_) => None,
    }
}

/// Relies on `serde_json::from_str` and `Value::{get, as_u64}`: reads one
/// unsigned-integer field of a JSON object, a function of text and name alone.
#[verifier::external_body]
fn parse_u64_field(text: &str, name: &str) -> (r: Option<u64>)
    ensures
        r == u64_field_of(text@, name@),
{
    let parsed: core::result::Result<serde_json::Value, serde_json::Error> =
        serde_json::from_str(text);
    match parsed {
        Ok(value) => match value.get(name) {
            Some(field) => field.as_u64(),
            None => None,
        },
        Err(_) => None,
    }
}

/// Relies on `serde_json::from_str` and `Value::{get, as_str}`: reads one
/// string field of a JSON object, a function of text and name alone.
#[verifier::external_body]
pub(crate) fn parse_string_field(text: &str, name: &str) -> (r: Option<String>)
    ensures
        r is Some <==> string_field_of(text@, name@) is Some,
        r is Some ==> r.unwrap()@ == string_field_of(text@, name@).unwrap(),
{
    let parsed: core::result::Result<serde_json::Value, serde_json::Error> =
        serde_json::from_str(text);
    match parsed {
        Ok(value) => match value.get(name) {
            Some(field) => match field.as_str() {
                Some(s) => Some(s.to_string()),
                None => None,
            },
            None => None,
        },
        Err(_) => None,
    }
}

/// Relies on `serde_json::from_str`, `Value::get` and `Value`'s `Display`:
/// reads one field of a JSON object and hands it back re-serialized as JSON
/// text, a function of text and name alone.
#[verifier::external_body]
fn parse_raw_field(text: &str, name: &str) -> (r: Option<String>)
    ensures
        r is Some <==> raw_field_of(text@, name@) is Some,
        r is Some ==> r.unwrap()@ == raw_field_of(text@, name@).unwrap(),
{
    let parsed: core::result::Result<serde_json::Value, serde_json::Error> =
        serde_json::from_str(text);
    match parsed {
        Ok(value) => match value.get(name) {
            Some(field) => Some(field.to_string()),
            None => None,
        },
        Err(_) => None,
    }
}

/// The uniform response envelope: the protocol error code, the optional
/// error message, and the optional domain payload kept as raw JSON text.
/// The payload stays opaque here; endpoint callers interpret it.
#[derive(Debug)]
pub struct Envelope {
    pub code: u8,
    pub message: Option<String>,
    pub payload: Option<String>,
}

/// Spec-level shape of a response envelope.
pub ghost struct EnvelopeView {
    pub code: u8,
    pub message: Option<Seq<char>>,
    pub payload: Option<Seq<char>>,
}

impl View for Envelope {
    type V = EnvelopeView;

    open spec fn view(&self) -> EnvelopeView {
        EnvelopeView {
            code: self.code,
            message: match self.message {
                Some(m) => Some(m@),
                None => None,
            },
            payload: match self.payload {
                Some(p) => Some(p@),
                None => None,
            },
        }
    }
}

/// The envelope carried by a decompressed response text: the required `err`
/// code (a small unsigned integer), the optional `errmsg` text, and the
/// optional `data` payload kept as raw JSON text. `None` where the text has
/// no such shape.
pub open spec fn envelope_of(text: Seq<char>) -> Option<EnvelopeView> {
    match u64_field_of(text, "err"@) {
        Some(code) => if code <= 255 {
            Some(EnvelopeView {
                code: code as u8,
                message: string_field_of(text, "errmsg"@),
                payload: raw_field_of(text, "data"@),
            })
        } else {
            None
        },
        None => None,
    }
}

/// Parses a decompressed response text into an envelope; fails with a format
/// error exactly where the text does not carry a small `err` code.
pub fn parse_envelope(text: &str) -> (r: Result<Envelope, Error>)
    ensures
        r matches Ok(env) ==> envelope_of(text@) == Some(env@),
        r is Err ==> envelope_of(text@) is None && r == Err::<Envelope, Error>(Error::Json),
{
    match parse_u64_field(text, "err") {
        Some(code) => if code <= 255 {
            let message = parse_string_field(text, "errmsg");
            let payload = parse_raw_field(text, "data");
            Ok(Envelope { code: code as u8, message, payload })
        } else {
            Err(Error::Json)
        },
        None => Err(Error::Json),
    }
}

/// What decoding yields on a transport status and a raw body: the status
/// gate comes first, then decompression, then envelope parsing.
pub open spec fn decode_spec(status: u16, body: Seq<u8>) -> Result<EnvelopeView, Error> {
    if status != STATUS_OK {
        Err(Error::Status(status))
    } else {
        match inflated_text(body) {
            None => Err(Error::Io),
            Some(text) => match envelope_of(text) {
                None => Err(Error::Json),
                Some(env) => Ok(env),
            },
        }
    }
}

/// Decodes a raw response: rejects a non-success transport status without
/// touching the body, then inflates the body and parses the envelope.
pub fn decode_response(status: u16, body: &Vec<u8>) -> (r: Result<Envelope, Error>)
    ensures
        r matches Ok(env) ==> decode_spec(status, body@) == Ok::<EnvelopeView, Error>(env@),
        r matches Err(e) ==> decode_spec(status, body@) == Err::<EnvelopeView, Error>(e),
{
    if status != STATUS_OK {
        return Err(Error::Status(status));
    }
    match zlib_decompress(body) {
        None => Err(Error::Io),
        Some(text) => parse_envelope(text.as_str()),
    }
}

/// Status law: on a non-success transport status, decoding fails with that
/// status whatever the body holds — even a valid compressed document — so
/// decompression and parsing never touch such a body.
pub proof fn lemma_status_gate(status: u16, body: Seq<u8>)
    requires
        status != STATUS_OK,
    ensures
        decode_spec(status, body) == Err::<EnvelopeView, Error>(Error::Status(status)),
{
}

/// Round-trip law: any body that zlib-decompresses to the text of a
/// well-formed envelope decodes, on a success status, to exactly that
/// envelope — compressing a document and decoding it gives it back.
pub proof fn lemma_decode_round_trip(body: Seq<u8>, text: Seq<char>, env: EnvelopeView)
    requires
        inflated_text(body) == Some(text),
        envelope_of(text) == Some(env),
    ensures
        decode_spec(STATUS_OK, body) == Ok::<EnvelopeView, Error>(env),
{
}

} // verus!
