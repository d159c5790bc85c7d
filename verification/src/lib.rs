//! Client core for a remote game service API: authentication handshake,
//! identity headers, compressed-envelope decoding, and the shared numeric
//! error-code taxonomy that every endpoint call resolves its result through.

use vstd::prelude::*;

verus! {

/// Login-stage error subset: failures reported by the credential-exchange
/// endpoint, kept distinct from the generic taxonomy so callers can tell a
/// failed login from a failed authenticated call.
#[derive(Debug, Clone, Copy, PartialEq, Eq, Structural)]
pub enum LoginError {
    /// The login endpoint rejected the credentials (protocol code 201).
    NotAuthorized,
    /// The login endpoint reported a protocol code this client does not know.
    UnknownCode(u8),
}

/// Common error enum returned by most functions.
#[derive(Debug, Clone, Copy, PartialEq, Eq, Structural)]
pub enum Error {
    /// Decompression of a response body failed, or its bytes were not text.
    Io,
    /// The transport failed while sending the request.
    SendRequestError,
    /// The transport failed while reading the response body.
    PayloadError,
    /// The decompressed body was not a well-formed response envelope.
    Json,
    /// Generic non-success transport status from the API.
    Status(u16),
    /// Unidentified protocol error code within the API.
    UnknownAPIError(u8),
    /// Not authorized to API or profile is not selected.
    NotAuthorized,
    /// Login-stage error.
    LoginError(LoginError),
    /// Profile API error.
    ProfileError(crate::profile::ProfileError),
    /// Profile-selection API error.
    SelectError(crate::profile::SelectError),
}

/// `Result` alias type.
pub type Result<T> = core::result::Result<T, Error>;

/// Client handle for the API: the session identifier and the device
/// fingerprint (hardware id), immutable once constructed.
#[derive(Debug)]
pub struct Tarkov {
    pub hwid: String,
    pub session: String,
}

/// How a decoded envelope resolves for a call: the raw payload on a success
/// code, the taxonomy error otherwise. A success envelope without a payload
/// breaks the wire invariant and is reported as a format error, not defaulted.
pub open spec fn resolve_envelope_spec(
    env: codec::EnvelopeView,
    selection_aware: bool,
) -> Result<Seq<char>> {
    if env.code == taxonomy::CODE_SUCCESS {
        match env.payload {
            Some(p) => Ok(p),
            None => Err(Error::Json),
        }
    } else {
        Err(taxonomy::taxonomy_error(env.code, selection_aware))
    }
}

/// What the full authenticated-response pipeline yields on a transport status
/// and raw body: decode (status gate, decompression, envelope parse), then
/// resolve the protocol code.
pub open spec fn response_payload_spec(
    status: u16,
    body: Seq<u8>,
    selection_aware: bool,
) -> Result<Seq<char>> {
    match codec::decode_spec(status, body) {
        Err(e) => Err(e),
        Ok(env) => resolve_envelope_spec(env, selection_aware),
    }
}

impl Tarkov {
    /// Login with a cookie session (AKA `PHPSESSID`). Trusts the caller:
    /// wraps the given session identifier verbatim, no transport involved.
    pub fn from_session(session: &str, hwid: &str) -> (t: Tarkov)
        ensures
            t.session@ == session@,
            t.hwid@ == hwid@,
    {
        Tarkov { hwid: hwid.to_string(), session: session.to_string() }
    }

    /// Resolves a protocol error code by the shared taxonomy: hands `ret`
    /// through on the success code and maps every other code to its error.
    pub fn handle_error<T>(&self, code: u8, selection_aware: bool, ret: T) -> (r: Result<T>)
        ensures
            code == taxonomy::CODE_SUCCESS ==> r == Ok::<T, Error>(ret),
            code != taxonomy::CODE_SUCCESS ==> r == Err::<T, Error>(
                taxonomy::taxonomy_error(code, selection_aware),
            ),
    {
        match taxonomy::resolve_code(code, selection_aware) {
            taxonomy::ProtocolError::Success => Ok(ret),
            taxonomy::ProtocolError::NotAuthorized => Err(Error::NotAuthorized),
            taxonomy::ProtocolError::InvalidUserSelection => Err(
                Error::SelectError(profile::SelectError::InvalidUserID),
            ),
            taxonomy::ProtocolError::UnknownCode(c) => Err(Error::UnknownAPIError(c)),
        }
    }

    /// The decode-and-resolve half of an authenticated call: gates on the
    /// transport status, inflates and parses the body, resolves the protocol
    /// code, and yields the raw JSON payload on success. Every endpoint call
    /// reaches the remote service through this one pipeline.
    pub fn response_payload(
        &self,
        status: u16,
        body: &Vec<u8>,
        selection_aware: bool,
    ) -> (r: Result<String>)
        ensures
            r matches Ok(p) ==> response_payload_spec(status, body@, selection_aware)
                == Ok::<Seq<char>, Error>(p@),
            r matches Err(e) ==> response_payload_spec(status, body@, selection_aware)
                == Err::<Seq<char>, Error>(e),
    {
        let env = match codec::decode_response(status, body) {
            Ok(env) => env,
            Err(e) => {
                return Err(e);
            },
        };
        if env.code == taxonomy::CODE_SUCCESS {
            match env.payload {
                Some(p) => Ok(p),
                None => Err(Error::Json),
            }
        } else {
            match self.handle_error(env.code, selection_aware, ()) {
                Ok(_) => Err(Error::Json),
                Err(e) => Err(e),
            }
        }
    }
}

/// Success-identity law: an envelope with the success code and a payload
/// resolves to exactly that payload, unchanged, on every kind of call.
pub proof fn lemma_success_identity(env: codec::EnvelopeView, selection_aware: bool)
    requires
        env.code == taxonomy::CODE_SUCCESS,
        env.payload is Some,
    ensures
        resolve_envelope_spec(env, selection_aware) == Ok::<Seq<char>, Error>(
            env.payload.unwrap(),
        ),
{
}

/// Unknown-code law: an envelope whose nonzero code has no recognized mapping
/// resolves to `UnknownAPIError` carrying that code — never to a
/// silently-defaulted success, whatever payload it carries.
pub proof fn lemma_unknown_code_envelope(env: codec::EnvelopeView, selection_aware: bool)
    requires
        env.code != taxonomy::CODE_SUCCESS,
        env.code != taxonomy::CODE_NOT_AUTHORIZED,
        !(env.code == taxonomy::CODE_INVALID_SELECTION && selection_aware),
    ensures
        resolve_envelope_spec(env, selection_aware) == Err::<Seq<char>, Error>(
            Error::UnknownAPIError(env.code),
        ),
{
}

/// Selection law: an envelope with code 205 resolves to an invalid profile
/// selection exactly on the calls where that code is meaningful, and to the
/// raw unrecognized code on every other call.
pub proof fn lemma_selection_parameterization(env: codec::EnvelopeView)
    requires
        env.code == taxonomy::CODE_INVALID_SELECTION,
    ensures
        resolve_envelope_spec(env, true) == Err::<Seq<char>, Error>(
            Error::SelectError(profile::SelectError::InvalidUserID),
        ),
        resolve_envelope_spec(env, false) == Err::<Seq<char>, Error>(
            Error::UnknownAPIError(taxonomy::CODE_INVALID_SELECTION),
        ),
{
}

/// Authorization law: an envelope with code 201 resolves to `NotAuthorized`
/// on every kind of call, whether or not a payload is present.
pub proof fn lemma_not_authorized_envelope(env: codec::EnvelopeView, selection_aware: bool)
    requires
        env.code == taxonomy::CODE_NOT_AUTHORIZED,
    ensures
        resolve_envelope_spec(env, selection_aware) == Err::<Seq<char>, Error>(
            Error::NotAuthorized,
        ),
{
}

} // verus!

pub mod auth;
pub mod codec;
pub mod headers;
pub mod profile;
pub mod taxonomy;
