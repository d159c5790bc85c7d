//! Authentication handshake: the two-stage exchange that turns credentials
//! into an access token and the token into a session identifier. The machine
//! here decides; a transport driver performs each pending call and feeds the
//! raw response back in. Two alternate entry points skip the first stage or
//! both stages.

use vstd::prelude::*;

verus! {

use crate::codec;
use crate::taxonomy;
use crate::{Error, LoginError, Result, Tarkov};

/// One stage of the handshake.
#[derive(Debug)]
pub enum Handshake {
    /// Credentials are held; the login call has not succeeded yet.
    NeedLogin { email: String, password: String, hwid: String },
    /// An access token is held; the exchange call has not succeeded yet.
    NeedExchange { access_token: String, hwid: String },
    /// The exchange succeeded: an authenticated client is ready.
    Complete { client: Tarkov },
}

/// Spec-level shape of a handshake stage.
pub ghost enum HandshakeView {
    NeedLogin { email: Seq<char>, password: Seq<char>, hwid: Seq<char> },
    NeedExchange { access_token: Seq<char>, hwid: Seq<char> },
    Complete { session: Seq<char>, hwid: Seq<char> },
}

impl View for Handshake {
    type V = HandshakeView;

    open spec fn view(&self) -> HandshakeView {
        match self {
            Handshake::NeedLogin { email, password, hwid } => HandshakeView::NeedLogin {
                email: email@,
                password: password@,
                hwid: hwid@,
            },
            Handshake::NeedExchange { access_token, hwid } => HandshakeView::NeedExchange {
                access_token: access_token@,
                hwid: hwid@,
            },
            Handshake::Complete { client } => HandshakeView::Complete {
                session: client.session@,
                hwid: client.hwid@,
            },
        }
    }
}

/// The transport call that the driver must perform next.
#[derive(Debug)]
pub enum HandshakeAction {
    /// Post the credentials and fingerprint to the login endpoint.
    Login { email: String, password: String, hwid: String },
    /// Post the access token and fingerprint to the exchange endpoint.
    Exchange { access_token: String, hwid: String },
}

/// How a login-stage envelope advances the machine: a success payload must
/// carry the `access_token` field; a protocol error surfaces as the
/// login-specific error kind, 201 classified as rejected credentials.
pub open spec fn login_transition(hwid: Seq<char>, env: codec::EnvelopeView) -> Result<
    HandshakeView,
> {
    if env.code == taxonomy::CODE_SUCCESS {
        match env.payload {
            Some(p) => match codec::string_field_of(p, "access_token"@) {
                Some(token) => Ok(HandshakeView::NeedExchange { access_token: token, hwid }),
                None => Err(Error::Json),
            },
            None => Err(Error::Json),
        }
    } else if env.code == taxonomy::CODE_NOT_AUTHORIZED {
        Err(Error::LoginError(LoginError::NotAuthorized))
    } else {
        Err(Error::LoginError(LoginError::UnknownCode(env.code)))
    }
}

/// How an exchange-stage envelope advances the machine: a success payload
/// must carry the `session` field; an expired or rejected access token
/// manifests as code 201, so it surfaces as `NotAuthorized`.
pub open spec fn exchange_transition(hwid: Seq<char>, env: codec::EnvelopeView) -> Result<
    HandshakeView,
> {
    if env.code == taxonomy::CODE_SUCCESS {
        match env.payload {
            Some(p) => match codec::string_field_of(p, "session"@) {
                Some(session) => Ok(HandshakeView::Complete { session, hwid }),
                None => Err(Error::Json),
            },
            None => Err(Error::Json),
        }
    } else {
        Err(taxonomy::taxonomy_error(env.code, false))
    }
}

/// What feeding a raw response into a pending stage yields: the response is
/// decoded through the shared decoder, then the stage's transition applies.
pub open spec fn advance_spec(pre: HandshakeView, status: u16, body: Seq<u8>) -> Result<
    HandshakeView,
> {
    match codec::decode_spec(status, body) {
        Err(e) => Err(e),
        Ok(env) => match pre {
            HandshakeView::NeedLogin { email, password, hwid } => login_transition(hwid, env),
            HandshakeView::NeedExchange { access_token, hwid } => exchange_transition(hwid, env),
            HandshakeView::Complete { session, hwid } => Ok(pre),
        },
    }
}

/// Progress law: a successful advance never moves the handshake backward and
/// never loses the device fingerprint — a pending login yields the exchange
/// stage, and a pending exchange yields the completed session, both under the
/// fingerprint the machine started with.
pub proof fn lemma_handshake_progress(pre: HandshakeView, status: u16, body: Seq<u8>)
    ensures
        pre matches HandshakeView::NeedLogin { email, password, hwid } ==> (advance_spec(
            pre,
            status,
            body,
        ) matches Ok(next) ==> (next matches HandshakeView::NeedExchange { access_token, hwid: h }
            && h == hwid)),
        pre matches HandshakeView::NeedExchange { access_token, hwid } ==> (advance_spec(
            pre,
            status,
            body,
        ) matches Ok(next) ==> (next matches HandshakeView::Complete { session, hwid: h }
            && h == hwid)),
{
}

impl Handshake {
    /// Begin with an email and password: both stages remain to run.
    pub fn with_credentials(email: &str, password: &str, hwid: &str) -> (h: Handshake)
        ensures
            h@ == (HandshakeView::NeedLogin { email: email@, password: password@, hwid: hwid@ }),
    {
        Handshake::NeedLogin {
            email: email.to_string(),
            password: password.to_string(),
            hwid: hwid.to_string(),
        }
    }

    /// Begin with a bearer access token: only the exchange stage remains, so
    /// exactly one transport call separates this state from a session.
    pub fn with_access_token(access_token: &str, hwid: &str) -> (h: Handshake)
        ensures
            h@ == (HandshakeView::NeedExchange { access_token: access_token@, hwid: hwid@ }),
    {
        Handshake::NeedExchange {
            access_token: access_token.to_string(),
            hwid: hwid.to_string(),
        }
    }

    /// The transport call to perform next; `None` once the handshake is
    /// complete, so a machine built from a session identifier asks for none.
    pub fn pending_action(&self) -> (a: Option<HandshakeAction>)
        ensures
            self@ matches HandshakeView::NeedLogin { email, password, hwid } ==> (a matches Some(
                HandshakeAction::Login { email: e, password: p, hwid: w },
            ) && e@ == email && p@ == password && w@ == hwid),
            self@ matches HandshakeView::NeedExchange { access_token, hwid } ==> (a matches Some(
                HandshakeAction::Exchange { access_token: t, hwid: w },
            ) && t@ == access_token && w@ == hwid),
            self@ is Complete ==> a is None,
    {
        match self {
            Handshake::NeedLogin { email, password, hwid } => Some(
                HandshakeAction::Login {
                    email: email.clone(),
                    password: password.clone(),
                    hwid: hwid.clone(),
                },
            ),
            Handshake::NeedExchange { access_token, hwid } => Some(
                HandshakeAction::Exchange {
                    access_token: access_token.clone(),
                    hwid: hwid.clone(),
                },
            ),
            Handshake::Complete { .. } => None,
        }
    }

    /// Feeds the raw response of the pending call into the machine and moves
    /// it one stage forward.
    pub fn advance(self, status: u16, body: &Vec<u8>) -> (r: Result<Handshake>)
        requires
            !(self@ is Complete),
        ensures
            r matches Ok(next) ==> advance_spec(self@, status, body@) == Ok::<HandshakeView, Error>(
                next@,
            ),
            r matches Err(e) ==> advance_spec(self@, status, body@) == Err::<HandshakeView, Error>(
                e,
            ),
    {
        let env = match codec::decode_response(status, body) {
            Ok(env) => env,
            Err(e) => {
                return Err(e);
            },
        };
        match self {
            Handshake::NeedLogin { email, password, hwid } => {
                if env.code == taxonomy::CODE_SUCCESS {
                    match env.payload {
                        Some(p) => match codec::parse_string_field(p.as_str(), "access_token") {
                            Some(token) => Ok(
                                Handshake::NeedExchange { access_token: token, hwid },
                            ),
                            None => Err(Error::Json),
                        },
                        None => Err(Error::Json),
                    }
                } else if env.code == taxonomy::CODE_NOT_AUTHORIZED {
                    Err(Error::LoginError(LoginError::NotAuthorized))
                } else {
                    Err(Error::LoginError(LoginError::UnknownCode(env.code)))
                }
            },
            Handshake::NeedExchange { access_token, hwid } => {
                if env.code == taxonomy::CODE_SUCCESS {
                    match env.payload {
                        Some(p) => match codec::parse_string_field(p.as_str(), "session") {
                            Some(session) => Ok(
                                Handshake::Complete { client: Tarkov { hwid, session } },
                            ),
                            None => Err(Error::Json),
                        },
                        None => Err(Error::Json),
                    }
                } else if env.code == taxonomy::CODE_NOT_AUTHORIZED {
                    Err(Error::NotAuthorized)
                } else {
                    Err(Error::UnknownAPIError(env.code))
                }
            },
            Handshake::Complete { client } => Ok(Handshake::Complete { client }),
        }
    }

    /// The authenticated client, once the handshake is complete.
    pub fn into_client(self) -> (t: Tarkov)
        requires
            self@ is Complete,
        ensures
            self@ matches HandshakeView::Complete { session, hwid } ==> t.session@ == session
                && t.hwid@ == hwid,
    {
        match self {
            Handshake::Complete { client } => client,
            _ => Tarkov { hwid: String::new(), session: String::new() },
        }
    }
}

} // verus!
