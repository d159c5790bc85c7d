//! Identity envelope: the fixed header set that authenticates every call.
//! The pinned version strings live here, in one place, so a remote-service
//! change is a one-line edit rather than a hunt across endpoints.

use vstd::prelude::*;

verus! {

use vstd::string::StringExecFns;

/// Pinned game client version, embedded in the application-version header.
pub open spec fn spec_game_version() -> Seq<char> {
    "0.12.2.5485"@
}

/// Pinned game client version, embedded in the application-version header.
pub fn game_version() -> (s: &'static str)
    ensures
        s@ == spec_game_version(),
{
    "0.12.2.5485"
}

/// Pinned client runtime version, embedded in the user-agent and the
/// runtime-version headers.
pub open spec fn spec_unity_version() -> Seq<char> {
    "2018.4.13f1"@
}

/// Pinned client runtime version, embedded in the user-agent and the
/// runtime-version headers.
pub fn unity_version() -> (s: &'static str)
    ensures
        s@ == spec_unity_version(),
{
    "2018.4.13f1"
}

/// Pinned launcher version.
pub open spec fn spec_launcher_version() -> Seq<char> {
    "0.9.1.935"@
}

/// Pinned launcher version.
pub fn launcher_version() -> (s: &'static str)
    ensures
        s@ == spec_launcher_version(),
{
    "0.9.1.935"
}

/// Base URL of the launcher (login and token-exchange) endpoints.
pub fn launcher_endpoint() -> (s: &'static str)
    ensures
        s@ == "https://launcher.escapefromtarkov.com"@,
{
    "https://launcher.escapefromtarkov.com"
}

/// Base URL of the main game endpoints.
pub fn prod_endpoint() -> (s: &'static str)
    ensures
        s@ == "https://prod.escapefromtarkov.com"@,
{
    "https://prod.escapefromtarkov.com"
}

/// Base URL of the trading endpoints.
pub fn trading_endpoint() -> (s: &'static str)
    ensures
        s@ == "https://trading.escapefromtarkov.com"@,
{
    "https://trading.escapefromtarkov.com"
}

/// Base URL of the flea-market endpoints.
pub fn ragfair_endpoint() -> (s: &'static str)
    ensures
        s@ == "https://ragfair.escapefromtarkov.com"@,
{
    "https://ragfair.escapefromtarkov.com"
}

/// The user-agent header value: the pinned client runtime version inside the
/// fixed agent frame.
pub open spec fn spec_user_agent() -> Seq<char> {
    "UnityPlayer/"@ + spec_unity_version() + " (UnityWebRequest/1.0, libcurl/7.52.0-DEV)"@
}

/// The application-version header value: the pinned game client version.
pub open spec fn spec_app_version() -> Seq<char> {
    "EFT Client "@ + spec_game_version()
}

/// The session cookie value carried once a session identifier exists.
pub open spec fn spec_session_cookie(session: Seq<char>) -> Seq<char> {
    "PHPSESSID="@ + session
}

/// Builds the fixed identity headers sent on every call: the user agent, the
/// application version, and the client runtime version.
pub fn build_identity_headers() -> (h: Vec<(String, String)>)
    ensures
        h@.len() == 3,
        h@[0].0@ == "User-Agent"@,
        h@[0].1@ == spec_user_agent(),
        h@[1].0@ == "App-Version"@,
        h@[1].1@ == spec_app_version(),
        h@[2].0@ == "X-Unity-Version"@,
        h@[2].1@ == spec_unity_version(),
{
    let mut agent = String::from_str("UnityPlayer/");
    agent.append(unity_version());
    agent.append(" (UnityWebRequest/1.0, libcurl/7.52.0-DEV)");

    let mut app = String::from_str("EFT Client ");
    app.append(game_version());

    let mut h: Vec<(String, String)> = Vec::new();
    h.push((String::from_str("User-Agent"), agent));
    h.push((String::from_str("App-Version"), app));
    h.push((String::from_str("X-Unity-Version"), String::from_str(unity_version())));
    h
}

/// Builds the authenticated header set: the identity headers plus the
/// session cookie that marks the call as belonging to this session.
pub fn build_session_headers(session: &str) -> (h: Vec<(String, String)>)
    ensures
        h@.len() == 4,
        h@[0].0@ == "User-Agent"@,
        h@[0].1@ == spec_user_agent(),
        h@[1].0@ == "App-Version"@,
        h@[1].1@ == spec_app_version(),
        h@[2].0@ == "X-Unity-Version"@,
        h@[2].1@ == spec_unity_version(),
        h@[3].0@ == "Cookie"@,
        h@[3].1@ == spec_session_cookie(session@),
{
    let mut h = build_identity_headers();
    let mut cookie = String::from_str("PHPSESSID=");
    cookie.append(session);
    h.push((String::from_str("Cookie"), cookie));
    h
}

} // verus!
