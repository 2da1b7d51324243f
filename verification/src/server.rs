//! The local HTTP server's decisions: the health probe, where album art
//! comes from, what an OAuth callback means and which page answers it, the
//! now-playing overlay's texts, and the stylesheet of an overlay.
use vstd::prelude::*;
use crate::keyed::KeyedList;
use crate::models::AuthState;
use crate::oauth::blank;
use crate::text::{
    chars_of, contains, contains_text, equals_str, has_prefix, matches_at, push_str, string_of,
};

verus! {

/// The health probe.
pub struct HealthHandler {}

impl HealthHandler {
    /// The answer to a health probe: "OK".
    pub fn check() -> (s: &'static str)
        ensures
            s@ == "OK"@,
    {
        "OK"
    }
}

/// The routes the server itself answers; plugins add their own.
pub struct AppRouter {}

/// The server's own routes, in order.
pub open spec fn core_routes() -> Seq<Seq<char>> {
    seq![
        "/health"@,
        "/art"@,
        "/callback/:provider"@,
        "/current-track"@,
        "/playback"@,
        "/overlay/now-playing"@,
        "/overlay/version"@,
        "/overlay/effects"@,
        "/overlay/:id/style.css"@,
    ]
}

impl AppRouter {
    /// The server's own routes.
    pub fn routes() -> (r: Vec<&'static str>)
        ensures
            r@.map_values(|s: &'static str| s@) == core_routes(),
    {
        let r = vec![
            "/health",
            "/art",
            "/callback/:provider",
            "/current-track",
            "/playback",
            "/overlay/now-playing",
            "/overlay/version",
            "/overlay/effects",
            "/overlay/:id/style.css",
        ];
        proof {
            assert(r@.map_values(|s: &'static str| s@) =~= core_routes());
        }
        r
    }
}

// ---------------------------------------------------------------------------
// Album art
// ---------------------------------------------------------------------------

/// The query of an art request: the art's address and a cache buster.
#[derive(Debug)]
pub struct ArtQuery {
    pub v: Option<String>,
    pub t: Option<String>,
}

/// Whether an art request comes from an OBS browser source: its user agent
/// names OBS or it was referred by an overlay page.
pub open spec fn from_obs(user_agent: Seq<char>, referer: Seq<char>) -> bool {
    contains_text(user_agent, "OBS"@) || contains_text(referer, "/overlay/"@)
}

/// How an art request is described in the log.
pub fn client_type(user_agent: &str, referer: &str) -> (s: &'static str)
    ensures
        from_obs(user_agent@, referer@) ==> s@ == "OBS Browser Source"@,
        !from_obs(user_agent@, referer@) ==> s@ == "Generic Client"@,
{
    if contains(&chars_of(user_agent), &chars_of("OBS")) || contains(
        &chars_of(referer),
        &chars_of("/overlay/"),
    ) {
        "OBS Browser Source"
    } else {
        "Generic Client"
    }
}

/// The art to serve: the requested address when one is given and not
/// empty, else the current track's.
pub open spec fn art_source_text(q: ArtQuery, current: Seq<char>) -> Seq<char> {
    match q.v {
        Some(v) => if v@.len() > 0 {
            v@
        } else {
            current
        },
        None => current,
    }
}

/// Picks the art to serve.
pub fn art_source(q: &ArtQuery, current: &str) -> (s: String)
    ensures
        s@ == art_source_text(*q, current@),
{
    match &q.v {
        Some(v) => if !v.as_str().is_empty() {
            string_of(&chars_of(v.as_str()))
        } else {
            string_of(&chars_of(current))
        },
        None => string_of(&chars_of(current)),
    }
}

/// The scheme of `s` parsed as a URL (WHATWG URL parsing), when it parses.
pub uninterp spec fn url_scheme(s: Seq<char>) -> Option<Seq<char>>;

/// `reqwest::Url::parse(s)` and, when it parses, `Url::scheme`.
#[verifier::external_body]
fn parse_scheme(s: &str) -> (r: Option<String>)
    ensures
        match r {
            Some(x) => url_scheme(s@) == Some(x@),
            None => url_scheme(s@) is None,
        },
{
    match reqwest::Url::parse(s) {
        Ok(u) => Some(u.scheme().to_string()),
        Err(_) => None,
    }
}

/// `Url::to_file_path` of `s` parsed as a URL, as text; none when the URL
/// does not parse, has no local path, or its path is not valid UTF-8 (such a
/// path cannot be carried as a `String`). Which paths are accepted and how
/// they are written depends on the operating system, so nothing is stated
/// of the result.
#[verifier::external_body]
fn file_url_path(s: &str) -> (r: Option<String>) {
    match reqwest::Url::parse(s) {
        Ok(u) => match u.to_file_path() {
            Ok(p) => p.into_os_string().into_string().ok(),
            Err(_) => None,
        },
        Err(_) => None,
    }
}

/// Where the art is fetched from.
#[derive(Debug)]
pub enum ArtPlan {
    /// No art: 404.
    NotFound,
    /// Read this local file.
    ReadFile(String),
    /// Fetch this web address.
    Proxy(String),
    /// Not an address the server serves: 400.
    BadRequest,
}

/// Whether `s` is a web address the server fetches.
pub open spec fn is_web_address(s: Seq<char>) -> bool {
    has_prefix(s, "https://"@) || has_prefix(s, "http://"@)
}

/// The view of an optional text.
pub open spec fn opt_text_view(o: Option<String>) -> Option<Seq<char>> {
    match o {
        Some(t) => Some(t@),
        None => None,
    }
}

/// `p` is where the art of `source` comes from, given the scheme that
/// `source` parses to (when it parses) and the local path of its `file:` URL
/// (when it has one): nothing for an empty source; the local file of a
/// `file:` URL with a path; otherwise the web address itself; otherwise a
/// bad request.
pub open spec fn plan_for(
    source: Seq<char>,
    scheme: Option<Seq<char>>,
    file_path: Option<Seq<char>>,
    p: ArtPlan,
) -> bool {
    if source.len() == 0 {
        p is NotFound
    } else if scheme == Some("file"@) && file_path is Some {
        p matches ArtPlan::ReadFile(x) && Some(x@) == file_path
    } else if is_web_address(source) {
        p matches ArtPlan::Proxy(x) && x@ == source
    } else {
        p is BadRequest
    }
}

/// Decides where the art of `source` comes from, given the scheme it parses
/// to and the local path of its `file:` URL (see [`plan_for`]).
pub fn art_plan_from(source: &str, scheme: Option<String>, file_path: Option<String>) -> (p: ArtPlan)
    ensures
        plan_for(source@, opt_text_view(scheme), opt_text_view(file_path), p),
{
    if source.is_empty() {
        return ArtPlan::NotFound;
    }
    let is_file = match &scheme {
        Some(s) => equals_str(&chars_of(s.as_str()), "file"),
        None => false,
    };
    if is_file {
        match file_path {
            Some(p) => {
                return ArtPlan::ReadFile(p);
            },
            None => {},
        }
    }
    let s = chars_of(source);
    let https = chars_of("https://");
    let http = chars_of("http://");
    if matches_at(&s, &https, 0) || matches_at(&s, &http, 0) {
        ArtPlan::Proxy(string_of(&s))
    } else {
        ArtPlan::BadRequest
    }
}

/// Decides where the art comes from: the source is parsed as a URL and, for
/// a `file:` URL, its local path is asked for (only then); the plan is that
/// of [`art_plan_from`] on what came back. A `file:` URL with a local path is
/// read; otherwise a web address is fetched; otherwise the request is bad.
pub fn art_plan(source: &str) -> (p: ArtPlan)
    ensures
        exists|path: Option<Seq<char>>| plan_for(source@, url_scheme(source@), path, p),
        url_scheme(source@) != Some("file"@) ==> plan_for(source@, url_scheme(source@), None, p),
{
    if source.is_empty() {
        let p = ArtPlan::NotFound;
        proof {
            assert(plan_for(source@, url_scheme(source@), None, p));
        }
        return p;
    }
    let scheme = parse_scheme(source);
    let is_file = match &scheme {
        Some(s) => equals_str(&chars_of(s.as_str()), "file"),
        None => false,
    };
    let path = if is_file {
        file_url_path(source)
    } else {
        None
    };
    let p = art_plan_from(source, scheme, path);
    proof {
        assert(plan_for(source@, url_scheme(source@), opt_text_view(path), p));
    }
    p
}

/// `mime_guess::from_path(path).first_or_octet_stream()`, as text: the
/// media type of the path's extension. Where the extension starts depends on
/// the operating system's path rules (`\` separates folders on Windows
/// only), so nothing is stated of the result.
#[verifier::external_body]
fn guess_mime(path: &str) -> (m: String) {
    mime_guess::from_path(path).first_or_octet_stream().to_string()
}

/// The status and headers of an art answer; the body is the bytes read or
/// fetched when the status is 200. Art is never cached.
#[derive(Debug)]
pub struct ArtResponse {
    pub status: u16,
    pub content_type: Option<String>,
}

/// The answer for a local file of media type `mime`: 200 with that type
/// when the file was read, else 404 with none.
pub fn file_response_typed(mime: String, read_ok: bool) -> (r: ArtResponse)
    ensures
        read_ok ==> r.status == 200 && r.content_type == Some(mime),
        !read_ok ==> r.status == 404 && r.content_type is None,
{
    if read_ok {
        ArtResponse { status: 200, content_type: Some(mime) }
    } else {
        ArtResponse { status: 404, content_type: None }
    }
}

/// The answer for a local file: 200 with the type guessed from its path
/// when it was read (the answer of [`file_response_typed`] for that type),
/// else 404.
pub fn file_response(path: &str, read_ok: bool) -> (r: ArtResponse)
    ensures
        read_ok ==> r.status == 200 && r.content_type is Some,
        !read_ok ==> r.status == 404 && r.content_type is None,
{
    if read_ok {
        let mime = guess_mime(path);
        file_response_typed(mime, read_ok)
    } else {
        file_response_typed(String::new(), read_ok)
    }
}

/// How fetching a web address went.
#[derive(Debug)]
pub enum ProxyResult {
    /// The request failed.
    NetworkError,
    /// The server answered with a status that is not a success.
    Refused(u16),
    /// The server answered with success; its content type (when readable)
    /// and whether the body was read.
    Fetched { content_type: Option<String>, body_ok: bool },
}

/// The answer for a fetched address: 200 with the server's content type
/// (or `application/octet-stream`) when the body came, else 502.
pub fn proxy_response(r: ProxyResult) -> (a: ArtResponse)
    ensures
        match r {
            ProxyResult::Fetched { content_type, body_ok: true } => a.status == 200 && (
            a.content_type matches Some(t) && t@ == match content_type {
                Some(c) => c@,
                None => "application/octet-stream"@,
            }),
            _ => a.status == 502 && a.content_type is None,
        },
{
    match r {
        ProxyResult::Fetched { content_type, body_ok } => {
            if body_ok {
                let t = match content_type {
                    Some(c) => c,
                    None => string_of(&chars_of("application/octet-stream")),
                };
                ArtResponse { status: 200, content_type: Some(t) }
            } else {
                ArtResponse { status: 502, content_type: None }
            }
        },
        _ => ArtResponse { status: 502, content_type: None },
    }
}

// ---------------------------------------------------------------------------
// OAuth callback
// ---------------------------------------------------------------------------

/// The page that says authentication failed, with its message.
pub open spec fn failure_page(message: Seq<char>) -> Seq<char> {
    FAIL_A@ + message + FAIL_B@
}

/// The page that says the account is being linked.
pub open spec fn linking_page(provider: Seq<char>) -> Seq<char> {
    OK_A@ + provider + OK_B@
}

/// The page that reads the token from the address fragment and comes back.
pub open spec fn connecting_page(provider: Seq<char>) -> Seq<char> {
    CONN_A@ + provider + CONN_B@
}

/// The message for a refused authorization.
pub open spec fn failure_message(provider: Seq<char>, error: Seq<char>, desc: Seq<char>) -> Seq<
    char,
> {
    if desc.len() == 0 {
        "Authentication failed for "@ + provider + ": "@ + error
    } else {
        "Authentication failed for "@ + provider + ": "@ + error + " ("@ + desc + ")"@
    }
}

/// What a callback means: the authentication it reports (none for a
/// failure or a fragment still to read) and the page that answers it.
#[derive(Debug)]
pub struct CallbackOutcome {
    pub auth: Option<AuthState>,
    pub page: String,
}

/// The value under `key`, or nothing.
pub open spec fn param(params: KeyedList<String>, key: Seq<char>) -> Option<Seq<char>> {
    if params.to_map().contains_key(key) {
        Some(params.to_map()[key]@)
    } else {
        None
    }
}

/// Handles `/callback/<provider>`: an `error` fails (with its description
/// when given); a `code` starts the code exchange; an `access_token`
/// completes an implicit grant (with no refresh token); otherwise the
/// page that reads the address fragment is served.
pub fn auth_callback(provider: &str, params: &KeyedList<String>) -> (o: CallbackOutcome)
    requires
        params.well_formed(),
    ensures
        match param(*params, "error"@) {
            Some(err) => o.auth is None && o.page@ == failure_page(
                failure_message(
                    provider@,
                    err,
                    match param(*params, "error_description"@) {
                        Some(d) => d,
                        None => Seq::empty(),
                    },
                ),
            ),
            None => match param(*params, "code"@) {
                Some(code) => (o.auth matches Some(AuthState::Authenticating { provider: p, code: c })
                    && p@ == provider@ && c@ == code) && o.page@ == linking_page(provider@),
                None => match param(*params, "access_token"@) {
                    Some(tok) => (o.auth matches Some(
                        AuthState::Authenticated { provider: p, access_token: a, refresh_token: r },
                    ) && p@ == provider@ && a@ == tok && r@.len() == 0) && o.page@ == linking_page(
                        provider@,
                    ),
                    None => o.auth is None && o.page@ == connecting_page(provider@),
                },
            },
        },
{
    match params.get("error") {
        Some(err) => {
            let desc = match params.get("error_description") {
                Some(d) => string_of(&chars_of(d.as_str())),
                None => String::new(),
            };
            let mut m: Vec<char> = Vec::new();
            push_str(&mut m, "Authentication failed for ");
            push_str(&mut m, provider);
            push_str(&mut m, ": ");
            push_str(&mut m, err.as_str());
            if !desc.as_str().is_empty() {
                push_str(&mut m, " (");
                push_str(&mut m, desc.as_str());
                push_str(&mut m, ")");
            }
            let mut page: Vec<char> = Vec::new();
            push_str(&mut page, FAIL_A);
            let ghost before = page@;
            crate::text::push_all(&mut page, &m);
            push_str(&mut page, FAIL_B);
            proof {
                assert(m@ =~= failure_message(provider@, err@, desc@));
                assert(page@ =~= failure_page(m@));
            }
            return CallbackOutcome { auth: None, page: string_of(&page) };
        },
        None => {},
    }
    match params.get("code") {
        Some(code) => {
            let auth = AuthState::Authenticating {
                provider: string_of(&chars_of(provider)),
                code: string_of(&chars_of(code.as_str())),
            };
            return CallbackOutcome { auth: Some(auth), page: linking(provider) };
        },
        None => {},
    }
    match params.get("access_token") {
        Some(tok) => {
            let auth = AuthState::Authenticated {
                provider: string_of(&chars_of(provider)),
                access_token: string_of(&chars_of(tok.as_str())),
                refresh_token: String::new(),
            };
            return CallbackOutcome { auth: Some(auth), page: linking(provider) };
        },
        None => {},
    }
    let mut page: Vec<char> = Vec::new();
    push_str(&mut page, CONN_A);
    push_str(&mut page, provider);
    push_str(&mut page, CONN_B);
    proof {
        assert(page@ =~= connecting_page(provider@));
    }
    CallbackOutcome { auth: None, page: string_of(&page) }
}

fn linking(provider: &str) -> (p: String)
    ensures
        p@ == linking_page(provider@),
{
    let mut page: Vec<char> = Vec::new();
    push_str(&mut page, OK_A);
    push_str(&mut page, provider);
    push_str(&mut page, OK_B);
    proof {
        assert(page@ =~= linking_page(provider@));
    }
    string_of(&page)
}

pub const FAIL_A: &'static str = "<!DOCTYPE html>\n<html>\n<head><title>Authentication Failed</title></head>\n<body style=\"background-color: #0f0f13; color: #f43f5e; font-family: sans-serif; display: flex; align-items: center; justify-content: center; height: 100vh; margin: 0;\">\n    <div style=\"background-color: #1e1e24; padding: 30px; border-radius: 12px; text-align: center; max-width: 400px; border: 1px solid #f43f5e;\">\n        <h2 style=\"margin-top:0;\">Authentication Failed</h2>\n        <p>";

pub const FAIL_B: &'static str = "</p>\n    </div>\n</body>\n</html>";

pub const OK_A: &'static str = "<!DOCTYPE html>\n<html>\n<head><title>Authentication Successful</title></head>\n<body style=\"background-color: #0f0f13; color: #a78bfa; font-family: sans-serif; display: flex; align-items: center; justify-content: center; height: 100vh; margin: 0;\">\n    <div style=\"background-color: #1e1e24; padding: 30px; border-radius: 12px; text-align: center; max-width: 400px; border: 1px solid #a78bfa;\">\n        <h2 style=\"margin-top:0; color: #a78bfa;\">Authentication Successful!</h2>\n        <p>Panoptic is linking your ";

pub const OK_B: &'static str = " account. You can safely close this window now.</p>\n    </div>\n</body>\n</html>";

pub const CONN_A: &'static str = "<!DOCTYPE html>\n<html>\n<head>\n    <title>Connecting to Panoptic...</title>\n    <style>\n        body {\n            background-color: #0f0f13;\n            color: #e2e8f0;\n            font-family: -apple-system, BlinkMacSystemFont, \"Segoe UI\", Roboto, Helvetica, Arial, sans-serif;\n            display: flex;\n            align-items: center;\n            justify-content: center;\n            height: 100vh;\n            margin: 0;\n        }\n        .card {\n            background-color: #1e1e24;\n            padding: 30px;\n            border-radius: 12px;\n            box-shadow: 0 4px 20px rgba(0, 0, 0, 0.4);\n            text-align: center;\n            max-width: 400px;\n        }\n        h2 { color: #a78bfa; margin-top: 0; }\n        .spinner {\n            border: 4px solid rgba(167, 139, 250, 0.1);\n            width: 36px;\n            height: 36px;\n            border-radius: 50%;\n            border-left-color: #a78bfa;\n            animation: spin 1s linear infinite;\n            margin: 20px auto;\n        }\n        @keyframes spin { 0% { transform: rotate(0deg); } 100% { transform: rotate(360deg); } }\n    </style>\n    <script>\n        window.addEventListener('DOMContentLoaded', () => {\n            const hash = window.location.hash;\n            if (hash) {\n                const params = new URLSearchParams(hash.substring(1));\n                const accessToken = params.get(\"access_token\");\n                const error = params.get(\"error\");\n                const errorDesc = params.get(\"error_description\");\n                \n                if (error) {\n                    window.location.href = window.location.pathname + \"?error=\" + encodeURIComponent(error) + \n                        (errorDesc ? \"&error_description=\" + encodeURIComponent(errorDesc) : \"\");\n                } else if (accessToken) {\n                    window.location.href = window.location.pathname + \"?access_token=\" + encodeURIComponent(accessToken);\n                } else {\n                    document.getElementById('status').innerText = \"Authentication failed: No access token found in redirect.\";\n                    document.getElementById('spinner').style.display = 'none';\n                }\n            } else {\n                const urlParams = new URLSearchParams(window.location.search);\n                if (!urlParams.has(\"access_token\") && !urlParams.has(\"code\") && !urlParams.has(\"error\")) {\n                    document.getElementById('status').innerText = \"Authentication failed: Callback parameters missing.\";\n                    document.getElementById('spinner').style.display = 'none';\n                }\n            }\n        });\n    </script>\n</head>\n<body>\n    <div class=\"card\">\n        <h2>Connecting ";

pub const CONN_B: &'static str = "...</h2>\n        <div id=\"spinner\" class=\"spinner\"></div>\n        <p id=\"status\">Completing authentication, please do not close this window...</p>\n    </div>\n</body>\n</html>";

} // verus!
