//! Account linking: which OAuth client to use, and the authorization
//! addresses that the browser is sent to.
use vstd::prelude::*;
use vstd::utf8::encode_utf8;
use crate::text::{chars_of, push_str, string_of};

verus! {

/// What an account-linking action asks for.
#[derive(Debug)]
pub enum LinkAction {
    /// Open this authorization address in the browser.
    Link(String),
    /// Forget the saved tokens and the authentication.
    Unlink,
}

// ---------------------------------------------------------------------------
// Percent-encoding
// ---------------------------------------------------------------------------

/// A byte that percent-encoding leaves as it is: an ASCII letter or digit,
/// `-`, `.`, `_` or `~`.
pub open spec fn url_safe_byte(b: u8) -> bool {
    (48 <= b && b <= 57) || (65 <= b && b <= 90) || (97 <= b && b <= 122) || b == 45 || b == 46
        || b == 95 || b == 126
}

/// The upper-case hexadecimal digit for `d` (below 16).
pub open spec fn hex_digit(d: u8) -> char {
    if d < 10 {
        (d + 48) as char
    } else {
        (d + 55) as char
    }
}

/// `bytes` percent-encoded: safe bytes as themselves, every other byte as
/// `%` and two upper-case hexadecimal digits.
pub open spec fn percent_encode(bytes: Seq<u8>) -> Seq<char>
    decreases bytes.len(),
{
    if bytes.len() == 0 {
        Seq::empty()
    } else {
        let b = bytes.last();
        percent_encode(bytes.drop_last()) + if url_safe_byte(b) {
            seq![b as char]
        } else {
            seq!['%', hex_digit(b / 16), hex_digit(b % 16)]
        }
    }
}

/// `urlencoding::encode`: percent-encodes the UTF-8 bytes of `s`, keeping
/// ASCII letters, digits and `-._~`, writing other bytes as `%XX` with
/// upper-case digits.
#[verifier::external_body]
fn url_encode(s: &str) -> (r: String)
    ensures
        r@ == percent_encode(encode_utf8(s@)),
{
    urlencoding::encode(s).into_owned()
}

// ---------------------------------------------------------------------------
// Client ids
// ---------------------------------------------------------------------------

/// A character of the Unicode `White_Space` property, which `str::trim`
/// removes.
pub open spec fn is_white_space(c: char) -> bool {
    ('\t' <= c && c <= '\r') || c == ' ' || c == '\u{85}' || c == '\u{a0}' || c == '\u{1680}' || (
    '\u{2000}' <= c && c <= '\u{200a}') || c == '\u{2028}' || c == '\u{2029}' || c == '\u{202f}'
        || c == '\u{205f}' || c == '\u{3000}'
}

/// A text that is empty once trimmed.
pub open spec fn blank(s: Seq<char>) -> bool {
    forall|i: int| 0 <= i < s.len() ==> is_white_space(#[trigger] s[i])
}

fn white_space(c: char) -> (b: bool)
    ensures
        b == is_white_space(c),
{
    ('\t' <= c && c <= '\r') || c == ' ' || c == '\u{85}' || c == '\u{a0}' || c == '\u{1680}' || (
    '\u{2000}' <= c && c <= '\u{200a}') || c == '\u{2028}' || c == '\u{2029}' || c == '\u{202f}'
        || c == '\u{205f}' || c == '\u{3000}'
}

/// Whether `s` is empty once trimmed.
pub fn is_blank(s: &str) -> (b: bool)
    ensures
        b == blank(s@),
{
    let v = chars_of(s);
    let mut i: usize = 0;
    while i < v.len()
        invariant
            v@ == s@,
            i <= v@.len(),
            forall|j: int| 0 <= j < i ==> is_white_space(#[trigger] v@[j]),
        decreases v@.len() - i,
    {
        if !white_space(v[i]) {
            return false;
        }
        i = i + 1;
    }
    true
}

/// The client id in use: the saved one unless absent or blank, else the
/// default.
pub open spec fn client_id_in_use(saved: Option<String>, default: Seq<char>) -> Seq<char> {
    match saved {
        Some(s) => if blank(s@) {
            default
        } else {
            s@
        },
        None => default,
    }
}

/// Picks the client id in use.
pub fn active_client_id(saved: Option<String>, default: &str) -> (id: String)
    ensures
        id@ == client_id_in_use(saved, default@),
{
    match saved {
        Some(s) => if is_blank(s.as_str()) {
            string_of(&chars_of(default))
        } else {
            s
        },
        None => string_of(&chars_of(default)),
    }
}

// ---------------------------------------------------------------------------
// Authorization addresses
// ---------------------------------------------------------------------------

/// Where Spotify sends the browser back.
pub open spec fn spotify_redirect() -> Seq<char> {
    "http://127.0.0.1:3000/callback/spotify"@
}

/// Where Twitch sends the browser back.
pub open spec fn twitch_redirect() -> Seq<char> {
    "http://127.0.0.1:3000/callback/twitch"@
}

/// The Spotify authorization address: the authorization-code flow with a
/// PKCE S256 challenge, for the currently-playing scope.
pub open spec fn spotify_authorize_text(client_id: Seq<char>, challenge: Seq<char>) -> Seq<char> {
    "https://accounts.spotify.com/authorize?client_id="@ + client_id
        + "&response_type=code&redirect_uri="@ + percent_encode(encode_utf8(spotify_redirect()))
        + "&code_challenge_method=S256&code_challenge="@ + challenge
        + "&scope=user-read-currently-playing"@
}

/// The Twitch authorization address: the implicit flow, for the chat,
/// hype train, subscription, follower and bits scopes.
pub open spec fn twitch_authorize_text(client_id: Seq<char>) -> Seq<char> {
    "https://id.twitch.tv/oauth2/authorize?client_id="@ + client_id
        + "&response_type=token&redirect_uri="@ + percent_encode(encode_utf8(twitch_redirect()))
        + "&scope=user:read:email+chat:read+chat:edit+channel:read:hype_train+user:read:chat+channel:read:subscriptions+moderator:read:followers+bits:read"@
}

/// Builds the Spotify authorization address.
pub fn spotify_authorize_url(client_id: &str, challenge: &str) -> (u: String)
    ensures
        u@ == spotify_authorize_text(client_id@, challenge@),
{
    let redirect = url_encode("http://127.0.0.1:3000/callback/spotify");
    let mut v: Vec<char> = Vec::new();
    push_str(&mut v, "https://accounts.spotify.com/authorize?client_id=");
    push_str(&mut v, client_id);
    push_str(&mut v, "&response_type=code&redirect_uri=");
    push_str(&mut v, redirect.as_str());
    push_str(&mut v, "&code_challenge_method=S256&code_challenge=");
    push_str(&mut v, challenge);
    push_str(&mut v, "&scope=user-read-currently-playing");
    proof {
        assert(v@ =~= spotify_authorize_text(client_id@, challenge@));
    }
    string_of(&v)
}

/// Builds the Twitch authorization address.
pub fn twitch_authorize_url(client_id: &str) -> (u: String)
    ensures
        u@ == twitch_authorize_text(client_id@),
{
    let redirect = url_encode("http://127.0.0.1:3000/callback/twitch");
    let mut v: Vec<char> = Vec::new();
    push_str(&mut v, "https://id.twitch.tv/oauth2/authorize?client_id=");
    push_str(&mut v, client_id);
    push_str(&mut v, "&response_type=token&redirect_uri=");
    push_str(&mut v, redirect.as_str());
    push_str(
        &mut v,
        "&scope=user:read:email+chat:read+chat:edit+channel:read:hype_train+user:read:chat+channel:read:subscriptions+moderator:read:followers+bits:read",
    );
    proof {
        assert(v@ =~= twitch_authorize_text(client_id@));
    }
    string_of(&v)
}

} // verus!
