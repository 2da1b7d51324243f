//! Spotify: reading the Web API's now-playing answer, the polling engine's
//! decisions, token handling around a poll, and the plugin's actions.
use vstd::prelude::*;
use crate::crypto::{challenge_text, generate_challenge, generate_verifier, unreserved};
use crate::models::{fields_view, AuthState, PluginCategory, PluginSettingsDefinition};
use crate::mpris::join;
use crate::oauth::{LinkAction, active_client_id, client_id_in_use, spotify_authorize_text, spotify_authorize_url};
use crate::playback::PlaybackState;
use crate::plugins::{spotify_field_list, spotify_fields};
use crate::text::{chars_of, equals_str, push_str, same_chars, string_of};

verus! {

// ---------------------------------------------------------------------------
// The Web API's answer
// ---------------------------------------------------------------------------

/// The currently-playing answer of the Web API.
#[derive(Debug)]
pub struct SpotifyPlaybackResponse {
    pub item: Option<SpotifyItem>,
    pub progress_ms: u32,
    pub is_playing: bool,
}

/// A track.
#[derive(Debug)]
pub struct SpotifyItem {
    pub name: String,
    pub artists: Vec<SpotifyArtist>,
    pub album: SpotifyAlbum,
    pub duration_ms: u32,
}

#[derive(Debug)]
pub struct SpotifyArtist {
    pub name: String,
}

#[derive(Debug)]
pub struct SpotifyAlbum {
    pub name: String,
    pub images: Vec<SpotifyImage>,
}

#[derive(Debug)]
pub struct SpotifyImage {
    pub url: String,
}

/// The names of a list of artists.
pub open spec fn artist_names(a: Seq<SpotifyArtist>) -> Seq<Seq<char>> {
    a.map_values(|x: SpotifyArtist| x.name@)
}

/// The address of the first image, or nothing.
pub open spec fn first_image(images: Seq<SpotifyImage>) -> Seq<char> {
    if images.len() > 0 {
        images[0].url@
    } else {
        Seq::empty()
    }
}

/// The playback an answer describes: the track's name, its artists joined
/// by ", ", its album and first album image, the progress, length and
/// playing flag; none when no track is playing.
pub open spec fn describes(r: SpotifyPlaybackResponse, pb: PlaybackState) -> bool {
    match r.item {
        Some(item) => {
            &&& pb.title@ == item.name@
            &&& pb.artist@ == join(artist_names(item.artists@), ", "@)
            &&& pb.album@ == item.album.name@
            &&& pb.art_source@ == first_image(item.album.images@)
            &&& pb.progress_ms == r.progress_ms
            &&& pb.duration_ms == item.duration_ms
            &&& pb.is_playing == r.is_playing
            &&& pb.formatted_output@.len() == 0
        },
        None => false,
    }
}

fn join_artists(artists: &Vec<SpotifyArtist>) -> (s: String)
    ensures
        s@ == join(artist_names(artists@), ", "@),
{
    let mut out: Vec<char> = Vec::new();
    let n = artists.len();
    let mut i: usize = 0;
    while i < n
        invariant
            n == artists.len(),
            i <= n,
            out@ == join(artist_names(artists@.take(i as int)), ", "@),
        decreases n - i,
    {
        let ghost prev = artist_names(artists@.take(i as int));
        let ghost now = artist_names(artists@.take(i + 1));
        proof {
            assert(now =~= prev.push(artists@[i as int].name@));
            assert(now.drop_last() =~= prev);
        }
        if i > 0 {
            push_str(&mut out, ", ");
        }
        push_str(&mut out, artists[i].name.as_str());
        proof {
            if i == 0 {
                assert(out@ =~= join(now, ", "@));
            } else {
                assert(out@ =~= join(now, ", "@));
            }
        }
        i = i + 1;
    }
    proof {
        assert(artists@.take(n as int) =~= artists@);
    }
    string_of(&out)
}

/// The playback of an answer, when a track is playing.
pub fn playback_from_response(r: &SpotifyPlaybackResponse) -> (pb: Option<PlaybackState>)
    ensures
        r.item is None <==> pb is None,
        pb matches Some(p) ==> describes(*r, p),
{
    match &r.item {
        None => None,
        Some(item) => {
            let art = if item.album.images.len() > 0 {
                string_of(&chars_of(item.album.images[0].url.as_str()))
            } else {
                String::new()
            };
            Some(
                PlaybackState {
                    title: string_of(&chars_of(item.name.as_str())),
                    artist: join_artists(&item.artists),
                    album: string_of(&chars_of(item.album.name.as_str())),
                    art_source: art,
                    progress_ms: r.progress_ms,
                    duration_ms: item.duration_ms,
                    is_playing: r.is_playing,
                    formatted_output: String::new(),
                },
            )
        },
    }
}

/// How a currently-playing answer is read, by its HTTP status.
#[derive(Debug, Clone, Copy, PartialEq, Eq, Structural)]
pub enum FetchStep {
    /// 401: the token is no longer accepted.
    Unauthorized,
    /// 204: nothing is playing.
    NothingPlaying,
    /// Another client or server error (400 to 599).
    Failed,
    /// Read the body.
    Read,
}

/// Classifies a currently-playing answer by its status.
pub fn fetch_step(status: u16) -> (s: FetchStep)
    ensures
        status == 401 ==> s == FetchStep::Unauthorized,
        status == 204 ==> s == FetchStep::NothingPlaying,
        status != 401 && 400 <= status <= 599 ==> s == FetchStep::Failed,
        status != 204 && !(400 <= status <= 599) ==> s == FetchStep::Read,
{
    if status == 401 {
        FetchStep::Unauthorized
    } else if status == 204 {
        FetchStep::NothingPlaying
    } else if 400 <= status && status <= 599 {
        FetchStep::Failed
    } else {
        FetchStep::Read
    }
}

// ---------------------------------------------------------------------------
// Polling
// ---------------------------------------------------------------------------

/// Why a poll failed.
#[derive(Debug)]
pub enum WebPollError {
    Unauthorized,
    Other(String),
}

/// What `{:?}` writes for a string: the string quoted, with its special
/// characters escaped.
pub uninterp spec fn debug_quoted(s: Seq<char>) -> Seq<char>;

/// `format!("{:?}", s)` for a string slice.
#[verifier::external_body]
fn debug_str(s: &str) -> (r: String)
    ensures
        r@ == debug_quoted(s@),
{
    format!("{:?}", s)
}

/// How a poll error is written in messages.
pub open spec fn poll_error_text(e: WebPollError) -> Seq<char> {
    match e {
        WebPollError::Unauthorized => "Unauthorized"@,
        WebPollError::Other(m) => "Other("@ + debug_quoted(m@) + ")"@,
    }
}

impl WebPollError {
    /// The error for a schema that could not be had.
    pub fn schema_failed() -> (e: Self)
        ensures
            e matches WebPollError::Other(m) && m@ == "Schema bootstrap failed"@,
    {
        WebPollError::Other(string_of(&chars_of("Schema bootstrap failed")))
    }

    /// The error as written in messages.
    pub fn text(&self) -> (t: String)
        ensures
            t@ == poll_error_text(*self),
    {
        match self {
            WebPollError::Unauthorized => string_of(&chars_of("Unauthorized")),
            WebPollError::Other(m) => {
                let q = debug_str(m.as_str());
                let mut v: Vec<char> = Vec::new();
                push_str(&mut v, "Other(");
                push_str(&mut v, q.as_str());
                push_str(&mut v, ")");
                proof {
                    assert(v@ =~= poll_error_text(*self));
                }
                string_of(&v)
            },
        }
    }
}

/// What a poll needs first.
#[derive(Debug)]
pub enum PollPlan {
    /// Not linked to an account: nothing to poll.
    NotLinked,
    /// (Re)build the API client for this token, then poll.
    Rebuild(String),
    /// Poll with the current client.
    Poll,
}

/// The Web API fallback engine: the token its client was built with.
#[derive(Debug)]
pub struct WebFallbackEngine {
    pub current_token: Option<String>,
    pub has_client: bool,
}

impl WebFallbackEngine {
    /// An engine with no client yet.
    pub fn new() -> (e: Self)
        ensures
            e.current_token is None && !e.has_client,
    {
        WebFallbackEngine { current_token: None, has_client: false }
    }

    /// Decides what a poll needs under `auth`: nothing unless authenticated;
    /// a new client when there is none or the token changed.
    pub fn plan(&self, auth: &AuthState) -> (p: PollPlan)
        ensures
            match *auth {
                AuthState::Authenticated { access_token, .. } => if !self.has_client || !(
                self.current_token matches Some(t) && t@ == access_token@) {
                    p matches PollPlan::Rebuild(t) && t@ == access_token@
                } else {
                    p is Poll
                },
                _ => p is NotLinked,
            },
    {
        match auth {
            AuthState::Authenticated { access_token, .. } => {
                let same = match &self.current_token {
                    Some(t) => same_chars(&chars_of(t.as_str()), &chars_of(access_token.as_str())),
                    None => false,
                };
                if !self.has_client || !same {
                    PollPlan::Rebuild(string_of(&chars_of(access_token.as_str())))
                } else {
                    PollPlan::Poll
                }
            },
            _ => PollPlan::NotLinked,
        }
    }

    /// Records a client built for `token`.
    pub fn client_built(&mut self, token: String)
        ensures
            final(self).has_client,
            final(self).current_token == Some(token),
    {
        self.has_client = true;
        self.current_token = Some(token);
    }
}

/// Whether `s` is a YAML document.
pub uninterp spec fn yaml_valid(s: Seq<char>) -> bool;

/// `serde_yaml::from_str::<serde_yaml::Value>` succeeded on `s`.
#[verifier::external_body]
fn parses_as_yaml(s: &str) -> (b: bool)
    ensures
        b == yaml_valid(s@),
{
    serde_yaml::from_str::<serde_yaml::Value>(s).is_ok()
}

/// Loads the Web API schema: the freshly downloaded copy when there is one
/// (which the caller also caches), else the cached copy.
pub struct SchemaBootstrapper {}

impl SchemaBootstrapper {
    /// Whether a usable schema was had: the downloaded text when there is
    /// one (an invalid download is not replaced by the cache), else the
    /// cached text.
    pub fn bootstrap(downloaded: Option<String>, cached: Option<String>) -> (ok: bool)
        ensures
            ok == match downloaded {
                Some(d) => yaml_valid(d@),
                None => match cached {
                    Some(c) => yaml_valid(c@),
                    None => false,
                },
            },
    {
        match downloaded {
            Some(d) => parses_as_yaml(d.as_str()),
            None => match cached {
                Some(c) => parses_as_yaml(c.as_str()),
                None => false,
            },
        }
    }
}

// ---------------------------------------------------------------------------
// Around a poll: refreshing the token
// ---------------------------------------------------------------------------

/// What follows a poll.
#[derive(Debug)]
pub enum AfterPoll {
    /// The answer for this round.
    Done(Result<PlaybackState, String>),
    /// Refresh the token with this refresh token, then see `after_refresh`.
    Refresh(String),
}

/// The message for an error, with a prefix.
fn error_message(prefix: &str, e: &WebPollError) -> (m: String)
    ensures
        m@ == prefix@ + poll_error_text(*e),
{
    let t = e.text();
    let mut v: Vec<char> = Vec::new();
    push_str(&mut v, prefix);
    push_str(&mut v, t.as_str());
    string_of(&v)
}

/// The answer after a poll: the playback; "No active playback"; for a
/// refused token, a refresh when Spotify is the linked provider; otherwise
/// the error.
pub fn after_poll(poll: Result<Option<PlaybackState>, WebPollError>, auth: &AuthState) -> (a:
    AfterPoll)
    ensures
        match poll {
            Ok(Some(s)) => a == AfterPoll::Done(Ok(s)),
            Ok(None) => a matches AfterPoll::Done(Err(m)) && m@ == "No active playback"@,
            Err(WebPollError::Unauthorized) => match *auth {
                AuthState::Authenticated { provider, refresh_token, .. } => if provider@
                    == "spotify"@ {
                    a matches AfterPoll::Refresh(t) && t@ == refresh_token@
                } else {
                    a matches AfterPoll::Done(Err(m)) && m@ == "Current auth provider is not spotify"@
                },
                _ => a matches AfterPoll::Done(Err(m)) && m@
                    == "Token expired and no refresh token available"@,
            },
            Err(e) => a matches AfterPoll::Done(Err(m)) && m@ == "Web fallback error: "@
                + poll_error_text(e),
        },
{
    match poll {
        Ok(Some(s)) => AfterPoll::Done(Ok(s)),
        Ok(None) => AfterPoll::Done(Err(string_of(&chars_of("No active playback")))),
        Err(WebPollError::Unauthorized) => match auth {
            AuthState::Authenticated { provider, refresh_token, .. } => {
                if equals_str(&chars_of(provider.as_str()), "spotify") {
                    AfterPoll::Refresh(string_of(&chars_of(refresh_token.as_str())))
                } else {
                    AfterPoll::Done(
                        Err(string_of(&chars_of("Current auth provider is not spotify"))),
                    )
                }
            },
            _ => AfterPoll::Done(
                Err(string_of(&chars_of("Token expired and no refresh token available"))),
            ),
        },
        Err(e) => AfterPoll::Done(Err(error_message("Web fallback error: ", &e))),
    }
}

/// The tokens after a refresh: the new access token, and the new refresh
/// token when one came, else the old one.
pub fn refreshed_tokens(access: String, new_refresh: Option<String>, old_refresh: &str) -> (t: (
    String,
    String,
))
    ensures
        t.0@ == access@,
        t.1@ == match new_refresh {
            Some(r) => r@,
            None => old_refresh@,
        },
{
    let r = match new_refresh {
        Some(r) => r,
        None => string_of(&chars_of(old_refresh)),
    };
    (access, r)
}

/// The answer of the retry after a refreshed token.
pub fn after_retry(poll: Result<Option<PlaybackState>, WebPollError>) -> (r: Result<
    PlaybackState,
    String,
>)
    ensures
        match poll {
            Ok(Some(s)) => r == Ok::<PlaybackState, String>(s),
            Ok(None) => r matches Err(m) && m@ == "No active playback after refresh"@,
            Err(e) => r matches Err(m) && m@ == "Web fallback error after refresh: "@
                + poll_error_text(e),
        },
{
    match poll {
        Ok(Some(s)) => Ok(s),
        Ok(None) => Err(string_of(&chars_of("No active playback after refresh"))),
        Err(e) => Err(error_message("Web fallback error after refresh: ", &e)),
    }
}

/// The answer when the refresh failed (the account is then unlinked).
pub fn refresh_failed() -> (m: String)
    ensures
        m@ == "Token refresh failed, unlinked"@,
{
    string_of(&chars_of("Token refresh failed, unlinked"))
}

// ---------------------------------------------------------------------------
// Linking
// ---------------------------------------------------------------------------

/// The authentication restored from saved tokens: present when both tokens
/// were saved.
pub fn saved_auth(provider: &str, access: Option<String>, refresh: Option<String>) -> (a: Option<
    AuthState,
>)
    ensures
        (access is Some && refresh is Some) <==> a is Some,
        a matches Some(AuthState::Authenticated { provider: p, access_token, refresh_token })
            ==> p@ == provider@ && Some(access_token) == access && Some(refresh_token) == refresh,
        a matches Some(s) ==> s is Authenticated,
{
    match (access, refresh) {
        (Some(at), Some(rt)) => Some(
            AuthState::Authenticated {
                provider: string_of(&chars_of(provider)),
                access_token: at,
                refresh_token: rt,
            },
        ),
        _ => None,
    }
}

/// What an authentication change calls for.
#[derive(Debug)]
pub enum ExchangeStep {
    /// Not a Spotify authorization code: nothing to do.
    Ignore,
    /// Exchange this code with this verifier.
    Exchange { code: String, verifier: String },
    /// A code came but no verifier is kept: authentication fails.
    Fail,
}

/// Decides what an authentication change calls for, given the kept
/// verifier (which is used up).
pub fn on_auth_change(state: &AuthState, verifier: Option<String>) -> (s: ExchangeStep)
    ensures
        match *state {
            AuthState::Authenticating { provider, code } => if provider@ == "spotify"@ {
                match verifier {
                    Some(v) => s matches ExchangeStep::Exchange { code: c, verifier: w } && c@
                        == code@ && w@ == v@,
                    None => s is Fail,
                }
            } else {
                s is Ignore
            },
            _ => s is Ignore,
        },
{
    match state {
        AuthState::Authenticating { provider, code } => {
            if equals_str(&chars_of(provider.as_str()), "spotify") {
                match verifier {
                    Some(v) => ExchangeStep::Exchange {
                        code: string_of(&chars_of(code.as_str())),
                        verifier: v,
                    },
                    None => ExchangeStep::Fail,
                }
            } else {
                ExchangeStep::Ignore
            }
        },
        _ => ExchangeStep::Ignore,
    }
}

/// The authentication after a token exchange: linked to Spotify with the
/// tokens, or not linked.
pub fn after_exchange(r: Result<(String, String), String>) -> (a: AuthState)
    ensures
        match r {
            Ok((at, rt)) => a matches AuthState::Authenticated {
                provider,
                access_token,
                refresh_token,
            } && provider@ == "spotify"@ && access_token == at && refresh_token == rt,
            Err(_) => a is Unauthenticated,
        },
{
    match r {
        Ok((at, rt)) => AuthState::Authenticated {
            provider: string_of(&chars_of("spotify")),
            access_token: at,
            refresh_token: rt,
        },
        Err(_) => AuthState::Unauthenticated,
    }
}

/// The application used unless the settings name another.
pub open spec fn spotify_default_client() -> Seq<char> {
    "66bb8b83521e4034b4b7c035f09d7844"@
}

/// The Spotify plugin: it keeps the PKCE verifier of a pending link.
#[derive(Debug)]
pub struct SpotifyPlugin {
    pub code_verifier: Option<String>,
}

impl SpotifyPlugin {
    /// A plugin with no pending link.
    pub fn new() -> (p: Self)
        ensures
            p.code_verifier is None,
    {
        SpotifyPlugin { code_verifier: None }
    }

    pub fn id(&self) -> (s: &'static str)
        ensures
            s@ == "spotify"@,
    {
        "spotify"
    }

    pub fn name(&self) -> (s: &'static str)
        ensures
            s@ == "Spotify"@,
    {
        "Spotify"
    }

    /// The settings panel, under Auth.
    pub fn settings_definition(&self) -> (d: Option<PluginSettingsDefinition>)
        ensures
            d matches Some(def) && def.category == PluginCategory::Auth && fields_view(def.fields@)
                == spotify_fields(),
    {
        Some(PluginSettingsDefinition { category: PluginCategory::Auth, fields: spotify_field_list() })
    }

    /// The client id in use for a saved one.
    pub fn get_active_client_id(saved: Option<String>) -> (id: String)
        ensures
            id@ == client_id_in_use(saved, spotify_default_client()),
    {
        active_client_id(saved, "66bb8b83521e4034b4b7c035f09d7844")
    }

    /// "link" keeps a fresh verifier and asks to open the authorization
    /// address with its challenge; "unlink" asks to forget the tokens; any
    /// other action is refused with "Unknown action '<name>'".
    pub fn handle_action(&mut self, action: &str, saved_client_id: Option<String>) -> (r: Result<
        LinkAction,
        String,
    >)
        ensures
            action@ == "link"@ ==> (r matches Ok(LinkAction::Link(url)) && (
            final(self).code_verifier matches Some(v) && v@.len() == 43 && (forall|i: int|
                0 <= i < v@.len() ==> unreserved(#[trigger] v@[i])) && url@
                == spotify_authorize_text(
                client_id_in_use(saved_client_id, spotify_default_client()),
                challenge_text(v@),
            ))),
            action@ == "unlink"@ ==> (r matches Ok(LinkAction::Unlink) && final(self).code_verifier
                == old(self).code_verifier),
            action@ != "link"@ && action@ != "unlink"@ ==> (r matches Err(e) && e@
                == "Unknown action '"@ + action@ + "'"@ && final(self).code_verifier == old(
                self,
            ).code_verifier),
    {
        let a = chars_of(action);
        proof {
            reveal_strlit("link");
            reveal_strlit("unlink");
            assert("link"@.len() != "unlink"@.len());
        }
        if equals_str(&a, "link") {
            let client_id = SpotifyPlugin::get_active_client_id(saved_client_id);
            let verifier = generate_verifier();
            let challenge = generate_challenge(verifier.as_str());
            let url = spotify_authorize_url(client_id.as_str(), challenge.as_str());
            self.code_verifier = Some(verifier);
            Ok(LinkAction::Link(url))
        } else if equals_str(&a, "unlink") {
            Ok(LinkAction::Unlink)
        } else {
            let mut msg: Vec<char> = Vec::new();
            push_str(&mut msg, "Unknown action '");
            push_str(&mut msg, action);
            push_str(&mut msg, "'");
            proof {
                assert(msg@ =~= "Unknown action '"@ + action@ + "'"@);
            }
            Err(string_of(&msg))
        }
    }

    /// Hands over the kept verifier, which is then gone.
    pub fn take_verifier(&mut self) -> (v: Option<String>)
        ensures
            v == old(self).code_verifier,
            final(self).code_verifier is None,
    {
        self.code_verifier.take()
    }
}

} // verus!
