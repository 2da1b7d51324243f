use panoptic::models::AuthState;
use panoptic::oauth::LinkAction;
use panoptic::playback::PlaybackState;
use panoptic::spotify::{
    after_exchange, after_poll, after_retry, fetch_step, on_auth_change, playback_from_response,
    refreshed_tokens, saved_auth, AfterPoll, ExchangeStep, FetchStep, PollPlan, SchemaBootstrapper,
    SpotifyAlbum, SpotifyArtist, SpotifyImage, SpotifyItem, SpotifyPlaybackResponse, SpotifyPlugin,
    WebFallbackEngine, WebPollError,
};

fn authed(provider: &str) -> AuthState {
    AuthState::Authenticated {
        provider: provider.into(),
        access_token: "at".into(),
        refresh_token: "rt".into(),
    }
}

#[test]
fn response_becomes_playback() {
    let r = SpotifyPlaybackResponse {
        item: Some(SpotifyItem {
            name: "Song".into(),
            artists: vec![SpotifyArtist { name: "A".into() }, SpotifyArtist { name: "B".into() }],
            album: SpotifyAlbum {
                name: "Album".into(),
                images: vec![SpotifyImage { url: "u1".into() }, SpotifyImage { url: "u2".into() }],
            },
            duration_ms: 1000,
        }),
        progress_ms: 10,
        is_playing: true,
    };
    let p = playback_from_response(&r).unwrap();
    assert_eq!((p.title.as_str(), p.artist.as_str(), p.album.as_str(), p.art_source.as_str()), ("Song", "A, B", "Album", "u1"));
    assert_eq!((p.progress_ms, p.duration_ms, p.is_playing), (10, 1000, true));
    let none = SpotifyPlaybackResponse { item: None, progress_ms: 0, is_playing: false };
    assert!(playback_from_response(&none).is_none());
}

#[test]
fn statuses_are_classified() {
    assert_eq!(fetch_step(401), FetchStep::Unauthorized);
    assert_eq!(fetch_step(204), FetchStep::NothingPlaying);
    assert_eq!(fetch_step(500), FetchStep::Failed);
    assert_eq!(fetch_step(200), FetchStep::Read);
}

#[test]
fn engine_rebuilds_on_token_change() {
    let mut e = WebFallbackEngine::new();
    assert!(matches!(e.plan(&AuthState::Unauthenticated), PollPlan::NotLinked));
    assert!(matches!(e.plan(&authed("spotify")), PollPlan::Rebuild(ref t) if t == "at"));
    e.client_built("at".into());
    assert!(matches!(e.plan(&authed("spotify")), PollPlan::Poll));
    let other = AuthState::Authenticated { provider: "spotify".into(), access_token: "new".into(), refresh_token: "r".into() };
    assert!(matches!(e.plan(&other), PollPlan::Rebuild(ref t) if t == "new"));
}

#[test]
fn poll_outcomes() {
    assert!(matches!(after_poll(Ok(Some(PlaybackState::default())), &authed("spotify")), AfterPoll::Done(Ok(_))));
    assert!(matches!(after_poll(Ok(None), &authed("spotify")), AfterPoll::Done(Err(ref m)) if m == "No active playback"));
    assert!(matches!(after_poll(Err(WebPollError::Unauthorized), &authed("spotify")), AfterPoll::Refresh(ref t) if t == "rt"));
    assert!(matches!(after_poll(Err(WebPollError::Unauthorized), &authed("twitch")), AfterPoll::Done(Err(ref m)) if m == "Current auth provider is not spotify"));
    assert!(matches!(after_poll(Err(WebPollError::Unauthorized), &AuthState::Unauthenticated), AfterPoll::Done(Err(ref m)) if m == "Token expired and no refresh token available"));
    assert!(matches!(after_poll(Err(WebPollError::Other("x\"y".into())), &authed("spotify")), AfterPoll::Done(Err(ref m)) if m == "Web fallback error: Other(\"x\\\"y\")"));
    assert!(matches!(after_retry(Ok(None)), Err(ref m) if m == "No active playback after refresh"));
    assert!(matches!(after_retry(Err(WebPollError::Unauthorized)), Err(ref m) if m == "Web fallback error after refresh: Unauthorized"));
    let t = refreshed_tokens("a2".into(), None, "old");
    assert_eq!((t.0.as_str(), t.1.as_str()), ("a2", "old"));
    let t = refreshed_tokens("a2".into(), Some("r2".into()), "old");
    assert_eq!(t.1, "r2");
}

#[test]
fn linking_flow() {
    let mut p = SpotifyPlugin::new();
    let url = match p.handle_action("link", None).unwrap() {
        LinkAction::Link(u) => u,
        _ => panic!(),
    };
    let v = p.code_verifier.clone().unwrap();
    assert_eq!(v.len(), 43);
    let challenge = panoptic::crypto::generate_challenge(&v);
    assert_eq!(
        url,
        format!("https://accounts.spotify.com/authorize?client_id=66bb8b83521e4034b4b7c035f09d7844&response_type=code&redirect_uri=http%3A%2F%2F127.0.0.1%3A3000%2Fcallback%2Fspotify&code_challenge_method=S256&code_challenge={}&scope=user-read-currently-playing", challenge)
    );
    assert_eq!(p.handle_action("x", None).err().unwrap(), "Unknown action 'x'");
    let code = AuthState::Authenticating { provider: "spotify".into(), code: "c".into() };
    let v = p.take_verifier();
    assert!(matches!(on_auth_change(&code, v), ExchangeStep::Exchange { ref code, .. } if code == "c"));
    assert!(matches!(on_auth_change(&code, p.take_verifier()), ExchangeStep::Fail));
    assert!(matches!(on_auth_change(&authed("spotify"), None), ExchangeStep::Ignore));
    assert!(matches!(after_exchange(Err("e".into())), AuthState::Unauthenticated));
    assert!(matches!(after_exchange(Ok(("a".into(), "r".into()))), AuthState::Authenticated { ref provider, .. } if provider == "spotify"));
    assert!(saved_auth("spotify", Some("a".into()), None).is_none());
    assert!(saved_auth("spotify", Some("a".into()), Some("r".into())).is_some());
}

#[test]
fn schema_bootstrap_prefers_download() {
    assert!(SchemaBootstrapper::bootstrap(Some("openapi: 3.0.0\n".into()), None));
    assert!(!SchemaBootstrapper::bootstrap(Some("a: [".into()), Some("ok: 1".into())));
    assert!(SchemaBootstrapper::bootstrap(None, Some("ok: 1".into())));
    assert!(!SchemaBootstrapper::bootstrap(None, None));
}
