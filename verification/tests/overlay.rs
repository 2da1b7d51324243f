use panoptic::overlay::{
    aesthetic_pack, command_effect, default_css, engine_frame, inject_settings, not_playing_settings,
    overlay_texts, pack_overlays, thematic_triggers, tray_action, AestheticPack, AppCommand, CommandEffect,
    DefaultCss, NotPlayingFields, TrayAction,
};
use panoptic::overlay::{media_sources, provider_step, MediaSource, ProviderStep};
use panoptic::playback::PlaybackState;

#[test]
fn not_playing_texts() {
    let f = NotPlayingFields { title: Some("  ".into()), artist: None, album: Some("Void".into()) };
    let o = overlay_texts(&f);
    assert_eq!((o.title.as_str(), o.artist.as_str(), o.album.as_str()), ("Not Playing", "Unknown Artist", "Void"));
    let s = not_playing_settings(&f);
    assert_eq!(s.title, "  ");
    let page = inject_settings("<html><head></head></html>", &o);
    assert_eq!(
        page,
        "<html><head><script>window.PanopticSettings = {\"not_playing_album\":\"Void\",\"not_playing_artist\":\"Unknown Artist\",\"not_playing_title\":\"Not Playing\"};</script></head></html>"
    );
}

#[test]
fn stylesheets_and_packs() {
    assert_eq!(default_css("now_playing"), DefaultCss::NowPlaying);
    assert_eq!(default_css("twitch_alerts"), DefaultCss::Alerts);
    assert_eq!(default_css("pomodoro"), DefaultCss::Empty);
    assert_eq!(aesthetic_pack("salem").unwrap(), AestheticPack::Salem);
    assert_eq!(aesthetic_pack("goth").err().unwrap(), "Unknown aesthetic pack: goth");
    assert_eq!(pack_overlays().len(), 6);
}

#[test]
fn chat_effects() {
    let t = thematic_triggers("HYPE!!!", false);
    assert!(t.flash && !t.color_shift);
    let t = thematic_triggers("change the COLOUR", false);
    assert!(!t.flash && t.color_shift);
    let t = thematic_triggers("hello", true);
    assert!(!t.flash && t.color_shift);
}

#[test]
fn engine_commands_and_frame() {
    assert_eq!(command_effect(AppCommand::OpenSettings), CommandEffect::ShowMainWindow);
    assert_eq!(command_effect(AppCommand::InitiateAuth), CommandEffect::LinkSpotify);
    assert_eq!(command_effect(AppCommand::Quit), CommandEffect::Exit);
    let s = engine_frame(None, None);
    assert_eq!(s.formatted_output, "");
    let p = PlaybackState { title: "T".into(), artist: "A".into(), ..PlaybackState::default() };
    let s = engine_frame(Some(p), Some("".into()));
    assert_eq!(s.formatted_output, "Now Playing: T by A");
    let p = PlaybackState { title: "T".into(), ..PlaybackState::default() };
    let s = engine_frame(Some(p), Some("{title}!".into()));
    assert_eq!(s.formatted_output, "T!");
}

#[test]
fn tray_entries() {
    assert_eq!(tray_action("quit"), TrayAction::Command(AppCommand::Quit));
    assert_eq!(tray_action("settings"), TrayAction::Command(AppCommand::OpenSettings));
    assert_eq!(tray_action("update"), TrayAction::OpenRelease);
    assert_eq!(tray_action("other"), TrayAction::Nothing);
}

#[test]
fn native_source_first_then_web() {
    assert_eq!(media_sources(), vec![MediaSource::Native, MediaSource::SpotifyWeb]);
    let mut st = PlaybackState::default();
    st.title = "Song".into();
    assert!(matches!(provider_step(0, 2, Some(st)), ProviderStep::Done(Some(ref s)) if s.title == "Song"));
    assert!(matches!(provider_step(0, 2, None), ProviderStep::Ask(1)));
    assert!(matches!(provider_step(1, 2, None), ProviderStep::Done(None)));
}

#[test]
fn settings_are_json_escaped() {
    let f = NotPlayingFields {
        title: Some("Say \"hi\"\n".into()),
        artist: Some("a\\b\t\u{1}".into()),
        album: Some("Ünïcode/ok".into()),
    };
    let o = overlay_texts(&f);
    let page = inject_settings("<head></head>", &o);
    assert_eq!(
        page,
        "<head><script>window.PanopticSettings = {\"not_playing_album\":\"Ünïcode/ok\",\"not_playing_artist\":\"a\\\\b\\t\\u0001\",\"not_playing_title\":\"Say \\\"hi\\\"\\n\"};</script></head>"
    );
}
