use panoptic::discord::{
    alert_summary, ConnectStep, DiscordRpcPlugin, DiscordSettingsFields, DiscordWorker,
};
use panoptic::playback::PlaybackState;
use panoptic::twitch::models::TwitchAlert;

fn connected_worker() -> DiscordWorker {
    let mut w = DiscordWorker::new("1246193796850454558".to_string());
    assert_eq!(w.connect_step(0), ConnectStep::Attempt);
    w.connect_result(true);
    w
}

#[test]
fn connection_attempts_are_spaced() {
    let mut w = DiscordWorker::new("id".to_string());
    assert_eq!(w.connect_step(1000), ConnectStep::Attempt);
    w.connect_result(false);
    assert_eq!(w.connect_step(5000), ConnectStep::Wait);
    assert_eq!(w.connect_step(16000), ConnectStep::Attempt);
    w.connect_result(true);
    assert_eq!(w.connect_step(16001), ConnectStep::Ready);
    w.enabled = false;
    assert_eq!(w.connect_step(17000), ConnectStep::Disabled { close_client: true });
    assert!(!w.connected);
}

#[test]
fn alert_takes_precedence_and_expires() {
    let mut w = connected_worker();
    w.update_alert("Bob just followed!".to_string(), 1000);
    let a = w.next_activity(2000, 1_700_000_000);
    assert_eq!(a.details, "Twitch Alert 🔔");
    assert_eq!(a.state, "Bob just followed!");
    assert_eq!(a.large_image, "twitch_alert");
    let a = w.next_activity(6000, 1_700_000_000);
    assert_eq!(a.details, "Panoptic Overlay Controller");
    assert_eq!(a.state, "Idle");
    assert!(w.alert_msg.is_none() && !w.wants_refresh());
}

#[test]
fn playing_track_activity() {
    let mut w = connected_worker();
    w.update_playback(PlaybackState {
        title: "Song".into(),
        artist: "Band".into(),
        album: "".into(),
        art_source: "".into(),
        progress_ms: 65_000,
        duration_ms: 200_000,
        is_playing: true,
        formatted_output: "".into(),
    });
    let a = w.next_activity(0, 1_000_000);
    assert_eq!(a.details, "🎵 Song");
    assert_eq!(a.state, "by Band");
    assert_eq!(a.large_text, "Now Playing");
    assert_eq!(a.start, Some(1_000_000 - 65));
    assert_eq!(a.end, Some(1_000_000 + 135));
    w.last_playback.as_mut().unwrap().is_playing = false;
    let a = w.next_activity(0, 1_000_000);
    assert_eq!((a.details.as_str(), a.state.as_str(), a.large_text.as_str()), ("Listening to Music", "Idle (Paused)", "Paused"));
}

#[test]
fn settings_reload_changes_client() {
    let mut w = connected_worker();
    let close = w.load_config(Some(DiscordSettingsFields {
        enable: None,
        show_now_playing: Some(false),
        show_alerts: None,
        client_id: Some("other".into()),
    }));
    assert!(close);
    assert!(!w.connected && w.enabled && !w.show_now_playing);
    assert_eq!(w.client_id, "other");
    assert!(!w.load_config(None));
}

#[test]
fn alert_summaries() {
    assert_eq!(alert_summary(&TwitchAlert::Follow { user_name: "Ann".into() }), "Ann just followed!");
    assert_eq!(
        alert_summary(&TwitchAlert::GiftSubscription { user_name: "G".into(), total: 5, tier: "1000".into(), is_anonymous: false }),
        "G gifted 5 subs!"
    );
    assert_eq!(alert_summary(&TwitchAlert::Raid { from_broadcaster_name: "R".into(), viewers: 42 }), "Raid from R (42 viewers)!");
    assert_eq!(alert_summary(&TwitchAlert::Cheer { user_name: "C".into(), bits: 500, message: "m".into() }), "C cheered 500 bits!");
    let p = DiscordRpcPlugin::new();
    assert_eq!(p.id(), "discord_rpc");
    assert_eq!(p.settings_definition().unwrap().fields.len(), 4);
}
