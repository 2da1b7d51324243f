use panoptic::models::{SettingFieldType, SettingValue};
use panoptic::oauth::LinkAction;
use panoptic::plugins::{
    create_native_provider, find_plugin, no_action_handler, registered_plugin_ids, AvatarPlugin, BitThresholds, GoalsAction, NativeMediaPlugin,
    NativeProvider, PomodoroPlugin, StreamGoalsPlugin, TwitchAlertsPlugin, TwitchBitTriggersPlugin,
    TwitchChatPlugin, TwitchHypeTrainPlugin, TwitchPlugin,
};
use panoptic::twitch::manager::TwitchEventManager;
use panoptic::twitch::models::TwitchAlert;

#[test]
fn pomodoro_plugin_panel_and_actions() {
    let mut p = PomodoroPlugin::new();
    assert_eq!(p.id(), "pomodoro");
    assert_eq!(p.name(), "Pomodoro Timer");
    let d = p.settings_definition().unwrap();
    assert_eq!(d.fields.len(), 7);
    assert_eq!(d.fields[0].key, "work_duration_mins");
    assert!(matches!(d.fields[0].default_value, SettingValue::Int(25)));
    assert!(matches!(&d.fields[4].field_type, SettingFieldType::Action { action_name, .. } if action_name == "toggle"));
    assert!(p.handle_action("toggle", None).is_ok());
    assert!(p.state.is_running);
    assert_eq!(p.handle_action("nap", None).err().unwrap(), "Unknown pomodoro action: nap");
}

#[test]
fn stream_goals_actions() {
    let p = StreamGoalsPlugin::new();
    assert!(matches!(p.handle_action("reset_session"), Ok(GoalsAction::ResetSession)));
    match p.handle_action("increment:deaths") {
        Ok(GoalsAction::CustomVar { op, name }) => assert_eq!((op.as_str(), name.as_str()), ("increment", "deaths")),
        _ => panic!(),
    }
    match p.handle_action("reset_var:a:b") {
        Ok(GoalsAction::CustomVar { op, name }) => assert_eq!((op.as_str(), name.as_str()), ("reset_var", "a:b")),
        _ => panic!(),
    }
    assert_eq!(p.handle_action("set:deaths").err().unwrap(), "Unknown stream_goals action: set:deaths");
    assert_eq!(p.handle_action("increment").err().unwrap(), "Unknown stream_goals action: increment");
    assert_eq!(p.settings_definition().unwrap().fields[0].key, "reset_session");
}

#[test]
fn alerts_plugin_simulates_five_alerts() {
    let p = TwitchAlertsPlugin::new();
    let alerts = p.handle_action("test_all").unwrap();
    assert_eq!(alerts.len(), 5);
    assert!(matches!(&alerts[3], TwitchAlert::Raid { from_broadcaster_name, viewers: 42 } if from_broadcaster_name == "Streamer_Bot"));
    assert_eq!(p.handle_action("x").err().unwrap(), "Unknown action");
    let d = p.settings_definition().unwrap();
    assert_eq!(d.fields.len(), 15);
    assert!(matches!(&d.fields[1].default_value, SettingValue::Text(t) if t == "✨"));
}

#[test]
fn chat_and_hype_train_plugins() {
    let c = TwitchChatPlugin::new();
    assert!(c.handle_action("test_msg").is_ok());
    assert!(c.handle_action("test").is_err());
    let d = c.settings_definition().unwrap();
    assert!(matches!(&d.fields[1].field_type, SettingFieldType::Select { options } if options.len() == 4));
    let h = TwitchHypeTrainPlugin::new();
    let mut m = TwitchEventManager::new();
    assert!(h.handle_action("test_hype_train", &mut m.hype_state).is_ok());
    assert!(m.hype_state.active);
    assert_eq!((m.hype_state.level, m.hype_state.progress, m.hype_state.goal), (1, 50, 100));
    assert_eq!(m.hype_state.top_contributions[0].total, 100);
    assert_eq!(h.handle_action("nope", &mut m.hype_state).err().unwrap(), "Unknown action");
}

#[test]
fn bit_triggers_use_saved_or_default_thresholds() {
    let p = TwitchBitTriggersPlugin::new();
    let none = BitThresholds { glow: None, glitch: None, chaos: None };
    assert_eq!(p.handle_action("simulate_glow", none).unwrap(), 100);
    assert_eq!(p.handle_action("simulate_glitch", none).unwrap(), 500);
    assert_eq!(p.handle_action("simulate_chaos", none).unwrap(), 1000);
    let saved = BitThresholds { glow: Some(1), glitch: Some(2), chaos: Some(3) };
    assert_eq!(p.handle_action("simulate_chaos", saved).unwrap(), 3);
    assert_eq!(p.handle_action("boom", saved).err().unwrap(), "Unknown action: boom");
}

#[test]
fn avatar_and_native_media() {
    let a = AvatarPlugin::new();
    let d = a.settings_definition().unwrap();
    assert!(matches!(d.fields[1].default_value, SettingValue::Decimal { units: 15, scale: 1 }));
    let n = NativeMediaPlugin::new();
    assert!(n.settings_definition().is_none());
    assert!(matches!(create_native_provider("linux"), NativeProvider::Mpris(_)));
    assert!(matches!(create_native_provider("windows"), NativeProvider::Smtc(_)));
    assert!(matches!(n.media_provider("linux"), Some(NativeProvider::Mpris(_))));
}

#[test]
fn twitch_link_url_and_client_id() {
    let t = TwitchPlugin::new();
    match t.handle_action("link", None).unwrap() {
        LinkAction::Link(url) => {
            assert!(url.starts_with("https://id.twitch.tv/oauth2/authorize?client_id=j58sbgcd48oeuzt7tmxgb0ktkdtxfe&response_type=token&redirect_uri=http%3A%2F%2F127.0.0.1%3A3000%2Fcallback%2Ftwitch&scope="));
        }
        _ => panic!(),
    }
    match t.handle_action("link", Some("   ".into())).unwrap() {
        LinkAction::Link(url) => assert!(url.contains("client_id=j58sbgcd48oeuzt7tmxgb0ktkdtxfe&")),
        _ => panic!(),
    }
    match t.handle_action("link", Some("mine".into())).unwrap() {
        LinkAction::Link(url) => assert!(url.contains("client_id=mine&")),
        _ => panic!(),
    }
    assert!(matches!(t.handle_action("unlink", None), Ok(LinkAction::Unlink)));
    assert_eq!(t.handle_action("relink", None).err().unwrap(), "Unknown action 'relink'");
}

#[test]
fn plugin_lookup() {
    let ids = registered_plugin_ids();
    assert_eq!(ids.len(), 12);
    assert_eq!(find_plugin("spotify"), Ok(0));
    assert_eq!(find_plugin("obs-websocket"), Ok(7));
    assert_eq!(find_plugin("avatar"), Ok(11));
    assert_eq!(find_plugin("nope"), Err("Plugin 'nope' not found".to_string()));
    assert_eq!(no_action_handler(), "Action handler not implemented");
}

#[test]
fn fresh_manager_has_no_broadcaster() {
    let m = TwitchEventManager::new();
    assert_eq!(m.broadcaster_info.id, "");
    assert_eq!(m.broadcaster_info.login, "");
    assert_eq!(m.broadcaster_info.display_name, "");
    assert_eq!(m.session_stats.viewer_count, 0);
    assert_eq!(m.hype_state.goal, 100);
}
