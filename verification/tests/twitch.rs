use panoptic::twitch::manager::{
    counters_fit_now, BadgeFields, BadgeSetFields, ContributionFields, EmoteFields, EventFields, FragmentFields,
    PronounEntry, TwitchEventManager,
};
use panoptic::twitch::eventsub::{eventsub_step, eventsub_subscriptions, EventSubStep};
use panoptic::twitch::models::{ChatFragment, TwitchAlert};

fn event() -> EventFields {
    EventFields {
        level: None,
        total: None,
        progress: None,
        goal: None,
        top_contributions: None,
        user_name: None,
        tier: None,
        is_gift: None,
        cumulative_months: None,
        is_anonymous: None,
        from_broadcaster_user_name: None,
        viewers: None,
        bits: None,
        message: None,
        message_text: None,
        fragments: None,
        message_id: None,
        chatter_user_id: None,
        chatter_user_login: None,
        chatter_user_name: None,
        color: None,
        is_first_msg: None,
        badges: None,
    }
}

#[test]
fn new_manager_is_empty() {
    let m = TwitchEventManager::new();
    assert!(!m.hype_state.active);
    assert_eq!((m.hype_state.level, m.hype_state.goal), (1, 100));
    assert!(m.alert_state.active_alerts.is_empty());
    assert!(m.chat_state.messages.is_empty());
}

#[test]
fn follow_raises_alert_and_counts() {
    let mut m = TwitchEventManager::new();
    let mut e = event();
    e.user_name = Some("Ann".into());
    let fx = m.handle_event("channel.follow", e, 1700000000, 42, None);
    assert!(fx.alert && fx.session_stats && !fx.chat_message);
    assert_eq!(m.alert_state.active_alerts.len(), 1);
    assert_eq!(m.alert_state.active_alerts[0].id, "alert_1700000000_42");
    assert!(matches!(&m.alert_state.active_alerts[0].alert, TwitchAlert::Follow { user_name } if user_name == "Ann"));
    assert_eq!(m.session_stats.followers, 1);
}

#[test]
fn alert_queue_keeps_ten() {
    let mut m = TwitchEventManager::new();
    for i in 0..12u16 {
        m.handle_event("channel.raid", event(), 1, i, None);
    }
    assert_eq!(m.alert_state.active_alerts.len(), 10);
    assert_eq!(m.alert_state.active_alerts[0].id, "alert_1_2");
    assert_eq!(m.session_stats.raids, 12);
}

#[test]
fn gifts_count_as_subscriptions() {
    let mut m = TwitchEventManager::new();
    let mut e = event();
    e.total = Some(5);
    m.handle_event("channel.subscription.gift", e, 1, 1, None);
    assert_eq!((m.session_stats.gift_subs, m.session_stats.subscribers), (5, 5));
    assert!(matches!(&m.alert_state.active_alerts[0].alert, TwitchAlert::GiftSubscription { user_name, total: 5, .. } if user_name == "Anonymous"));
}

#[test]
fn hype_train_progress() {
    let mut m = TwitchEventManager::new();
    let mut e = event();
    e.level = Some(3);
    e.progress = Some(40);
    e.goal = Some(200);
    e.total = Some(900);
    e.top_contributions = Some(vec![ContributionFields {
        user_id: Some("1".into()),
        user_login: Some("a".into()),
        user_name: Some("A".into()),
        kind: Some("BITS".into()),
        total: Some(100),
    }]);
    let fx = m.handle_event("channel.hype_train.progress", e, 1, 1, None);
    assert!(fx.hype_train);
    assert!(m.hype_state.active);
    assert_eq!((m.hype_state.level, m.hype_state.progress, m.hype_state.goal), (3, 40, 200));
    assert_eq!(m.hype_state.top_contributions[0].type_field, "BITS");
    assert_eq!(m.session_stats.hype_train_level, 3);
}

#[test]
fn chat_messages_use_caches() {
    let mut m = TwitchEventManager::new();
    m.merge_badge_sets(&vec![BadgeSetFields {
        set_id: Some("moderator".into()),
        versions: Some(vec![(Some("1".into()), Some("https://badge/mod".into()))]),
    }]);
    m.merge_emotes(&vec![EmoteFields { id: Some("25".into()), url: Some("https://emote/25".into()) }]);
    let mut e = event();
    e.chatter_user_id = Some("u1".into());
    e.message_text = Some("hi Kappa".into());
    e.is_first_msg = Some(true);
    e.badges = Some(vec![BadgeFields { set_id: Some("moderator".into()), id: Some("1".into()), info: None }]);
    e.fragments = Some(vec![
        FragmentFields { kind: Some("text".into()), text: Some("hi ".into()), emote_id: None },
        FragmentFields { kind: Some("emote".into()), text: Some("Kappa".into()), emote_id: Some("25".into()) },
        FragmentFields { kind: Some("emote".into()), text: Some("X".into()), emote_id: Some("9".into()) },
    ]);
    let fx = m.handle_event("channel.chat.message", e, 5, 0, Some("she/her".into()));
    assert!(fx.chat_message);
    let msg = &m.chat_state.messages[0];
    assert!(msg.is_mod && !msg.is_sub);
    assert_eq!(msg.badges[0].image_url.as_deref(), Some("https://badge/mod"));
    assert_eq!(msg.color, "#ffffff");
    assert_eq!(msg.pronouns.as_deref(), Some("she/her"));
    assert!(matches!(&msg.fragments[1], ChatFragment::Emote { url, .. } if url == "https://emote/25"));
    assert!(matches!(&msg.fragments[2], ChatFragment::Emote { url, .. } if url == "https://static-cdn.jtvnw.net/emoticons/v2/9/default/dark/1.0"));
    assert_eq!((m.session_stats.chat_messages, m.session_stats.unique_chatters, m.session_stats.new_chatters), (1, 1, 1));
    let mut again = event();
    again.chatter_user_id = Some("u1".into());
    m.handle_event("channel.chat.message", again, 6, 0, None);
    assert_eq!((m.session_stats.chat_messages, m.session_stats.unique_chatters), (2, 1));
}

#[test]
fn pronouns_resolve_and_cache() {
    let mut m = TwitchEventManager::new();
    m.set_pronoun_map(vec![
        PronounEntry { name: "hehim".into(), display: "He/Him".into() },
        PronounEntry { name: "hehim".into(), display: "he/him".into() },
    ]);
    assert!(m.cached_pronouns("bob").is_none());
    assert_eq!(m.resolve_pronouns("bob", Some("hehim".into())).as_deref(), Some("he/him"));
    assert_eq!(m.cached_pronouns("bob").as_deref(), Some("he/him"));
    assert!(m.resolve_pronouns("eve", Some("xyz".into())).is_none());
    assert!(m.cached_pronouns("eve").is_none());
}

#[test]
fn eventsub_subscriptions_and_steps() {
    let subs = eventsub_subscriptions("42");
    assert_eq!(subs.len(), 10);
    assert_eq!((subs[0].sub_type.as_str(), subs[0].version.as_str()), ("channel.hype_train.begin", "2"));
    assert_eq!(subs[3].condition, vec![("broadcaster_user_id".to_string(), "42".to_string()), ("moderator_user_id".to_string(), "42".to_string())]);
    assert_eq!(subs[6].condition, vec![("to_broadcaster_user_id".to_string(), "42".to_string())]);
    assert_eq!(subs[8].condition[1].0, "user_id");
    assert_eq!(subs[9].condition.len(), 1);
    assert!(matches!(eventsub_step(Some("session_welcome".into()), Some("s1".into()), None, false), EventSubStep::Subscribe(ref s) if s == "s1"));
    assert!(matches!(eventsub_step(Some("notification".into()), None, Some("channel.follow".into()), true), EventSubStep::Handle(ref t) if t == "channel.follow"));
    assert!(matches!(eventsub_step(Some("notification".into()), None, Some("channel.follow".into()), false), EventSubStep::Ignore));
    assert!(matches!(eventsub_step(Some("session_keepalive".into()), None, None, false), EventSubStep::Ignore));
}

#[test]
fn chat_keeps_a_hundred_messages() {
    let mut m = TwitchEventManager::new();
    for i in 0..105u64 {
        let mut e = event();
        e.message_id = Some(format!("m{}", i));
        e.chatter_user_id = Some(format!("u{}", i % 3));
        m.handle_event("channel.chat.message", e, i, 0, None);
    }
    assert_eq!(m.chat_state.messages.len(), 100);
    assert_eq!(m.chat_state.messages[0].id, "m5");
    assert_eq!(m.session_stats.unique_chatters, 3);
    assert_eq!(m.session_stats.chat_messages, 105);
}

#[test]
fn test_message_uses_stand_ins() {
    let mut m = TwitchEventManager::new();
    m.post_test_message();
    let msg = &m.chat_state.messages[0];
    assert!(msg.id.starts_with("test_"));
    assert_eq!((msg.user_id.as_str(), msg.user_login.as_str(), msg.user_name.as_str()), ("123", "streamer", "Streamer"));
    assert!(msg.is_broadcaster && msg.fragments.len() == 2);
    m.broadcaster_info.display_name = "Real".into();
    m.post_test_message();
    assert_eq!(m.chat_state.messages[1].user_name, "Real");
}

#[test]
fn notifications_are_dated() {
    let mut m = TwitchEventManager::new();
    let fx = m.handle_notification("channel.follow", event(), None);
    assert!(fx.alert);
    assert!(m.alert_state.active_alerts[0].timestamp > 1_600_000_000);
    assert!(m.alert_state.active_alerts[0].id.starts_with("alert_"));
}

#[test]
fn stream_metadata_needs_a_broadcaster() {
    let mut m = TwitchEventManager::new();
    assert_eq!(m.stream_metadata_url(), None);
    m.broadcaster_info.id = "4242".into();
    assert_eq!(
        m.stream_metadata_url().unwrap(),
        "https://api.twitch.tv/helix/streams?user_id=4242"
    );
}

#[test]
fn stream_metadata_fills_the_session() {
    let mut m = TwitchEventManager::new();
    m.session_stats.followers = 3;
    m.apply_stream_metadata(Some(57), Some("Speedrun".into()), Some("Celeste".into()));
    assert_eq!(m.session_stats.viewer_count, 57);
    assert_eq!(m.session_stats.stream_title, "Speedrun");
    assert_eq!(m.session_stats.category, "Celeste");
    assert_eq!(m.session_stats.followers, 3);
    m.apply_stream_metadata(None, None, None);
    assert_eq!(m.session_stats.viewer_count, 0);
    assert_eq!(m.session_stats.stream_title, "");
    assert_eq!(m.session_stats.category, "");
}

#[test]
fn reset_session_zeroes_the_counters() {
    let mut m = TwitchEventManager::new();
    m.apply_stream_metadata(Some(9), Some("Title".into()), Some("Game".into()));
    m.session_stats.followers = 4;
    m.session_stats.bits = 100;
    m.broadcaster_info.id = "77".into();
    m.reset_session();
    assert_eq!(m.session_stats.followers, 0);
    assert_eq!(m.session_stats.bits, 0);
    assert_eq!(m.session_stats.viewer_count, 0);
    assert_eq!(m.session_stats.stream_title, "");
    assert!(m.session_stats.seen_chatter_ids.is_empty());
    assert_eq!(m.broadcaster_info.id, "77");
}

#[test]
fn counters_fit_per_notification() {
    let mut m = TwitchEventManager::new();
    m.session_stats.followers = u64::MAX;
    assert!(!counters_fit_now(&m.session_stats, "channel.follow", &event()));
    assert!(counters_fit_now(&m.session_stats, "channel.raid", &event()));
    let mut e = event();
    e.bits = Some(10);
    m.session_stats.bits = u64::MAX - 9;
    assert!(!counters_fit_now(&m.session_stats, "channel.cheer", &e));
    e.bits = Some(9);
    assert!(counters_fit_now(&m.session_stats, "channel.cheer", &e));
    m.session_stats.unique_chatters = u64::MAX;
    assert!(!counters_fit_now(&m.session_stats, "channel.chat.message", &e));
    assert!(counters_fit_now(&m.session_stats, "channel.hype_train.end", &e));
}
