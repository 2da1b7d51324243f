//! The plugins' fixed parts: their ids and names, their settings panels,
//! and what each settings-panel action asks for.
use vstd::prelude::*;
use crate::models::{
    action_field, action_v, fields_view, offered_actions, plain_field, plain_v, text,
    text_default, DefaultView, FieldV, KindV, PluginCategory, PluginSettingsDefinition,
    SettingField, SettingFieldType, SettingValue,
};
use crate::oauth::{
    active_client_id, client_id_in_use, twitch_authorize_text, twitch_authorize_url, LinkAction,
};
use crate::pomodoro::{PomodoroSettings, PomodoroState};
use crate::text::{chars_of, equals_str, push_str, string_of};
use crate::twitch::models::{AlertV, ContributionV, HypeTrainState, TwitchAlert, TwitchContribution};
use crate::twitch::models::contribution_views;

verus! {

// ---------------------------------------------------------------------------
// Settings panels
// ---------------------------------------------------------------------------

/// The Pomodoro settings panel, as data.
pub open spec fn pomodoro_fields() -> Seq<FieldV> {
    seq![
        plain_v("work_duration_mins"@, "Work Duration (minutes)"@, Some("Length of each work session."@), KindV::Number, DefaultView::Int(25)),
        plain_v("short_break_mins"@, "Short Break (minutes)"@, Some("Length of short breaks between sessions."@), KindV::Number, DefaultView::Int(5)),
        plain_v("long_break_mins"@, "Long Break (minutes)"@, Some("Length of long breaks after N sessions."@), KindV::Number, DefaultView::Int(15)),
        plain_v("sessions_before_long_break"@, "Sessions Before Long Break"@, Some("How many work sessions before a long break triggers."@), KindV::Number, DefaultView::Int(4)),
        action_v("action_toggle"@, "Start / Pause Timer"@, None, "Start / Pause"@, "toggle"@),
        action_v("action_skip"@, "Skip Phase"@, Some("Advance to the next phase immediately."@), "Skip"@, "skip"@),
        action_v("action_reset"@, "Reset Timer"@, Some("Stop and reset to the start of a work session."@), "Reset"@, "reset"@),
    ]
}

/// The Pomodoro settings panel.
fn pomodoro_field_list() -> (fields: Vec<SettingField>)
    ensures
        fields_view(fields@) == pomodoro_fields(),
{
    let f0 = plain_field("work_duration_mins", "Work Duration (minutes)", Some("Length of each work session."), SettingFieldType::Number, SettingValue::Int(25));
    let f1 = plain_field("short_break_mins", "Short Break (minutes)", Some("Length of short breaks between sessions."), SettingFieldType::Number, SettingValue::Int(5));
    let f2 = plain_field("long_break_mins", "Long Break (minutes)", Some("Length of long breaks after N sessions."), SettingFieldType::Number, SettingValue::Int(15));
    let f3 = plain_field("sessions_before_long_break", "Sessions Before Long Break", Some("How many work sessions before a long break triggers."), SettingFieldType::Number, SettingValue::Int(4));
    let f4 = action_field("action_toggle", "Start / Pause Timer", None, "Start / Pause", "toggle");
    let f5 = action_field("action_skip", "Skip Phase", Some("Advance to the next phase immediately."), "Skip", "skip");
    let f6 = action_field("action_reset", "Reset Timer", Some("Stop and reset to the start of a work session."), "Reset", "reset");
    let fields = vec![f0, f1, f2, f3, f4, f5, f6];
    proof {
        assert(fields_view(fields@) =~= pomodoro_fields());
    }
    fields
}

/// The Stream Goals settings panel, as data.
pub open spec fn stream_goals_fields() -> Seq<FieldV> {
    seq![
        action_v("reset_session"@, "Reset Session Stats"@, Some("Reset all session counters (followers, subs, bits, raids…) to zero."@), "Reset Session"@, "reset_session"@),
    ]
}

/// The Stream Goals settings panel.
fn stream_goals_field_list() -> (fields: Vec<SettingField>)
    ensures
        fields_view(fields@) == stream_goals_fields(),
{
    let f0 = action_field("reset_session", "Reset Session Stats", Some("Reset all session counters (followers, subs, bits, raids…) to zero."), "Reset Session", "reset_session");
    let fields = vec![f0];
    proof {
        assert(fields_view(fields@) =~= stream_goals_fields());
    }
    fields
}

/// The Twitch Alerts settings panel, as data.
pub open spec fn alerts_fields() -> Seq<FieldV> {
    seq![
        plain_v("follow_text"@, "Follow Text Template"@, Some("Variables: {user}"@), KindV::Text, DefaultView::Text("{user} just followed!"@)),
        plain_v("follow_icon"@, "Follow Icon/Emoji"@, None, KindV::Text, DefaultView::Text("✨"@)),
        plain_v("sub_text"@, "Subscription Text Template"@, Some("Variables: {user}, {tier}, {months}"@), KindV::Text, DefaultView::Text("{user} subscribed at Tier {tier} for {months} months!"@)),
        plain_v("sub_icon"@, "Subscription Icon/Emoji"@, None, KindV::Text, DefaultView::Text("💖"@)),
        plain_v("giftsub_text"@, "Gift Sub Text Template"@, Some("Variables: {user}, {total}, {tier}"@), KindV::Text, DefaultView::Text("{user} gifted {total} Tier {tier} subscriptions!"@)),
        plain_v("giftsub_icon"@, "Gift Sub Icon/Emoji"@, None, KindV::Text, DefaultView::Text("🎁"@)),
        plain_v("raid_text"@, "Raid Text Template"@, Some("Variables: {user}, {viewers}"@), KindV::Text, DefaultView::Text("{user} raided with {viewers} viewers!"@)),
        plain_v("raid_icon"@, "Raid Icon/Emoji"@, None, KindV::Text, DefaultView::Text("⚔️"@)),
        plain_v("cheer_text"@, "Cheer Text Template"@, Some("Variables: {user}, {bits}, {message}"@), KindV::Text, DefaultView::Text("{user} cheered {bits} bits: {message}"@)),
        plain_v("cheer_icon"@, "Cheer Icon/Emoji"@, None, KindV::Text, DefaultView::Text("💎"@)),
        plain_v("alert_duration"@, "Alert Duration (seconds)"@, Some("How long each alert stays on screen"@), KindV::Number, DefaultView::Int(8)),
        plain_v("keep_last_alert"@, "Keep Last Alert On Screen"@, Some("Keep the final alert visible instead of fading out"@), KindV::Boolean, DefaultView::Bool(false)),
        plain_v("extend_downwards"@, "Extend Downwards"@, Some("Extend/stack alerts downwards instead of upwards"@), KindV::Boolean, DefaultView::Bool(false)),
        plain_v("alert_limit"@, "Alert Limit"@, Some("Maximum number of alerts displayed simultaneously (0 for unlimited)"@), KindV::Number, DefaultView::Int(4)),
        action_v("test_alerts"@, "Test Simulation"@, None, "Simulate All Alerts"@, "test_all"@),
    ]
}

/// The Twitch Alerts settings panel.
fn alerts_field_list() -> (fields: Vec<SettingField>)
    ensures
        fields_view(fields@) == alerts_fields(),
{
    let f0 = plain_field("follow_text", "Follow Text Template", Some("Variables: {user}"), SettingFieldType::Text, text_default("{user} just followed!"));
    let f1 = plain_field("follow_icon", "Follow Icon/Emoji", None, SettingFieldType::Text, text_default("✨"));
    let f2 = plain_field("sub_text", "Subscription Text Template", Some("Variables: {user}, {tier}, {months}"), SettingFieldType::Text, text_default("{user} subscribed at Tier {tier} for {months} months!"));
    let f3 = plain_field("sub_icon", "Subscription Icon/Emoji", None, SettingFieldType::Text, text_default("💖"));
    let f4 = plain_field("giftsub_text", "Gift Sub Text Template", Some("Variables: {user}, {total}, {tier}"), SettingFieldType::Text, text_default("{user} gifted {total} Tier {tier} subscriptions!"));
    let f5 = plain_field("giftsub_icon", "Gift Sub Icon/Emoji", None, SettingFieldType::Text, text_default("🎁"));
    let f6 = plain_field("raid_text", "Raid Text Template", Some("Variables: {user}, {viewers}"), SettingFieldType::Text, text_default("{user} raided with {viewers} viewers!"));
    let f7 = plain_field("raid_icon", "Raid Icon/Emoji", None, SettingFieldType::Text, text_default("⚔️"));
    let f8 = plain_field("cheer_text", "Cheer Text Template", Some("Variables: {user}, {bits}, {message}"), SettingFieldType::Text, text_default("{user} cheered {bits} bits: {message}"));
    let f9 = plain_field("cheer_icon", "Cheer Icon/Emoji", None, SettingFieldType::Text, text_default("💎"));
    let f10 = plain_field("alert_duration", "Alert Duration (seconds)", Some("How long each alert stays on screen"), SettingFieldType::Number, SettingValue::Int(8));
    let f11 = plain_field("keep_last_alert", "Keep Last Alert On Screen", Some("Keep the final alert visible instead of fading out"), SettingFieldType::Boolean, SettingValue::Bool(false));
    let f12 = plain_field("extend_downwards", "Extend Downwards", Some("Extend/stack alerts downwards instead of upwards"), SettingFieldType::Boolean, SettingValue::Bool(false));
    let f13 = plain_field("alert_limit", "Alert Limit", Some("Maximum number of alerts displayed simultaneously (0 for unlimited)"), SettingFieldType::Number, SettingValue::Int(4));
    let f14 = action_field("test_alerts", "Test Simulation", None, "Simulate All Alerts", "test_all");
    let fields = vec![f0, f1, f2, f3, f4, f5, f6, f7, f8, f9, f10, f11, f12, f13, f14];
    proof {
        assert(fields_view(fields@) =~= alerts_fields());
    }
    fields
}

/// The Twitch Chat settings panel, as data.
pub open spec fn chat_fields() -> Seq<FieldV> {
    seq![
        plain_v("message_template"@, "Message Template"@, Some("Format: {badges} {pronouns} {user}: {message}"@), KindV::Text, DefaultView::Text("{badges} {pronouns} {user}: {message}"@)),
        plain_v("chat_animation"@, "Entrance Animation"@, Some("Choose how messages appear."@), KindV::Select(seq!["Slide"@, "Fade"@, "Pop"@, "Bounce"@]), DefaultView::Text("Slide"@)),
        plain_v("chat_frame_style"@, "Frame Style"@, Some("Add decorative elements to messages."@), KindV::Select(seq!["None"@, "Glass"@, "Neon"@, "Retro"@]), DefaultView::Text("None"@)),
        plain_v("chat_background_blur"@, "Background Blur (px)"@, Some("Glass-morphism effect intensity."@), KindV::Number, DefaultView::Int(0)),
        plain_v("show_pronouns"@, "Show Pronouns"@, None, KindV::Boolean, DefaultView::Bool(true)),
        plain_v("show_badges"@, "Show Badges"@, None, KindV::Boolean, DefaultView::Bool(true)),
        plain_v("max_messages"@, "Max Messages"@, None, KindV::Number, DefaultView::Int(50)),
        action_v("test_chat"@, "Test Chat"@, None, "Simulate Message"@, "test_msg"@),
    ]
}

/// The Twitch Chat settings panel.
fn chat_field_list() -> (fields: Vec<SettingField>)
    ensures
        fields_view(fields@) == chat_fields(),
{
    let f0 = plain_field("message_template", "Message Template", Some("Format: {badges} {pronouns} {user}: {message}"), SettingFieldType::Text, text_default("{badges} {pronouns} {user}: {message}"));
    let o1 = vec![text("Slide"), text("Fade"), text("Pop"), text("Bounce")];
    proof {
        assert(o1@.map_values(|o: String| o@) =~= seq!["Slide"@, "Fade"@, "Pop"@, "Bounce"@]);
    }
    let f1 = plain_field("chat_animation", "Entrance Animation", Some("Choose how messages appear."), SettingFieldType::Select { options: o1 }, text_default("Slide"));
    let o2 = vec![text("None"), text("Glass"), text("Neon"), text("Retro")];
    proof {
        assert(o2@.map_values(|o: String| o@) =~= seq!["None"@, "Glass"@, "Neon"@, "Retro"@]);
    }
    let f2 = plain_field("chat_frame_style", "Frame Style", Some("Add decorative elements to messages."), SettingFieldType::Select { options: o2 }, text_default("None"));
    let f3 = plain_field("chat_background_blur", "Background Blur (px)", Some("Glass-morphism effect intensity."), SettingFieldType::Number, SettingValue::Int(0));
    let f4 = plain_field("show_pronouns", "Show Pronouns", None, SettingFieldType::Boolean, SettingValue::Bool(true));
    let f5 = plain_field("show_badges", "Show Badges", None, SettingFieldType::Boolean, SettingValue::Bool(true));
    let f6 = plain_field("max_messages", "Max Messages", None, SettingFieldType::Number, SettingValue::Int(50));
    let f7 = action_field("test_chat", "Test Chat", None, "Simulate Message", "test_msg");
    let fields = vec![f0, f1, f2, f3, f4, f5, f6, f7];
    proof {
        assert(fields_view(fields@) =~= chat_fields());
    }
    fields
}

/// The Twitch Hype Train settings panel, as data.
pub open spec fn hype_train_fields() -> Seq<FieldV> {
    seq![
        plain_v("inactive_title"@, "Overlay Title"@, None, KindV::Text, DefaultView::Text("Hype Train"@)),
        plain_v("active_title"@, "Active Title"@, None, KindV::Text, DefaultView::Text("Hype Train Active!"@)),
        action_v("test_action"@, "Test Overlay"@, None, "Test Hype Train"@, "test_hype_train"@),
    ]
}

/// The Twitch Hype Train settings panel.
fn hype_train_field_list() -> (fields: Vec<SettingField>)
    ensures
        fields_view(fields@) == hype_train_fields(),
{
    let f0 = plain_field("inactive_title", "Overlay Title", None, SettingFieldType::Text, text_default("Hype Train"));
    let f1 = plain_field("active_title", "Active Title", None, SettingFieldType::Text, text_default("Hype Train Active!"));
    let f2 = action_field("test_action", "Test Overlay", None, "Test Hype Train", "test_hype_train");
    let fields = vec![f0, f1, f2];
    proof {
        assert(fields_view(fields@) =~= hype_train_fields());
    }
    fields
}

/// The Bit Triggers settings panel, as data.
pub open spec fn bit_triggers_fields() -> Seq<FieldV> {
    seq![
        plain_v("enable"@, "Enable Bit Triggers"@, Some("Trigger overlay visual effects when viewers cheer bits"@), KindV::Boolean, DefaultView::Bool(true)),
        plain_v("glow_threshold"@, "Glow Effect Threshold (Bits)"@, Some("Minimum bits to trigger a glow effect"@), KindV::Number, DefaultView::Int(100)),
        plain_v("glitch_threshold"@, "Glitch Effect Threshold (Bits)"@, Some("Minimum bits to trigger a glitch effect"@), KindV::Number, DefaultView::Int(500)),
        plain_v("chaos_threshold"@, "Chaos Mode Threshold (Bits)"@, Some("Minimum bits to trigger both glow and glitch effects for 10s"@), KindV::Number, DefaultView::Int(1000)),
        action_v("action_simulate_glow"@, "Simulate Glow Effect"@, Some("Test the Glow overlay animation"@), "Test Glow"@, "simulate_glow"@),
        action_v("action_simulate_glitch"@, "Simulate Glitch Effect"@, Some("Test the Glitch overlay animation"@), "Test Glitch"@, "simulate_glitch"@),
        action_v("action_simulate_chaos"@, "Simulate Chaos Mode"@, Some("Test both Glow and Glitch animations together"@), "Test Chaos"@, "simulate_chaos"@),
    ]
}

/// The Bit Triggers settings panel.
fn bit_triggers_field_list() -> (fields: Vec<SettingField>)
    ensures
        fields_view(fields@) == bit_triggers_fields(),
{
    let f0 = plain_field("enable", "Enable Bit Triggers", Some("Trigger overlay visual effects when viewers cheer bits"), SettingFieldType::Boolean, SettingValue::Bool(true));
    let f1 = plain_field("glow_threshold", "Glow Effect Threshold (Bits)", Some("Minimum bits to trigger a glow effect"), SettingFieldType::Number, SettingValue::Int(100));
    let f2 = plain_field("glitch_threshold", "Glitch Effect Threshold (Bits)", Some("Minimum bits to trigger a glitch effect"), SettingFieldType::Number, SettingValue::Int(500));
    let f3 = plain_field("chaos_threshold", "Chaos Mode Threshold (Bits)", Some("Minimum bits to trigger both glow and glitch effects for 10s"), SettingFieldType::Number, SettingValue::Int(1000));
    let f4 = action_field("action_simulate_glow", "Simulate Glow Effect", Some("Test the Glow overlay animation"), "Test Glow", "simulate_glow");
    let f5 = action_field("action_simulate_glitch", "Simulate Glitch Effect", Some("Test the Glitch overlay animation"), "Test Glitch", "simulate_glitch");
    let f6 = action_field("action_simulate_chaos", "Simulate Chaos Mode", Some("Test both Glow and Glitch animations together"), "Test Chaos", "simulate_chaos");
    let fields = vec![f0, f1, f2, f3, f4, f5, f6];
    proof {
        assert(fields_view(fields@) =~= bit_triggers_fields());
    }
    fields
}

/// The Talk-Back Avatar settings panel, as data.
pub open spec fn avatar_fields() -> Seq<FieldV> {
    seq![
        plain_v("enable"@, "Enable Talk-Back Avatar"@, Some("Turn the microphone-reactive avatar overlay on or off"@), KindV::Boolean, DefaultView::Bool(true)),
        plain_v("sensitivity"@, "Microphone Sensitivity"@, Some("Amplification multiplier for your microphone level"@), KindV::Number, DefaultView::Decimal(15, 1)),
        plain_v("speaking_threshold"@, "Speaking Threshold (Noise Gate)"@, Some("Volume level required to trigger active animations"@), KindV::Number, DefaultView::Int(10)),
        plain_v("bounce_height"@, "Bounce Height (Pixels)"@, Some("Maximum height the avatar will bounce up in pixels"@), KindV::Number, DefaultView::Int(20)),
        plain_v("avatar_style"@, "Avatar Animation Style"@, Some("Select the visual response style when speaking"@), KindV::Select(seq!["Bounce"@, "Scale"@, "Mouth-Open"@]), DefaultView::Text("Bounce"@)),
        plain_v("avatar_color"@, "Idle Avatar Color"@, Some("CSS hex color for the idle vector robot mascot"@), KindV::Text, DefaultView::Text("#8b5cf6"@)),
        plain_v("speaking_color"@, "Speaking Glow Color"@, Some("CSS hex color for the active glow effect"@), KindV::Text, DefaultView::Text("#ff007f"@)),
        plain_v("custom_image_url"@, "Custom PNG Avatar Image URL"@, Some("Optional URL to a custom PNG/GIF avatar image"@), KindV::Text, DefaultView::Text(""@)),
    ]
}

/// The Talk-Back Avatar settings panel.
fn avatar_field_list() -> (fields: Vec<SettingField>)
    ensures
        fields_view(fields@) == avatar_fields(),
{
    let f0 = plain_field("enable", "Enable Talk-Back Avatar", Some("Turn the microphone-reactive avatar overlay on or off"), SettingFieldType::Boolean, SettingValue::Bool(true));
    let f1 = plain_field("sensitivity", "Microphone Sensitivity", Some("Amplification multiplier for your microphone level"), SettingFieldType::Number, SettingValue::Decimal { units: 15, scale: 1 });
    let f2 = plain_field("speaking_threshold", "Speaking Threshold (Noise Gate)", Some("Volume level required to trigger active animations"), SettingFieldType::Number, SettingValue::Int(10));
    let f3 = plain_field("bounce_height", "Bounce Height (Pixels)", Some("Maximum height the avatar will bounce up in pixels"), SettingFieldType::Number, SettingValue::Int(20));
    let o4 = vec![text("Bounce"), text("Scale"), text("Mouth-Open")];
    proof {
        assert(o4@.map_values(|o: String| o@) =~= seq!["Bounce"@, "Scale"@, "Mouth-Open"@]);
    }
    let f4 = plain_field("avatar_style", "Avatar Animation Style", Some("Select the visual response style when speaking"), SettingFieldType::Select { options: o4 }, text_default("Bounce"));
    let f5 = plain_field("avatar_color", "Idle Avatar Color", Some("CSS hex color for the idle vector robot mascot"), SettingFieldType::Text, text_default("#8b5cf6"));
    let f6 = plain_field("speaking_color", "Speaking Glow Color", Some("CSS hex color for the active glow effect"), SettingFieldType::Text, text_default("#ff007f"));
    let f7 = plain_field("custom_image_url", "Custom PNG Avatar Image URL", Some("Optional URL to a custom PNG/GIF avatar image"), SettingFieldType::Text, text_default(""));
    let fields = vec![f0, f1, f2, f3, f4, f5, f6, f7];
    proof {
        assert(fields_view(fields@) =~= avatar_fields());
    }
    fields
}

/// The Twitch account settings panel, as data.
pub open spec fn twitch_fields() -> Seq<FieldV> {
    seq![
        plain_v("client_id"@, "Twitch Client ID"@, Some("Required: Your Twitch Developer application Client ID."@), KindV::Text, DefaultView::Text("j58sbgcd48oeuzt7tmxgb0ktkdtxfe"@)),
        action_v("link_action"@, "Twitch Integration"@, Some("Link your Twitch account to enable chat and stream features."@), "Link Twitch"@, "link"@),
    ]
}

/// The Twitch account settings panel.
pub(crate) fn twitch_field_list() -> (fields: Vec<SettingField>)
    ensures
        fields_view(fields@) == twitch_fields(),
{
    let f0 = plain_field("client_id", "Twitch Client ID", Some("Required: Your Twitch Developer application Client ID."), SettingFieldType::Text, text_default("j58sbgcd48oeuzt7tmxgb0ktkdtxfe"));
    let f1 = action_field("link_action", "Twitch Integration", Some("Link your Twitch account to enable chat and stream features."), "Link Twitch", "link");
    let fields = vec![f0, f1];
    proof {
        assert(fields_view(fields@) =~= twitch_fields());
    }
    fields
}

/// The Spotify account settings panel, as data.
pub open spec fn spotify_fields() -> Seq<FieldV> {
    seq![
        plain_v("client_id"@, "Custom Client ID"@, Some("Optional: Use your own Spotify Developer application Client ID."@), KindV::Text, DefaultView::Text("66bb8b83521e4034b4b7c035f09d7844"@)),
        action_v("link_action"@, "Spotify Integration"@, Some("Link your Spotify account to enable web API fallback when local pipes are unavailable."@), "Link Spotify"@, "link"@),
    ]
}

/// The Spotify account settings panel.
pub(crate) fn spotify_field_list() -> (fields: Vec<SettingField>)
    ensures
        fields_view(fields@) == spotify_fields(),
{
    let f0 = plain_field("client_id", "Custom Client ID", Some("Optional: Use your own Spotify Developer application Client ID."), SettingFieldType::Text, text_default("66bb8b83521e4034b4b7c035f09d7844"));
    let f1 = action_field("link_action", "Spotify Integration", Some("Link your Spotify account to enable web API fallback when local pipes are unavailable."), "Link Spotify", "link");
    let fields = vec![f0, f1];
    proof {
        assert(fields_view(fields@) =~= spotify_fields());
    }
    fields
}

// ---------------------------------------------------------------------------
// Shared pieces
// ---------------------------------------------------------------------------

/// The message for an action a plugin does not know.
fn unknown_action() -> (e: String)
    ensures
        e@ == "Unknown action"@,
{
    text("Unknown action")
}

/// A settings panel.
fn panel(category: PluginCategory, fields: Vec<SettingField>) -> (d: Option<
    PluginSettingsDefinition,
>)
    ensures
        d matches Some(def) && def.category == category && def.fields@ == fields@,
{
    Some(PluginSettingsDefinition { category, fields })
}

// ---------------------------------------------------------------------------
// Pomodoro
// ---------------------------------------------------------------------------

/// A timer as it starts: a paused 25-minute work phase of a 25/5/15
/// cycle with a long break every 4 sessions, none completed.
pub open spec fn fresh_timer(s: PomodoroState) -> bool {
    &&& s.phase == crate::pomodoro::PomodoroPhase::Work
    &&& s.remaining_secs == 1500
    &&& s.total_secs == 1500
    &&& !s.is_running
    &&& s.completed_sessions == 0
    &&& s.sessions_before_long_break == 4
    &&& s.work_duration_mins == 25
    &&& s.short_break_mins == 5
    &&& s.long_break_mins == 15
}

/// The actions the Pomodoro plugin carries out.
pub open spec fn pomodoro_handles(a: Seq<char>) -> bool {
    a == "toggle"@ || a == "skip"@ || a == "reset"@
}

/// The Pomodoro timer plugin; it owns the timer.
#[derive(Debug)]
pub struct PomodoroPlugin {
    pub state: PomodoroState,
}

impl PomodoroPlugin {
    /// A plugin with a fresh timer.
    pub fn new() -> (p: Self)
        ensures
            fresh_timer(p.state),
            p.state.well_formed(),
    {
        PomodoroPlugin { state: PomodoroState::default() }
    }

    pub fn id(&self) -> (s: &'static str)
        ensures
            s@ == "pomodoro"@,
    {
        "pomodoro"
    }

    pub fn name(&self) -> (s: &'static str)
        ensures
            s@ == "Pomodoro Timer"@,
    {
        "Pomodoro Timer"
    }

    /// The settings panel, under Overlay.
    pub fn settings_definition(&self) -> (d: Option<PluginSettingsDefinition>)
        ensures
            d matches Some(def) && def.category == PluginCategory::Overlay && fields_view(
                def.fields@,
            ) == pomodoro_fields(),
    {
        panel(PluginCategory::Overlay, pomodoro_field_list())
    }

    /// Carries out a settings-panel action on the timer (see
    /// `PomodoroState::handle_action`).
    pub fn handle_action(&mut self, action: &str, cfg: Option<PomodoroSettings>) -> (r: Result<
        (),
        String,
    >)
        requires
            old(self).state.well_formed(),
            old(self).state.action_ok(action@, cfg),
        ensures
            final(self).state.well_formed(),
            r is Ok <==> pomodoro_handles(action@),
            action@ == "toggle"@ ==> final(self).state == old(self).state.after_toggle(cfg),
            action@ == "skip"@ ==> final(self).state == old(self).state.after_skip(),
            action@ == "reset"@ ==> final(self).state == old(self).state.after_reset(cfg),
            r matches Err(e) ==> e@ == "Unknown pomodoro action: "@ + action@ && final(self).state
                == old(self).state,
    {
        self.state.handle_action(action, cfg)
    }
}

/// Every button of the Pomodoro panel names an action the plugin carries
/// out.
pub proof fn law_pomodoro_buttons_handled()
    ensures
        forall|i: int|
            0 <= i < offered_actions(pomodoro_fields()).len() ==> pomodoro_handles(
                #[trigger] offered_actions(pomodoro_fields())[i],
            ),
{
    reveal_with_fuel(offered_actions, 8);
    assert(offered_actions(pomodoro_fields()) =~= seq!["toggle"@, "skip"@, "reset"@]);
}

// ---------------------------------------------------------------------------
// Stream goals
// ---------------------------------------------------------------------------

/// What a Stream Goals action asks for.
#[derive(Debug)]
pub enum GoalsAction {
    /// Zero every session counter.
    ResetSession,
    /// Apply `op` ("increment", "decrement" or "reset_var") to the custom
    /// variable `name`.
    CustomVar { op: String, name: String },
}

pub enum GoalsActionV {
    ResetSession,
    CustomVar { op: Seq<char>, name: Seq<char> },
}

impl View for GoalsAction {
    type V = GoalsActionV;

    open spec fn view(&self) -> GoalsActionV {
        match self {
            GoalsAction::ResetSession => GoalsActionV::ResetSession,
            GoalsAction::CustomVar { op, name } => GoalsActionV::CustomVar { op: op@, name: name@ },
        }
    }
}

/// The position of the first `c` in `s`.
pub open spec fn first_index_of(s: Seq<char>, c: char) -> Option<int>
    decreases s.len(),
{
    if s.len() == 0 {
        None
    } else if s[0] == c {
        Some(0)
    } else {
        match first_index_of(s.skip(1), c) {
            Some(i) => Some(i + 1),
            None => None,
        }
    }
}

/// The Stream Goals action named `a`: "reset_session", or
/// "<op>:<variable>" split at the first colon, for the three variable
/// operations.
pub open spec fn goals_action_of(a: Seq<char>) -> Option<GoalsActionV> {
    if a == "reset_session"@ {
        Some(GoalsActionV::ResetSession)
    } else {
        match first_index_of(a, ':') {
            Some(i) => {
                let op = a.take(i);
                if op == "increment"@ || op == "decrement"@ || op == "reset_var"@ {
                    Some(GoalsActionV::CustomVar { op, name: a.skip(i + 1) })
                } else {
                    None
                }
            },
            None => None,
        }
    }
}

proof fn lemma_first_index_of(s: Seq<char>, c: char, i: int)
    requires
        0 <= i <= s.len(),
        forall|j: int| 0 <= j < i ==> #[trigger] s[j] != c,
    ensures
        i < s.len() && s[i] == c ==> first_index_of(s, c) == Some(i),
        i == s.len() ==> first_index_of(s, c) is None,
    decreases i,
{
    if i > 0 {
        lemma_first_index_of(s.skip(1), c, i - 1);
    }
}

fn first_colon(s: &Vec<char>) -> (r: Option<usize>)
    ensures
        match first_index_of(s@, ':') {
            Some(i) => r matches Some(j) && j as int == i,
            None => r is None,
        },
        r matches Some(i) ==> i < s@.len(),
{
    let mut i: usize = 0;
    while i < s.len()
        invariant
            i <= s@.len(),
            forall|j: int| 0 <= j < i ==> #[trigger] s@[j] != ':',
        decreases s@.len() - i,
    {
        if s[i] == ':' {
            proof {
                lemma_first_index_of(s@, ':', i as int);
            }
            return Some(i);
        }
        i = i + 1;
    }
    proof {
        lemma_first_index_of(s@, ':', i as int);
    }
    None
}

/// The Stream Goals plugin.
#[derive(Debug)]
pub struct StreamGoalsPlugin {}

impl StreamGoalsPlugin {
    pub fn new() -> (p: Self) {
        StreamGoalsPlugin {  }
    }

    pub fn id(&self) -> (s: &'static str)
        ensures
            s@ == "stream_goals"@,
    {
        "stream_goals"
    }

    pub fn name(&self) -> (s: &'static str)
        ensures
            s@ == "Stream Goals"@,
    {
        "Stream Goals"
    }

    /// The settings panel, under Overlay.
    pub fn settings_definition(&self) -> (d: Option<PluginSettingsDefinition>)
        ensures
            d matches Some(def) && def.category == PluginCategory::Overlay && fields_view(
                def.fields@,
            ) == stream_goals_fields(),
    {
        panel(PluginCategory::Overlay, stream_goals_field_list())
    }

    /// Reads a settings-panel action; an unknown one is refused with
    /// "Unknown stream_goals action: <name>".
    pub fn handle_action(&self, action: &str) -> (r: Result<GoalsAction, String>)
        ensures
            match goals_action_of(action@) {
                Some(v) => r matches Ok(x) && x@ == v,
                None => r matches Err(e) && e@ == "Unknown stream_goals action: "@ + action@,
            },
    {
        let a = chars_of(action);
        if equals_str(&a, "reset_session") {
            return Ok(GoalsAction::ResetSession);
        }
        match first_colon(&a) {
            Some(i) => {
                let op = crate::text::head_to(&a, i);
                if equals_str(&op, "increment") || equals_str(&op, "decrement") || equals_str(
                    &op,
                    "reset_var",
                ) {
                    let name = crate::text::tail_from(&a, i + 1);
                    return Ok(GoalsAction::CustomVar { op: string_of(&op), name: string_of(&name) });
                }
            },
            None => {},
        }
        let mut msg: Vec<char> = Vec::new();
        push_str(&mut msg, "Unknown stream_goals action: ");
        push_str(&mut msg, action);
        proof {
            assert(msg@ =~= "Unknown stream_goals action: "@ + action@);
        }
        Err(string_of(&msg))
    }
}

/// The Reset Session button names an action the plugin carries out.
pub proof fn law_stream_goals_buttons_handled()
    ensures
        forall|i: int|
            0 <= i < offered_actions(stream_goals_fields()).len() ==> goals_action_of(
                #[trigger] offered_actions(stream_goals_fields())[i],
            ) is Some,
{
    reveal_with_fuel(offered_actions, 2);
    assert(offered_actions(stream_goals_fields()) =~= seq!["reset_session"@]);
}


// ---------------------------------------------------------------------------
// Twitch overlays
// ---------------------------------------------------------------------------

/// The Twitch alerts plugin.
#[derive(Debug)]
pub struct TwitchAlertsPlugin {}

/// The alerts that "Simulate All Alerts" shows, in order.
pub open spec fn simulated_alerts() -> Seq<AlertV> {
    seq![
        AlertV::Follow { user_name: "Entity_Alpha"@ },
        AlertV::Subscription {
            user_name: "Tauri_Dev"@,
            tier: "1000"@,
            is_gift: false,
            cumulative_months: 3,
        },
        AlertV::GiftSubscription {
            user_name: "Generous_Giver"@,
            total: 5,
            tier: "1000"@,
            is_anonymous: false,
        },
        AlertV::Raid { from_broadcaster_name: "Streamer_Bot"@, viewers: 42 },
        AlertV::Cheer {
            user_name: "Generous_Cheerer"@,
            bits: 500,
            message: "Keep up the great work! Hype!"@,
        },
    ]
}

/// The views of a list of alerts.
pub open spec fn alert_views(v: Seq<TwitchAlert>) -> Seq<AlertV> {
    v.map_values(|a: TwitchAlert| a@)
}

impl TwitchAlertsPlugin {
    pub fn new() -> (p: Self) {
        TwitchAlertsPlugin {  }
    }

    pub fn id(&self) -> (s: &'static str)
        ensures
            s@ == "twitch_alerts"@,
    {
        "twitch_alerts"
    }

    pub fn name(&self) -> (s: &'static str)
        ensures
            s@ == "Twitch Alerts"@,
    {
        "Twitch Alerts"
    }

    /// The settings panel, under Overlay.
    pub fn settings_definition(&self) -> (d: Option<PluginSettingsDefinition>)
        ensures
            d matches Some(def) && def.category == PluginCategory::Overlay && fields_view(
                def.fields@,
            ) == alerts_fields(),
    {
        panel(PluginCategory::Overlay, alerts_field_list())
    }

    /// "test_all" asks for the simulated alerts, shown two seconds apart;
    /// any other action is refused with "Unknown action".
    pub fn handle_action(&self, action: &str) -> (r: Result<Vec<TwitchAlert>, String>)
        ensures
            action@ == "test_all"@ ==> (r matches Ok(v) && alert_views(v@) == simulated_alerts()),
            action@ != "test_all"@ ==> (r matches Err(e) && e@ == "Unknown action"@),
    {
        if equals_str(&chars_of(action), "test_all") {
            let v = vec![
                TwitchAlert::Follow { user_name: text("Entity_Alpha") },
                TwitchAlert::Subscription {
                    user_name: text("Tauri_Dev"),
                    tier: text("1000"),
                    is_gift: false,
                    cumulative_months: 3,
                },
                TwitchAlert::GiftSubscription {
                    user_name: text("Generous_Giver"),
                    total: 5,
                    tier: text("1000"),
                    is_anonymous: false,
                },
                TwitchAlert::Raid { from_broadcaster_name: text("Streamer_Bot"), viewers: 42 },
                TwitchAlert::Cheer {
                    user_name: text("Generous_Cheerer"),
                    bits: 500,
                    message: text("Keep up the great work! Hype!"),
                },
            ];
            proof {
                assert(alert_views(v@) =~= simulated_alerts());
            }
            Ok(v)
        } else {
            Err(unknown_action())
        }
    }
}

/// The Twitch chat plugin.
#[derive(Debug)]
pub struct TwitchChatPlugin {}

impl TwitchChatPlugin {
    pub fn new() -> (p: Self) {
        TwitchChatPlugin {  }
    }

    pub fn id(&self) -> (s: &'static str)
        ensures
            s@ == "twitch_chat"@,
    {
        "twitch_chat"
    }

    pub fn name(&self) -> (s: &'static str)
        ensures
            s@ == "Twitch Chat"@,
    {
        "Twitch Chat"
    }

    /// The settings panel, under Overlay.
    pub fn settings_definition(&self) -> (d: Option<PluginSettingsDefinition>)
        ensures
            d matches Some(def) && def.category == PluginCategory::Overlay && fields_view(
                def.fields@,
            ) == chat_fields(),
    {
        panel(PluginCategory::Overlay, chat_field_list())
    }

    /// "test_msg" is accepted (a test message is posted); any other action
    /// is refused with "Unknown action".
    pub fn handle_action(&self, action: &str) -> (r: Result<(), String>)
        ensures
            r is Ok <==> action@ == "test_msg"@,
            r matches Err(e) ==> e@ == "Unknown action"@,
    {
        if equals_str(&chars_of(action), "test_msg") {
            Ok(())
        } else {
            Err(unknown_action())
        }
    }
}

/// The Twitch hype train plugin.
#[derive(Debug)]
pub struct TwitchHypeTrainPlugin {}

/// The hype train that "Test Hype Train" shows: active at level 1, half way
/// to a goal of 100, with one contribution of 100 bits.
pub open spec fn simulated_train(before: crate::twitch::models::HypeTrainV) -> crate::twitch::models::HypeTrainV {
    crate::twitch::models::HypeTrainV {
        active: true,
        level: 1,
        progress: 50,
        goal: 100,
        top_contributions: seq![
            ContributionV {
                user_id: "1"@,
                user_login: "alpha"@,
                user_name: "Alpha"@,
                type_field: "BITS"@,
                total: 100,
            },
        ],
        ..before
    }
}

impl TwitchHypeTrainPlugin {
    pub fn new() -> (p: Self) {
        TwitchHypeTrainPlugin {  }
    }

    pub fn id(&self) -> (s: &'static str)
        ensures
            s@ == "twitch_hype_train"@,
    {
        "twitch_hype_train"
    }

    pub fn name(&self) -> (s: &'static str)
        ensures
            s@ == "Twitch Hype Train"@,
    {
        "Twitch Hype Train"
    }

    /// The settings panel, under Overlay.
    pub fn settings_definition(&self) -> (d: Option<PluginSettingsDefinition>)
        ensures
            d matches Some(def) && def.category == PluginCategory::Overlay && fields_view(
                def.fields@,
            ) == hype_train_fields(),
    {
        panel(PluginCategory::Overlay, hype_train_field_list())
    }

    /// "test_hype_train" puts the simulated train in place; any other
    /// action is refused with "Unknown action" and changes nothing.
    pub fn handle_action(&self, action: &str, state: &mut HypeTrainState) -> (r: Result<(), String>)
        ensures
            r is Ok <==> action@ == "test_hype_train"@,
            r is Ok ==> final(state)@ == simulated_train(old(state)@),
            r matches Err(e) ==> e@ == "Unknown action"@ && final(state)@ == old(state)@,
    {
        if equals_str(&chars_of(action), "test_hype_train") {
            state.active = true;
            state.level = 1;
            state.progress = 50;
            state.goal = 100;
            state.top_contributions = vec![
                TwitchContribution {
                    user_id: text("1"),
                    user_login: text("alpha"),
                    user_name: text("Alpha"),
                    type_field: text("BITS"),
                    total: 100,
                },
            ];
            proof {
                assert(contribution_views(state.top_contributions@) =~= seq![
                    ContributionV {
                        user_id: "1"@,
                        user_login: "alpha"@,
                        user_name: "Alpha"@,
                        type_field: "BITS"@,
                        total: 100,
                    },
                ]);
            }
            Ok(())
        } else {
            Err(unknown_action())
        }
    }
}

/// The thresholds saved for the bit triggers, each present when saved as a
/// whole number.
#[derive(Debug, Clone, Copy)]
pub struct BitThresholds {
    pub glow: Option<u64>,
    pub glitch: Option<u64>,
    pub chaos: Option<u64>,
}

/// The bits that a simulation button stands for: the saved threshold of
/// its effect, or 100, 500 and 1000 for glow, glitch and chaos.
pub open spec fn simulated_bits(a: Seq<char>, t: BitThresholds) -> Option<u64> {
    if a == "simulate_glow"@ {
        Some(
            match t.glow {
                Some(v) => v,
                None => 100,
            },
        )
    } else if a == "simulate_glitch"@ {
        Some(
            match t.glitch {
                Some(v) => v,
                None => 500,
            },
        )
    } else if a == "simulate_chaos"@ {
        Some(
            match t.chaos {
                Some(v) => v,
                None => 1000,
            },
        )
    } else {
        None
    }
}

/// The interactive bit triggers plugin.
#[derive(Debug)]
pub struct TwitchBitTriggersPlugin {}

impl TwitchBitTriggersPlugin {
    pub fn new() -> (p: Self) {
        TwitchBitTriggersPlugin {  }
    }

    pub fn id(&self) -> (s: &'static str)
        ensures
            s@ == "twitch_bit_triggers"@,
    {
        "twitch_bit_triggers"
    }

    pub fn name(&self) -> (s: &'static str)
        ensures
            s@ == "Interactive Bit Triggers"@,
    {
        "Interactive Bit Triggers"
    }

    /// The settings panel, under General.
    pub fn settings_definition(&self) -> (d: Option<PluginSettingsDefinition>)
        ensures
            d matches Some(def) && def.category == PluginCategory::General && fields_view(
                def.fields@,
            ) == bit_triggers_fields(),
    {
        panel(PluginCategory::General, bit_triggers_field_list())
    }

    /// The bits to simulate for a button; any other action is refused with
    /// "Unknown action: <name>".
    pub fn handle_action(&self, action: &str, t: BitThresholds) -> (r: Result<u64, String>)
        ensures
            match simulated_bits(action@, t) {
                Some(b) => r == Ok::<u64, String>(b),
                None => r matches Err(e) && e@ == "Unknown action: "@ + action@,
            },
    {
        let a = chars_of(action);
        if equals_str(&a, "simulate_glow") {
            Ok(
                match t.glow {
                    Some(v) => v,
                    None => 100,
                },
            )
        } else if equals_str(&a, "simulate_glitch") {
            Ok(
                match t.glitch {
                    Some(v) => v,
                    None => 500,
                },
            )
        } else if equals_str(&a, "simulate_chaos") {
            Ok(
                match t.chaos {
                    Some(v) => v,
                    None => 1000,
                },
            )
        } else {
            let mut msg: Vec<char> = Vec::new();
            push_str(&mut msg, "Unknown action: ");
            push_str(&mut msg, action);
            proof {
                assert(msg@ =~= "Unknown action: "@ + action@);
            }
            Err(string_of(&msg))
        }
    }
}

/// Every button of the bit triggers panel names a simulation the plugin
/// carries out, whatever the thresholds.
pub proof fn law_bit_trigger_buttons_handled(t: BitThresholds)
    ensures
        forall|i: int|
            0 <= i < offered_actions(bit_triggers_fields()).len() ==> simulated_bits(
                #[trigger] offered_actions(bit_triggers_fields())[i],
                t,
            ) is Some,
{
    reveal_with_fuel(offered_actions, 8);
    assert(offered_actions(bit_triggers_fields()) =~= seq![
        "simulate_glow"@,
        "simulate_glitch"@,
        "simulate_chaos"@,
    ]);
}

/// The buttons of the alerts, chat and hype train panels name the one
/// action each of those plugins carries out.
pub proof fn law_overlay_buttons_handled()
    ensures
        offered_actions(alerts_fields()) == seq!["test_all"@],
        offered_actions(chat_fields()) == seq!["test_msg"@],
        offered_actions(hype_train_fields()) == seq!["test_hype_train"@],
{
    reveal_with_fuel(offered_actions, 16);
    assert(offered_actions(alerts_fields()) =~= seq!["test_all"@]);
    assert(offered_actions(chat_fields()) =~= seq!["test_msg"@]);
    assert(offered_actions(hype_train_fields()) =~= seq!["test_hype_train"@]);
}

// ---------------------------------------------------------------------------
// Avatar and native media
// ---------------------------------------------------------------------------

/// The talk-back avatar plugin.
#[derive(Debug)]
pub struct AvatarPlugin {}

impl AvatarPlugin {
    pub fn new() -> (p: Self) {
        AvatarPlugin {  }
    }

    pub fn id(&self) -> (s: &'static str)
        ensures
            s@ == "avatar"@,
    {
        "avatar"
    }

    pub fn name(&self) -> (s: &'static str)
        ensures
            s@ == "Talk-Back Avatar"@,
    {
        "Talk-Back Avatar"
    }

    /// The settings panel, under Overlay.
    pub fn settings_definition(&self) -> (d: Option<PluginSettingsDefinition>)
        ensures
            d matches Some(def) && def.category == PluginCategory::Overlay && fields_view(
                def.fields@,
            ) == avatar_fields(),
    {
        panel(PluginCategory::Overlay, avatar_field_list())
    }
}

/// The MPRIS media source (Linux).
#[derive(Debug)]
pub struct LocalMprisProvider {}

impl LocalMprisProvider {
    pub fn new() -> (p: Self) {
        LocalMprisProvider {  }
    }
}

/// The system media transport controls source (Windows).
#[derive(Debug)]
pub struct LocalSmtcProvider {}

impl LocalSmtcProvider {
    pub fn new() -> (p: Self) {
        LocalSmtcProvider {  }
    }
}

/// The media source of the operating system.
#[derive(Debug)]
pub enum NativeProvider {
    Mpris(LocalMprisProvider),
    Smtc(LocalSmtcProvider),
}

/// Whether `os` (as `std::env::consts::OS` names it) has a native media
/// source.
pub open spec fn os_supported(os: Seq<char>) -> bool {
    os == "linux"@ || os == "windows"@
}

/// The native media source for the operating system named `os`: MPRIS on
/// "linux", SMTC on "windows".
pub fn create_native_provider(os: &str) -> (r: NativeProvider)
    requires
        os_supported(os@),
    ensures
        os@ == "linux"@ <==> r matches NativeProvider::Mpris(_),
        os@ == "windows"@ <==> r matches NativeProvider::Smtc(_),
{
    let o = chars_of(os);
    proof {
        reveal_strlit("linux");
        reveal_strlit("windows");
        assert("linux"@.len() != "windows"@.len());
    }
    if equals_str(&o, "linux") {
        NativeProvider::Mpris(LocalMprisProvider::new())
    } else {
        NativeProvider::Smtc(LocalSmtcProvider::new())
    }
}

/// The native media plugin: it feeds the operating system's media source.
#[derive(Debug)]
pub struct NativeMediaPlugin {}

impl NativeMediaPlugin {
    pub fn new() -> (p: Self) {
        NativeMediaPlugin {  }
    }

    pub fn id(&self) -> (s: &'static str)
        ensures
            s@ == "native_media"@,
    {
        "native_media"
    }

    pub fn name(&self) -> (s: &'static str)
        ensures
            s@ == "Native Media"@,
    {
        "Native Media"
    }

    /// The plugin has no settings panel.
    pub fn settings_definition(&self) -> (d: Option<PluginSettingsDefinition>)
        ensures
            d is None,
    {
        None
    }

    /// The media source for `os` (see `create_native_provider`).
    pub fn media_provider(&self, os: &str) -> (r: Option<NativeProvider>)
        requires
            os_supported(os@),
        ensures
            r matches Some(p) && (os@ == "linux"@ <==> p matches NativeProvider::Mpris(_)),
    {
        Some(create_native_provider(os))
    }
}


// ---------------------------------------------------------------------------
// Twitch account
// ---------------------------------------------------------------------------

/// The Twitch application used unless the settings name another.
pub open spec fn twitch_default_client() -> Seq<char> {
    "j58sbgcd48oeuzt7tmxgb0ktkdtxfe"@
}

/// The Twitch account plugin.
#[derive(Debug)]
pub struct TwitchPlugin {}

impl TwitchPlugin {
    pub fn new() -> (p: Self) {
        TwitchPlugin {  }
    }

    pub fn id(&self) -> (s: &'static str)
        ensures
            s@ == "twitch"@,
    {
        "twitch"
    }

    pub fn name(&self) -> (s: &'static str)
        ensures
            s@ == "Twitch"@,
    {
        "Twitch"
    }

    /// The settings panel, under Auth.
    pub fn settings_definition(&self) -> (d: Option<PluginSettingsDefinition>)
        ensures
            d matches Some(def) && def.category == PluginCategory::Auth && fields_view(def.fields@)
                == twitch_fields(),
    {
        panel(PluginCategory::Auth, twitch_field_list())
    }

    /// The client id in use for a saved one.
    pub fn get_active_client_id(saved: Option<String>) -> (id: String)
        ensures
            id@ == client_id_in_use(saved, twitch_default_client()),
    {
        active_client_id(saved, "j58sbgcd48oeuzt7tmxgb0ktkdtxfe")
    }

    /// "link" asks to open the authorization address for the client id in
    /// use; "unlink" asks to forget the tokens; any other action is refused
    /// with "Unknown action '<name>'".
    pub fn handle_action(&self, action: &str, saved_client_id: Option<String>) -> (r: Result<
        LinkAction,
        String,
    >)
        ensures
            action@ == "link"@ ==> (r matches Ok(LinkAction::Link(url)) && url@
                == twitch_authorize_text(client_id_in_use(saved_client_id, twitch_default_client()))),
            action@ == "unlink"@ ==> r matches Ok(LinkAction::Unlink),
            action@ != "link"@ && action@ != "unlink"@ ==> (r matches Err(e) && e@
                == "Unknown action '"@ + action@ + "'"@),
    {
        let a = chars_of(action);
        proof {
            reveal_strlit("link");
            reveal_strlit("unlink");
            assert("link"@.len() != "unlink"@.len());
        }
        if equals_str(&a, "link") {
            let ghost saved = saved_client_id;
            let client_id = TwitchPlugin::get_active_client_id(saved_client_id);
            proof {
                reveal_strlit("j58sbgcd48oeuzt7tmxgb0ktkdtxfe");
                if let Some(x) = saved {
                    if x@.len() == 0 {
                        assert(crate::oauth::blank(x@));
                    }
                }
                assert(client_id@.len() > 0);
            }
            if client_id.as_str().is_empty() {
                return Err(text("Twitch Client ID is required to initiate authentication"));
            }
            Ok(LinkAction::Link(twitch_authorize_url(client_id.as_str())))
        } else if equals_str(&a, "unlink") {
            Ok(LinkAction::Unlink)
        } else {
            let mut msg: Vec<char> = Vec::new();
            push_str(&mut msg, "Unknown action '");
            push_str(&mut msg, action);
            push_str(&mut msg, "'");
            proof {
                assert(msg@ =~= "Unknown action '"@ + action@ + "'"@);
            }
            Err(string_of(&msg))
        }
    }
}


/// The Link button of the Twitch panel names an action the plugin carries
/// out.
pub proof fn law_twitch_button_handled()
    ensures
        offered_actions(twitch_fields()) == seq!["link"@],
{
    reveal_with_fuel(offered_actions, 3);
    assert(offered_actions(twitch_fields()) =~= seq!["link"@]);
}

/// The Link button of the Spotify panel names an action the plugin carries
/// out.
pub proof fn law_spotify_button_handled()
    ensures
        offered_actions(spotify_fields()) == seq!["link"@],
{
    reveal_with_fuel(offered_actions, 3);
    assert(offered_actions(spotify_fields()) =~= seq!["link"@]);
}

// ---------------------------------------------------------------------------
// The registry
// ---------------------------------------------------------------------------

/// The plugin ids, in registration order.
pub open spec fn plugin_ids() -> Seq<Seq<char>> {
    seq![
        "spotify"@,
        "native_media"@,
        "twitch"@,
        "twitch_hype_train"@,
        "twitch_alerts"@,
        "twitch_chat"@,
        "stream_goals"@,
        "obs-websocket"@,
        "pomodoro"@,
        "twitch_bit_triggers"@,
        "discord_rpc"@,
        "avatar"@,
    ]
}

/// The registered plugin ids, in order.
pub fn registered_plugin_ids() -> (v: Vec<&'static str>)
    ensures
        v@.map_values(|s: &'static str| s@) == plugin_ids(),
{
    let v = vec![
        "spotify",
        "native_media",
        "twitch",
        "twitch_hype_train",
        "twitch_alerts",
        "twitch_chat",
        "stream_goals",
        "obs-websocket",
        "pomodoro",
        "twitch_bit_triggers",
        "discord_rpc",
        "avatar",
    ];
    proof {
        assert(v@.map_values(|s: &'static str| s@) =~= plugin_ids());
    }
    v
}

/// The position of the plugin named `id` among the registered ones (the
/// first with that id), or the error "Plugin '<id>' not found".
pub fn find_plugin(id: &str) -> (r: Result<usize, String>)
    ensures
        match r {
            Ok(i) => i < plugin_ids().len() && plugin_ids()[i as int] == id@ && forall|j: int|
                0 <= j < i ==> plugin_ids()[j] != id@,
            Err(e) => e@ == "Plugin '"@ + id@ + "' not found"@ && forall|j: int|
                0 <= j < plugin_ids().len() ==> plugin_ids()[j] != id@,
        },
{
    let ids = registered_plugin_ids();
    let key = chars_of(id);
    let mut i: usize = 0;
    while i < ids.len()
        invariant
            ids@.map_values(|s: &'static str| s@) == plugin_ids(),
            key@ == id@,
            i <= ids@.len(),
            forall|j: int| 0 <= j < i ==> plugin_ids()[j] != id@,
        decreases ids@.len() - i,
    {
        proof {
            assert(ids@.map_values(|s: &'static str| s@)[i as int] == ids@[i as int]@);
        }
        if equals_str(&key, ids[i]) {
            return Ok(i);
        }
        i = i + 1;
    }
    let mut m: Vec<char> = Vec::new();
    push_str(&mut m, "Plugin '");
    push_str(&mut m, id);
    push_str(&mut m, "' not found");
    proof {
        assert(m@ =~= "Plugin '"@ + id@ + "' not found"@);
    }
    Err(string_of(&m))
}

/// The answer of a registered plugin that carries out no actions.
pub fn no_action_handler() -> (e: String)
    ensures
        e@ == "Action handler not implemented"@,
{
    string_of(&chars_of("Action handler not implemented"))
}

} // verus!
