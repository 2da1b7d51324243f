//! Discord Rich Presence: the worker's decisions. The worker keeps the
//! latest playback and alert, decides when to (re)connect, and chooses the
//! activity to show; the IPC calls themselves are made by the caller.
use vstd::prelude::*;
use crate::models::{
    plain_v, plain_field, text_default, DefaultView, FieldV, KindV, PluginCategory,
    PluginSettingsDefinition, SettingFieldType, SettingValue, fields_view,
};
use crate::playback::PlaybackState;
use crate::text::{chars_of, decimal, push_decimal, push_str, same_chars, string_of};
use crate::twitch::models::{AlertState, TwitchAlert};

verus! {

/// The Discord application used unless the settings name another.
pub open spec fn default_client_id() -> Seq<char> {
    "1246193796850454558"@
}

/// A command for the presence worker.
#[derive(Debug)]
pub enum DiscordRpcCommand {
    UpdatePlayback(PlaybackState),
    UpdateAlert(String),
    ReloadSettings,
}

/// The activity to show on Discord: its two lines, its large image and
/// that image's text, and the start and end of the track (Unix seconds).
#[derive(Debug)]
pub struct Activity {
    pub details: String,
    pub state: String,
    pub large_image: String,
    pub large_text: String,
    pub start: Option<i64>,
    pub end: Option<i64>,
}

pub struct ActivityV {
    pub details: Seq<char>,
    pub state: Seq<char>,
    pub large_image: Seq<char>,
    pub large_text: Seq<char>,
    pub start: Option<i64>,
    pub end: Option<i64>,
}

impl View for Activity {
    type V = ActivityV;

    open spec fn view(&self) -> ActivityV {
        ActivityV {
            details: self.details@,
            state: self.state@,
            large_image: self.large_image@,
            large_text: self.large_text@,
            start: self.start,
            end: self.end,
        }
    }
}

/// The worker's state. Times are milliseconds of a monotonic clock.
#[derive(Debug)]
pub struct DiscordWorker {
    pub client_id: String,
    pub enabled: bool,
    pub show_now_playing: bool,
    pub show_alerts: bool,
    pub last_playback: Option<PlaybackState>,
    pub alert_msg: Option<String>,
    pub alert_expires_at: Option<u64>,
    /// Whether an IPC client is connected.
    pub connected: bool,
    pub last_connect_attempt: Option<u64>,
}

/// The Discord settings that the worker reads, each present when saved
/// with a value of the expected kind.
#[derive(Debug)]
pub struct DiscordSettingsFields {
    pub enable: Option<bool>,
    pub show_now_playing: Option<bool>,
    pub show_alerts: Option<bool>,
    pub client_id: Option<String>,
}

/// What to do about the connection before showing an activity.
#[derive(Debug, Clone, Copy, PartialEq, Eq, Structural)]
pub enum ConnectStep {
    /// Presence is disabled: close the client if `close_client`, show
    /// nothing.
    Disabled { close_client: bool },
    /// A client is connected.
    Ready,
    /// The last attempt was under 15 seconds ago: show nothing for now.
    Wait,
    /// Try to connect now, then report with `connect_result`.
    Attempt,
}

/// Whether the last connection attempt was under 15 seconds before
/// `now` (a clock read before the attempt counts as no time passed).
pub open spec fn too_soon(last: Option<u64>, now: u64) -> bool {
    match last {
        Some(t) => (if now >= t {
            now - t
        } else {
            0
        }) < 15000,
        None => false,
    }
}

/// An option's value or a default.
pub open spec fn flag_or(o: Option<bool>, d: bool) -> bool {
    match o {
        Some(b) => b,
        None => d,
    }
}

/// Whether the alert is still shown at `now`: it is set, and has no expiry
/// or has not reached it.
pub open spec fn alert_kept(w: &DiscordWorker, now: u64) -> bool {
    w.alert_msg is Some && !(w.alert_expires_at matches Some(t) && now >= t)
}

/// The activity for a playing track: its title and artist, the album (or
/// "Now Playing") as the image text, started `progress` ago and ending when
/// the rest of the track has played (when its length is known).
pub open spec fn playing_activity(pb: &PlaybackState, now_secs: i64) -> ActivityV {
    ActivityV {
        details: "🎵 "@ + pb.title@,
        state: "by "@ + pb.artist@,
        large_image: "now_playing"@,
        large_text: if pb.album@.len() == 0 {
            "Now Playing"@
        } else {
            pb.album@
        },
        start: Some((now_secs - pb.progress_ms / 1000) as i64),
        end: if pb.duration_ms > 0 {
            Some((now_secs + (pb.duration_ms - pb.progress_ms) / 1000) as i64)
        } else {
            None
        },
    }
}

/// A fixed activity without times.
pub open spec fn still_activity(details: Seq<char>, state: Seq<char>, image: Seq<char>, text: Seq<
    char,
>) -> ActivityV {
    ActivityV { details, state, large_image: image, large_text: text, start: None, end: None }
}

/// The activity to show at `now_ms` (Unix time `now_secs`): a live alert
/// when alerts are shown, else the playback when it is shown (playing or
/// paused), else idle.
pub open spec fn activity_at(w: &DiscordWorker, now_ms: u64, now_secs: i64) -> ActivityV {
    if w.show_alerts && alert_kept(w, now_ms) {
        still_activity(
            "Twitch Alert 🔔"@,
            match w.alert_msg {
                Some(m) => m@,
                None => Seq::empty(),
            },
            "twitch_alert"@,
            "Alert!"@,
        )
    } else if w.show_now_playing && w.last_playback is Some {
        match w.last_playback {
            Some(pb) => if pb.is_playing {
                playing_activity(&pb, now_secs)
            } else {
                still_activity("Listening to Music"@, "Idle (Paused)"@, "now_playing"@, "Paused"@)
            },
            None => still_activity(Seq::empty(), Seq::empty(), Seq::empty(), Seq::empty()),
        }
    } else {
        still_activity("Panoptic Overlay Controller"@, "Idle"@, "now_playing"@, "Idle"@)
    }
}

/// The playback shown at `now_ms` runs no longer than the track: the
/// remaining time of a playing track of known length is not negative.
pub open spec fn playback_consistent(w: &DiscordWorker, now_ms: u64) -> bool {
    (w.show_now_playing && !(w.show_alerts && alert_kept(w, now_ms))) ==> match w.last_playback {
        Some(pb) => pb.is_playing && pb.duration_ms > 0 ==> pb.progress_ms <= pb.duration_ms,
        None => true,
    }
}

/// The worker before and after a step agree on everything but the alert
/// and the connection.
pub open spec fn same_settings(a: &DiscordWorker, b: &DiscordWorker) -> bool {
    &&& a.client_id@ == b.client_id@
    &&& a.enabled == b.enabled
    &&& a.show_now_playing == b.show_now_playing
    &&& a.show_alerts == b.show_alerts
    &&& a.last_playback == b.last_playback
}

fn lit(s: &str) -> (r: String)
    ensures
        r@ == s@,
{
    string_of(&chars_of(s))
}

fn still(details: &str, state: &str, image: &str, text: &str) -> (a: Activity)
    ensures
        a@ == still_activity(details@, state@, image@, text@),
{
    Activity {
        details: lit(details),
        state: lit(state),
        large_image: lit(image),
        large_text: lit(text),
        start: None,
        end: None,
    }
}

impl DiscordWorker {
    /// A worker for `client_id`: everything shown, nothing known yet, not
    /// connected.
    pub fn new(client_id: String) -> (w: Self)
        ensures
            w.client_id@ == client_id@,
            w.enabled && w.show_now_playing && w.show_alerts,
            w.last_playback is None,
            w.alert_msg is None && w.alert_expires_at is None,
            !w.connected && w.last_connect_attempt is None,
    {
        DiscordWorker {
            client_id,
            enabled: true,
            show_now_playing: true,
            show_alerts: true,
            last_playback: None,
            alert_msg: None,
            alert_expires_at: None,
            connected: false,
            last_connect_attempt: None,
        }
    }

    /// Applies saved settings (none saved changes nothing): each flag
    /// defaults to on, the client id to the default application. A new
    /// client id drops the connection; returns whether to close the client.
    pub fn load_config(&mut self, cfg: Option<DiscordSettingsFields>) -> (close: bool)
        ensures
            match cfg {
                None => *final(self) == *old(self) && !close,
                Some(c) => {
                    let id = match c.client_id {
                        Some(s) => s@,
                        None => default_client_id(),
                    };
                    &&& final(self).enabled == flag_or(c.enable, true)
                    &&& final(self).show_now_playing == flag_or(c.show_now_playing, true)
                    &&& final(self).show_alerts == flag_or(c.show_alerts, true)
                    &&& final(self).client_id@ == id
                    &&& close == (id != old(self).client_id@ && old(self).connected)
                    &&& final(self).connected == (old(self).connected && id == old(self).client_id@)
                    &&& final(self).last_playback == old(self).last_playback
                    &&& final(self).alert_msg == old(self).alert_msg
                    &&& final(self).alert_expires_at == old(self).alert_expires_at
                    &&& final(self).last_connect_attempt == old(self).last_connect_attempt
                },
            },
    {
        match cfg {
            None => false,
            Some(c) => {
                self.enabled = match c.enable {
                    Some(b) => b,
                    None => true,
                };
                self.show_now_playing = match c.show_now_playing {
                    Some(b) => b,
                    None => true,
                };
                self.show_alerts = match c.show_alerts {
                    Some(b) => b,
                    None => true,
                };
                let id = match c.client_id {
                    Some(s) => s,
                    None => lit("1246193796850454558"),
                };
                if !same_chars(&chars_of(id.as_str()), &chars_of(self.client_id.as_str())) {
                    self.client_id = id;
                    let close = self.connected;
                    self.connected = false;
                    close
                } else {
                    false
                }
            },
        }
    }

    /// Decides what to do about the connection at `now_ms`: nothing is
    /// shown while disabled (an open client is closed); a connected client
    /// is used; otherwise a new attempt is made at most every 15 seconds.
    pub fn connect_step(&mut self, now_ms: u64) -> (step: ConnectStep)
        ensures
            same_settings(old(self), final(self)),
            final(self).alert_msg == old(self).alert_msg,
            final(self).alert_expires_at == old(self).alert_expires_at,
            !old(self).enabled ==> step == (ConnectStep::Disabled { close_client: old(self).connected })
                && !final(self).connected
                && final(self).last_connect_attempt == old(self).last_connect_attempt,
            old(self).enabled && old(self).connected ==> step == ConnectStep::Ready
                && final(self).connected
                && final(self).last_connect_attempt == old(self).last_connect_attempt,
            old(self).enabled && !old(self).connected && too_soon(
                old(self).last_connect_attempt,
                now_ms,
            ) ==> step == ConnectStep::Wait && !final(self).connected
                && final(self).last_connect_attempt == old(self).last_connect_attempt,
            old(self).enabled && !old(self).connected && !too_soon(
                old(self).last_connect_attempt,
                now_ms,
            ) ==> step == ConnectStep::Attempt && !final(self).connected
                && final(self).last_connect_attempt == Some(now_ms),
    {
        if !self.enabled {
            let close = self.connected;
            self.connected = false;
            return ConnectStep::Disabled { close_client: close };
        }
        if self.connected {
            return ConnectStep::Ready;
        }
        match self.last_connect_attempt {
            Some(t) => {
                if now_ms.saturating_sub(t) < 15000 {
                    return ConnectStep::Wait;
                }
            },
            None => {},
        }
        self.last_connect_attempt = Some(now_ms);
        ConnectStep::Attempt
    }

    /// Records the outcome of a connection attempt.
    pub fn connect_result(&mut self, ok: bool)
        ensures
            final(self).connected == ok,
            same_settings(old(self), final(self)),
            final(self).alert_msg == old(self).alert_msg,
            final(self).alert_expires_at == old(self).alert_expires_at,
            final(self).last_connect_attempt == old(self).last_connect_attempt,
    {
        self.connected = ok;
    }

    /// Records a failed `set_activity`: the client is dropped.
    pub fn activity_failed(&mut self)
        ensures
            !final(self).connected,
            same_settings(old(self), final(self)),
            final(self).alert_msg == old(self).alert_msg,
            final(self).alert_expires_at == old(self).alert_expires_at,
            final(self).last_connect_attempt == old(self).last_connect_attempt,
    {
        self.connected = false;
    }

    /// Keeps the latest playback.
    pub fn update_playback(&mut self, pb: PlaybackState)
        ensures
            final(self).last_playback == Some(pb),
            final(self).client_id@ == old(self).client_id@,
            final(self).enabled == old(self).enabled,
            final(self).show_now_playing == old(self).show_now_playing,
            final(self).show_alerts == old(self).show_alerts,
            final(self).alert_msg == old(self).alert_msg,
            final(self).alert_expires_at == old(self).alert_expires_at,
            final(self).connected == old(self).connected,
            final(self).last_connect_attempt == old(self).last_connect_attempt,
    {
        self.last_playback = Some(pb);
    }

    /// Shows `msg` for five seconds from `now_ms`.
    pub fn update_alert(&mut self, msg: String, now_ms: u64)
        requires
            now_ms <= u64::MAX - 5000,
        ensures
            final(self).alert_msg == Some(msg),
            final(self).alert_expires_at == Some((now_ms + 5000) as u64),
            same_settings(old(self), final(self)),
            final(self).connected == old(self).connected,
            final(self).last_connect_attempt == old(self).last_connect_attempt,
    {
        self.alert_msg = Some(msg);
        self.alert_expires_at = Some(now_ms + 5000);
    }

    /// Whether a quiet second calls for a refresh: to retry a connection
    /// while enabled, or to let an alert run out.
    pub fn wants_refresh(&self) -> (b: bool)
        ensures
            b == ((!self.connected && self.enabled) || self.alert_expires_at is Some),
    {
        (!self.connected && self.enabled) || self.alert_expires_at.is_some()
    }

    /// With a connected client, at `now_ms` (Unix time `now_secs`): drops an
    /// alert that has run out and returns the activity to show.
    pub fn next_activity(&mut self, now_ms: u64, now_secs: i64) -> (a: Activity)
        requires
            0 <= now_secs <= 0x3fff_ffff_ffff_ffff,
            playback_consistent(old(self), now_ms),
        ensures
            same_settings(old(self), final(self)),
            final(self).connected == old(self).connected,
            final(self).last_connect_attempt == old(self).last_connect_attempt,
            (old(self).alert_expires_at matches Some(t) && now_ms >= t) ==> final(self).alert_msg
                is None && final(self).alert_expires_at is None,
            !(old(self).alert_expires_at matches Some(t) && now_ms >= t) ==> final(self).alert_msg
                == old(self).alert_msg && final(self).alert_expires_at == old(
                self,
            ).alert_expires_at,
            a@ == activity_at(old(self), now_ms, now_secs),
    {
        match self.alert_expires_at {
            Some(t) => {
                if now_ms >= t {
                    self.alert_msg = None;
                    self.alert_expires_at = None;
                }
            },
            None => {},
        }
        if self.show_alerts && self.alert_msg.is_some() {
            let msg = match &self.alert_msg {
                Some(m) => lit(m.as_str()),
                None => String::new(),
            };
            return Activity {
                details: lit("Twitch Alert 🔔"),
                state: msg,
                large_image: lit("twitch_alert"),
                large_text: lit("Alert!"),
                start: None,
                end: None,
            };
        }
        if self.show_now_playing {
            match &self.last_playback {
                Some(pb) => {
                    if pb.is_playing {
                        let mut details: Vec<char> = Vec::new();
                        push_str(&mut details, "🎵 ");
                        push_str(&mut details, pb.title.as_str());
                        let mut state: Vec<char> = Vec::new();
                        push_str(&mut state, "by ");
                        push_str(&mut state, pb.artist.as_str());
                        let elapsed: i64 = (pb.progress_ms / 1000) as i64;
                        let start = now_secs - elapsed;
                        let end = if pb.duration_ms > 0 {
                            let remaining: i64 = ((pb.duration_ms - pb.progress_ms) / 1000) as i64;
                            Some(now_secs + remaining)
                        } else {
                            None
                        };
                        let album = if pb.album.as_str().is_empty() {
                            lit("Now Playing")
                        } else {
                            lit(pb.album.as_str())
                        };
                        return Activity {
                            details: string_of(&details),
                            state: string_of(&state),
                            large_image: lit("now_playing"),
                            large_text: album,
                            start: Some(start),
                            end,
                        };
                    } else {
                        return still("Listening to Music", "Idle (Paused)", "now_playing", "Paused");
                    }
                },
                None => {},
            }
        }
        still("Panoptic Overlay Controller", "Idle", "now_playing", "Idle")
    }
}

/// The one-line summary of an alert shown on Discord.
pub open spec fn alert_summary_text(a: TwitchAlert) -> Seq<char> {
    match a {
        TwitchAlert::Follow { user_name } => user_name@ + " just followed!"@,
        TwitchAlert::Subscription { user_name, .. } => user_name@ + " subscribed!"@,
        TwitchAlert::GiftSubscription { user_name, total, .. } => user_name@ + " gifted "@
            + decimal(total as nat) + " subs!"@,
        TwitchAlert::Raid { from_broadcaster_name, viewers } => "Raid from "@
            + from_broadcaster_name@ + " ("@ + decimal(viewers as nat) + " viewers)!"@,
        TwitchAlert::Cheer { user_name, bits, .. } => user_name@ + " cheered "@ + decimal(
            bits as nat,
        ) + " bits!"@,
    }
}

/// The summary of an alert.
pub fn alert_summary(a: &TwitchAlert) -> (s: String)
    ensures
        s@ == alert_summary_text(*a),
{
    let mut v: Vec<char> = Vec::new();
    match a {
        TwitchAlert::Follow { user_name } => {
            push_str(&mut v, user_name.as_str());
            push_str(&mut v, " just followed!");
        },
        TwitchAlert::Subscription { user_name, .. } => {
            push_str(&mut v, user_name.as_str());
            push_str(&mut v, " subscribed!");
        },
        TwitchAlert::GiftSubscription { user_name, total, .. } => {
            push_str(&mut v, user_name.as_str());
            push_str(&mut v, " gifted ");
            push_decimal(&mut v, *total as u64);
            push_str(&mut v, " subs!");
        },
        TwitchAlert::Raid { from_broadcaster_name, viewers } => {
            push_str(&mut v, "Raid from ");
            push_str(&mut v, from_broadcaster_name.as_str());
            push_str(&mut v, " (");
            push_decimal(&mut v, *viewers as u64);
            push_str(&mut v, " viewers)!");
        },
        TwitchAlert::Cheer { user_name, bits, .. } => {
            push_str(&mut v, user_name.as_str());
            push_str(&mut v, " cheered ");
            push_decimal(&mut v, *bits as u64);
            push_str(&mut v, " bits!");
        },
    }
    string_of(&v)
}

/// The summary of the newest alert in the queue, when there is one.
pub fn latest_alert_summary(state: &AlertState) -> (s: Option<String>)
    ensures
        state.active_alerts@.len() == 0 ==> s is None,
        state.active_alerts@.len() > 0 ==> (s matches Some(t) && t@ == alert_summary_text(
            state.active_alerts@.last().alert,
        )),
{
    let n = state.active_alerts.len();
    if n == 0 {
        None
    } else {
        Some(alert_summary(&state.active_alerts[n - 1].alert))
    }
}

/// The Discord settings panel, as data.
pub open spec fn discord_fields() -> Seq<FieldV> {
    seq![
        plain_v(
            "enable"@,
            "Enable Discord Rich Presence"@,
            Some("Show your track info and alerts on Discord"@),
            KindV::Boolean,
            DefaultView::Bool(true),
        ),
        plain_v(
            "client_id"@,
            "Discord Application Client ID"@,
            Some("Customize to use your own Discord application assets"@),
            KindV::Text,
            DefaultView::Text(default_client_id()),
        ),
        plain_v(
            "show_now_playing"@,
            "Show Now Playing Track"@,
            Some("Display active track details on Discord"@),
            KindV::Boolean,
            DefaultView::Bool(true),
        ),
        plain_v(
            "show_alerts"@,
            "Show Stream Alerts"@,
            Some("Briefly show alerts (follows, cheers, subs) on Discord"@),
            KindV::Boolean,
            DefaultView::Bool(true),
        ),
    ]
}

/// The Discord Rich Presence plugin.
#[derive(Debug)]
pub struct DiscordRpcPlugin {
    /// Whether the worker has been started.
    pub started: bool,
}

impl DiscordRpcPlugin {
    /// A plugin whose worker has not been started.
    pub fn new() -> (p: Self)
        ensures
            !p.started,
    {
        DiscordRpcPlugin { started: false }
    }

    /// The plugin's id.
    pub fn id(&self) -> (s: &'static str)
        ensures
            s@ == "discord_rpc"@,
    {
        "discord_rpc"
    }

    /// The plugin's name.
    pub fn name(&self) -> (s: &'static str)
        ensures
            s@ == "Discord Rich Presence"@,
    {
        "Discord Rich Presence"
    }

    /// The settings panel, under General.
    pub fn settings_definition(&self) -> (d: Option<PluginSettingsDefinition>)
        ensures
            d matches Some(def) && def.category == PluginCategory::General && fields_view(
                def.fields@,
            ) == discord_fields(),
    {
        let fields = vec![
            plain_field(
                "enable",
                "Enable Discord Rich Presence",
                Some("Show your track info and alerts on Discord"),
                SettingFieldType::Boolean,
                SettingValue::Bool(true),
            ),
            plain_field(
                "client_id",
                "Discord Application Client ID",
                Some("Customize to use your own Discord application assets"),
                SettingFieldType::Text,
                text_default("1246193796850454558"),
            ),
            plain_field(
                "show_now_playing",
                "Show Now Playing Track",
                Some("Display active track details on Discord"),
                SettingFieldType::Boolean,
                SettingValue::Bool(true),
            ),
            plain_field(
                "show_alerts",
                "Show Stream Alerts",
                Some("Briefly show alerts (follows, cheers, subs) on Discord"),
                SettingFieldType::Boolean,
                SettingValue::Bool(true),
            ),
        ];
        proof {
            assert(fields_view(fields@) =~= discord_fields());
        }
        Some(PluginSettingsDefinition { category: PluginCategory::General, fields })
    }
}


/// An alert is shown only until its expiry.
pub proof fn law_alert_expires(w: &DiscordWorker, now: u64, expiry: u64)
    requires
        w.alert_expires_at == Some(expiry),
        alert_kept(w, now),
    ensures
        now < expiry,
{
}

/// On Discord a new subscription by `u` reads "`u` subscribed!", and it is
/// never announced as a follow: no follow summary, whoever followed, reads
/// like the summary of a subscription.
pub proof fn law_subscription_is_not_a_follow(
    u: String,
    v: String,
    tier: String,
    is_gift: bool,
    months: u32,
)
    ensures
        alert_summary_text(
            TwitchAlert::Subscription {
                user_name: u,
                tier,
                is_gift,
                cumulative_months: months,
            },
        ) == u@ + " subscribed!"@,
        alert_summary_text(TwitchAlert::Follow { user_name: v }) != alert_summary_text(
            TwitchAlert::Subscription { user_name: u, tier, is_gift, cumulative_months: months },
        ),
{
    reveal_strlit(" subscribed!");
    reveal_strlit(" just followed!");
    let f = v@ + " just followed!"@;
    let g = u@ + " subscribed!"@;
    if f == g {
        assert(f[f.len() - 4] == 'w');
        assert(g[g.len() - 4] == 'b');
        assert(false);
    }
}

/// The kind of an alert, as a number: follow, subscription, gift, raid,
/// cheer.
pub open spec fn alert_kind(a: TwitchAlert) -> int {
    match a {
        TwitchAlert::Follow { .. } => 0,
        TwitchAlert::Subscription { .. } => 1,
        TwitchAlert::GiftSubscription { .. } => 2,
        TwitchAlert::Raid { .. } => 3,
        TwitchAlert::Cheer { .. } => 4,
    }
}

/// The last four characters of `s`.
pub open spec fn last_four(s: Seq<char>) -> Seq<char> {
    s.subrange(s.len() - 4, s.len() as int)
}

proof fn lemma_summary_ending(a: TwitchAlert)
    ensures
        alert_summary_text(a).len() >= 4,
        last_four(alert_summary_text(a)) == (match a {
            TwitchAlert::Follow { .. } => seq!['w', 'e', 'd', '!'],
            TwitchAlert::Subscription { .. } => seq!['b', 'e', 'd', '!'],
            TwitchAlert::GiftSubscription { .. } => seq!['u', 'b', 's', '!'],
            TwitchAlert::Raid { .. } => seq!['r', 's', ')', '!'],
            TwitchAlert::Cheer { .. } => seq!['i', 't', 's', '!'],
        }),
{
    reveal_strlit(" just followed!");
    reveal_strlit(" subscribed!");
    reveal_strlit(" subs!");
    reveal_strlit(" viewers)!");
    reveal_strlit(" bits!");
    let t = alert_summary_text(a);
    let e: Seq<char> = match a {
        TwitchAlert::Follow { .. } => " just followed!"@,
        TwitchAlert::Subscription { .. } => " subscribed!"@,
        TwitchAlert::GiftSubscription { .. } => " subs!"@,
        TwitchAlert::Raid { .. } => " viewers)!"@,
        TwitchAlert::Cheer { .. } => " bits!"@,
    };
    let front = t.subrange(0, t.len() - e.len());
    assert(t =~= front + e);
    assert(last_four(t) =~= e.subrange(e.len() - 4, e.len() as int));
}

/// The Discord summary tells the kind of alert: alerts of different kinds
/// never read alike, whoever they are from.
pub proof fn law_summary_tells_the_kind(a: TwitchAlert, b: TwitchAlert)
    requires
        alert_kind(a) != alert_kind(b),
    ensures
        alert_summary_text(a) != alert_summary_text(b),
{
    lemma_summary_ending(a);
    lemma_summary_ending(b);
    if alert_summary_text(a) == alert_summary_text(b) {
        assert(last_four(alert_summary_text(a)) == last_four(alert_summary_text(b)));
        assert(last_four(alert_summary_text(a))[0] == last_four(alert_summary_text(b))[0]);
        assert(last_four(alert_summary_text(a))[1] == last_four(alert_summary_text(b))[1]);
    }
}

} // verus!
