//! The shared Twitch event manager: it holds the hype train, the alert
//! queue, the chat, the session counters and the lookup caches, and applies
//! each EventSub notification to them.
use vstd::prelude::*;
use crate::keyed::KeyedList;
use crate::text::{chars_of, decimal, equals_str, push_decimal, push_str, string_of};
use super::models::{
    badge_views, contribution_views, fragment_views, AlertState, AlertV, BadgeV, ChatBadge, ChatFragment, ChatMessageData, ChatMessageV, ChatState,
    fresh_stats, ContributionV, FragmentV, HypeTrainState, HypeTrainV, QueuedAlert, QueuedAlertV, SessionStats,
    StatsV, TwitchAlert, TwitchBroadcasterInfo, TwitchContribution,
};

verus! {

// ---------------------------------------------------------------------------
// Notification payloads, as plain values
// ---------------------------------------------------------------------------

/// A contribution listed in a hype-train notification.
#[derive(Debug)]
pub struct ContributionFields {
    pub user_id: Option<String>,
    pub user_login: Option<String>,
    pub user_name: Option<String>,
    /// The `type` of the contribution.
    pub kind: Option<String>,
    pub total: Option<u64>,
}

/// A badge listed in a chat notification.
#[derive(Debug)]
pub struct BadgeFields {
    pub set_id: Option<String>,
    pub id: Option<String>,
    pub info: Option<String>,
}

/// A fragment of a chat notification's message.
#[derive(Debug)]
pub struct FragmentFields {
    /// The `type` of the fragment.
    pub kind: Option<String>,
    pub text: Option<String>,
    /// The `emote.id` of the fragment.
    pub emote_id: Option<String>,
}

/// The fields of an EventSub notification that the manager reads, each
/// present when the notification holds a value of the expected kind there.
#[derive(Debug)]
pub struct EventFields {
    pub level: Option<u64>,
    pub total: Option<u64>,
    pub progress: Option<u64>,
    pub goal: Option<u64>,
    pub top_contributions: Option<Vec<ContributionFields>>,
    pub user_name: Option<String>,
    pub tier: Option<String>,
    pub is_gift: Option<bool>,
    pub cumulative_months: Option<u64>,
    pub is_anonymous: Option<bool>,
    pub from_broadcaster_user_name: Option<String>,
    pub viewers: Option<u64>,
    pub bits: Option<u64>,
    /// `message` when it is text (cheers).
    pub message: Option<String>,
    /// `message.text` (chat).
    pub message_text: Option<String>,
    /// `message.fragments` (chat).
    pub fragments: Option<Vec<FragmentFields>>,
    pub message_id: Option<String>,
    pub chatter_user_id: Option<String>,
    pub chatter_user_login: Option<String>,
    pub chatter_user_name: Option<String>,
    pub color: Option<String>,
    pub is_first_msg: Option<bool>,
    pub badges: Option<Vec<BadgeFields>>,
}

/// A badge set from a badges response: its id and its versions (id and
/// image URL).
#[derive(Debug)]
pub struct BadgeSetFields {
    pub set_id: Option<String>,
    pub versions: Option<Vec<(Option<String>, Option<String>)>>,
}

// ---------------------------------------------------------------------------
// Defaults
// ---------------------------------------------------------------------------

/// The text of `o`, or `d` when absent.
pub open spec fn txt(o: Option<String>, d: Seq<char>) -> Seq<char> {
    match o {
        Some(s) => s@,
        None => d,
    }
}

/// The number in `o`, or `d` when absent.
pub open spec fn num(o: Option<u64>, d: u64) -> u64 {
    match o {
        Some(v) => v,
        None => d,
    }
}

/// The flag in `o`, or `d` when absent.
pub open spec fn flag(o: Option<bool>, d: bool) -> bool {
    match o {
        Some(v) => v,
        None => d,
    }
}

/// The text of `o`, or the literal `d` when absent.
pub fn text_or(o: &Option<String>, d: &str) -> (s: String)
    ensures
        s@ == txt(*o, d@),
{
    match o {
        Some(s) => s.clone(),
        None => string_of(&chars_of(d)),
    }
}

fn num_or(o: Option<u64>, d: u64) -> (v: u64)
    ensures
        v == num(o, d),
{
    match o {
        Some(v) => v,
        None => d,
    }
}

fn flag_or(o: Option<bool>, d: bool) -> (v: bool)
    ensures
        v == flag(o, d),
{
    match o {
        Some(v) => v,
        None => d,
    }
}

// ---------------------------------------------------------------------------
// Alerts
// ---------------------------------------------------------------------------

/// The id of an alert that arrived at `now` with the random suffix `suffix`.
pub open spec fn alert_id(now: u64, suffix: u16) -> Seq<char> {
    "alert_"@ + decimal(now as nat) + "_"@ + decimal(suffix as nat)
}

/// The queue with `a` added at the end, dropping the oldest alert when
/// that leaves more than ten.
pub open spec fn queue_with(q: Seq<QueuedAlertV>, a: QueuedAlertV) -> Seq<QueuedAlertV> {
    let p = q.push(a);
    if p.len() > 10 {
        p.remove(0)
    } else {
        p
    }
}

/// The alert that a notification of type `sub_type` raises, if any.
pub open spec fn alert_for(sub_type: Seq<char>, e: EventFields) -> Option<AlertV> {
    if sub_type == "channel.follow"@ {
        Some(AlertV::Follow { user_name: txt(e.user_name, "Someone"@) })
    } else if sub_type == "channel.subscribe"@ {
        Some(
            AlertV::Subscription {
                user_name: txt(e.user_name, "Someone"@),
                tier: txt(e.tier, "1000"@),
                is_gift: flag(e.is_gift, false),
                cumulative_months: num(e.cumulative_months, 1) as u32,
            },
        )
    } else if sub_type == "channel.subscription.gift"@ {
        Some(
            AlertV::GiftSubscription {
                user_name: txt(e.user_name, "Anonymous"@),
                total: num(e.total, 1) as u32,
                tier: txt(e.tier, "1000"@),
                is_anonymous: flag(e.is_anonymous, false),
            },
        )
    } else if sub_type == "channel.raid"@ {
        Some(
            AlertV::Raid {
                from_broadcaster_name: txt(e.from_broadcaster_user_name, "Someone"@),
                viewers: num(e.viewers, 0) as u32,
            },
        )
    } else if sub_type == "channel.cheer"@ {
        Some(
            AlertV::Cheer {
                user_name: txt(e.user_name, "Anon"@),
                bits: num(e.bits, 0) as u32,
                message: txt(e.message, ""@),
            },
        )
    } else {
        None
    }
}

/// Builds the alert id `alert_<now>_<suffix>`.
pub fn make_alert_id(now: u64, suffix: u16) -> (id: String)
    ensures
        id@ == alert_id(now, suffix),
{
    let mut v: Vec<char> = Vec::new();
    push_str(&mut v, "alert_");
    push_decimal(&mut v, now);
    push_str(&mut v, "_");
    push_decimal(&mut v, suffix as u64);
    proof {
        assert(v@ =~= alert_id(now, suffix));
    }
    string_of(&v)
}

/// Adds an alert that arrived at `now` (Unix seconds) to the queue under
/// the id `alert_<now>_<suffix>`, keeping at most the ten latest when the
/// queue held no more than ten.
pub fn update_alert(state: &mut AlertState, alert: TwitchAlert, now: u64, suffix: u16)
    ensures
        final(state)@ == queue_with(
            old(state)@,
            QueuedAlertV { id: alert_id(now, suffix), alert: alert@, timestamp: now },
        ),
        old(state)@.len() <= 10 ==> final(state)@.len() <= 10,
        final(state)@.last() == (QueuedAlertV {
            id: alert_id(now, suffix),
            alert: alert@,
            timestamp: now,
        }),
{
    let id = make_alert_id(now, suffix);
    let ghost q = old(state)@;
    let queued = QueuedAlert { id, alert, timestamp: now };
    state.active_alerts.push(queued);
    proof {
        assert(state@ =~= q.push(queued@));
    }
    if state.active_alerts.len() > 10 {
        state.active_alerts.remove(0);
        proof {
            assert(state@ =~= q.push(queued@).remove(0));
        }
    }
}

// ---------------------------------------------------------------------------
// Hype train
// ---------------------------------------------------------------------------

/// A listed contribution read with defaults (empty texts, total 0,
/// truncated to `u32`).
pub open spec fn contribution_of(f: ContributionFields) -> ContributionV {
    ContributionV {
        user_id: txt(f.user_id, ""@),
        user_login: txt(f.user_login, ""@),
        user_name: txt(f.user_name, ""@),
        type_field: txt(f.kind, ""@),
        total: num(f.total, 0) as u32,
    }
}

/// The listed contributions read with defaults.
pub open spec fn contributions_of(l: Seq<ContributionFields>) -> Seq<ContributionV> {
    l.map_values(|f: ContributionFields| contribution_of(f))
}

/// The hype train after a begin or progress notification: active, with the
/// level (default 1), total (0), progress (0) and goal (100) of the
/// notification truncated to `u32`, and its contribution list when it has
/// one.
pub open spec fn hype_after_progress(h: HypeTrainV, e: EventFields) -> HypeTrainV {
    HypeTrainV {
        active: true,
        level: num(e.level, 1) as u32,
        total: num(e.total, 0) as u32,
        progress: num(e.progress, 0) as u32,
        goal: num(e.goal, 100) as u32,
        top_contributions: match e.top_contributions {
            Some(list) => contributions_of(list@),
            None => h.top_contributions,
        },
        ..h
    }
}

fn contribution_from(f: &ContributionFields) -> (c: TwitchContribution)
    ensures
        c@ == contribution_of(*f),
{
    TwitchContribution {
        user_id: text_or(&f.user_id, ""),
        user_login: text_or(&f.user_login, ""),
        user_name: text_or(&f.user_name, ""),
        type_field: text_or(&f.kind, ""),
        total: num_or(f.total, 0) as u32,
    }
}

fn contributions_from(list: &Vec<ContributionFields>) -> (out: Vec<TwitchContribution>)
    ensures
        contribution_views(out@) == contributions_of(list@),
{
    let mut out: Vec<TwitchContribution> = Vec::new();
    let n = list.len();
    let mut i: usize = 0;
    while i < n
        invariant
            n == list.len(),
            i <= n,
            contribution_views(out@) == contributions_of(list@.take(i as int)),
        decreases n - i,
    {
        let ghost prev = out@;
        let c = contribution_from(&list[i]);
        out.push(c);
        proof {
            assert(list@.take(i + 1) =~= list@.take(i as int).push(list@[i as int]));
            assert(contribution_views(out@) =~= contribution_views(prev).push(c@));
            assert(contributions_of(list@.take(i + 1)) =~= contributions_of(list@.take(i as int)).push(contribution_of(list@[i as int])));
            assert(contribution_views(out@) =~= contributions_of(list@.take(i + 1)));
        }
        i = i + 1;
    }
    proof {
        assert(list@.take(n as int) =~= list@);
    }
    out
}

// ---------------------------------------------------------------------------
// Chat
// ---------------------------------------------------------------------------

/// The image of badge `id` of set `set_id`, when the cache knows it.
pub open spec fn badge_image(
    cache: Map<Seq<char>, KeyedList<String>>,
    set_id: Seq<char>,
    id: Seq<char>,
) -> Option<Seq<char>> {
    if cache.contains_key(set_id) && cache[set_id].to_map().contains_key(id) {
        Some(cache[set_id].to_map()[id]@)
    } else {
        None
    }
}

/// A listed badge read with defaults and its image looked up.
pub open spec fn badge_of(cache: Map<Seq<char>, KeyedList<String>>, b: BadgeFields) -> BadgeV {
    BadgeV {
        set_id: txt(b.set_id, ""@),
        id: txt(b.id, ""@),
        info: txt(b.info, ""@),
        image_url: badge_image(cache, txt(b.set_id, ""@), txt(b.id, ""@)),
    }
}

/// The CDN address of emote `id`, used when the cache does not know it.
pub open spec fn emote_cdn_url(id: Seq<char>) -> Seq<char> {
    "https://static-cdn.jtvnw.net/emoticons/v2/"@ + id + "/default/dark/1.0"@
}

/// A message fragment: an emote (its image from the cache, else from the
/// CDN) when its type is "emote", else text.
pub open spec fn fragment_of(emotes: Map<Seq<char>, String>, f: FragmentFields) -> FragmentV {
    if txt(f.kind, "text"@) == "emote"@ {
        let id = txt(f.emote_id, ""@);
        FragmentV::Emote {
            id,
            text: txt(f.text, ""@),
            url: if emotes.contains_key(id) {
                emotes[id]@
            } else {
                emote_cdn_url(id)
            },
        }
    } else {
        FragmentV::Text(txt(f.text, ""@))
    }
}

/// Listed fragments read with defaults.
pub open spec fn fragments_list(emotes: Map<Seq<char>, String>, l: Seq<FragmentFields>) -> Seq<
    FragmentV,
> {
    l.map_values(|f: FragmentFields| fragment_of(emotes, f))
}

/// The fragments of a chat message; a message without a fragment list is
/// one text fragment.
pub open spec fn fragments_of(emotes: Map<Seq<char>, String>, e: EventFields) -> Seq<FragmentV> {
    match e.fragments {
        Some(fs) => fragments_list(emotes, fs@),
        None => seq![FragmentV::Text(txt(e.message_text, ""@))],
    }
}

/// Some badge of the list belongs to set `set_id`.
pub open spec fn has_badge(badges: Seq<BadgeV>, set_id: Seq<char>) -> bool {
    exists|i: int| 0 <= i < badges.len() && #[trigger] badges[i].set_id == set_id
}

/// Listed badges read with defaults and their images looked up.
pub open spec fn badges_list(cache: Map<Seq<char>, KeyedList<String>>, l: Seq<BadgeFields>) -> Seq<
    BadgeV,
> {
    l.map_values(|b: BadgeFields| badge_of(cache, b))
}

/// The badges of a chat notification.
pub open spec fn badges_of(cache: Map<Seq<char>, KeyedList<String>>, e: EventFields) -> Seq<
    BadgeV,
> {
    match e.badges {
        Some(bs) => badges_list(cache, bs@),
        None => Seq::empty(),
    }
}

/// The message that a chat notification adds, received at `now` from a
/// chatter whose pronouns are `pronouns`.
pub open spec fn chat_message_of(
    badge_cache: Map<Seq<char>, KeyedList<String>>,
    emotes: Map<Seq<char>, String>,
    e: EventFields,
    pronouns: Option<Seq<char>>,
    now: u64,
) -> ChatMessageV {
    let badges = badges_of(badge_cache, e);
    ChatMessageV {
        id: txt(e.message_id, ""@),
        user_id: txt(e.chatter_user_id, ""@),
        user_login: txt(e.chatter_user_login, ""@),
        user_name: txt(e.chatter_user_name, ""@),
        message: txt(e.message_text, ""@),
        fragments: fragments_of(emotes, e),
        color: txt(e.color, "#ffffff"@),
        pronouns,
        badges,
        is_mod: has_badge(badges, "moderator"@),
        is_sub: has_badge(badges, "subscriber"@),
        is_vip: has_badge(badges, "vip"@),
        is_broadcaster: has_badge(badges, "broadcaster"@),
        timestamp: now,
    }
}

/// The chat with `m` added at the end, dropping the oldest message when
/// that leaves more than a hundred.
pub open spec fn chat_with(c: Seq<ChatMessageV>, m: ChatMessageV) -> Seq<ChatMessageV> {
    let p = c.push(m);
    if p.len() > 100 {
        p.remove(0)
    } else {
        p
    }
}

/// The counters after a chat message from `user_id`: one more message, one
/// more unique chatter when the id was not seen this session (it is then
/// remembered), one more new chatter when it is the chatter's first message.
pub open spec fn stats_after_chat(s: StatsV, user_id: Seq<char>, first: bool) -> StatsV {
    let seen = s.seen_chatter_ids.contains(user_id);
    StatsV {
        chat_messages: (s.chat_messages + 1) as u64,
        unique_chatters: if seen {
            s.unique_chatters
        } else {
            (s.unique_chatters + 1) as u64
        },
        seen_chatter_ids: if seen {
            s.seen_chatter_ids
        } else {
            s.seen_chatter_ids.push(user_id)
        },
        new_chatters: if first {
            (s.new_chatters + 1) as u64
        } else {
            s.new_chatters
        },
        ..s
    }
}

/// The session counters after a notification of type `sub_type` (chat
/// messages aside): follows, subscriptions, gifted subscriptions (which also
/// count as subscriptions), raids, cheers (bits and count) and redemptions
/// are counted, and the hype-train level is recorded.
pub open spec fn stats_after(s: StatsV, sub_type: Seq<char>, e: EventFields) -> StatsV {
    if sub_type == "channel.hype_train.begin"@ || sub_type == "channel.hype_train.progress"@ {
        StatsV { hype_train_level: (num(e.level, 1) as u32) as u64, ..s }
    } else if sub_type == "channel.follow"@ {
        StatsV { followers: (s.followers + 1) as u64, ..s }
    } else if sub_type == "channel.subscribe"@ {
        StatsV { subscribers: (s.subscribers + 1) as u64, ..s }
    } else if sub_type == "channel.subscription.gift"@ {
        StatsV {
            gift_subs: (s.gift_subs + num(e.total, 1)) as u64,
            subscribers: (s.subscribers + num(e.total, 1)) as u64,
            ..s
        }
    } else if sub_type == "channel.raid"@ {
        StatsV { raids: (s.raids + 1) as u64, ..s }
    } else if sub_type == "channel.cheer"@ {
        StatsV {
            bits: (s.bits + num(e.bits, 0)) as u64,
            cheers_count: (s.cheers_count + 1) as u64,
            ..s
        }
    } else if sub_type == "channel.channel_points_custom_reward_redemption.add"@ {
        StatsV { redemptions: (s.redemptions + 1) as u64, ..s }
    } else {
        s
    }
}

/// The chat counters can take a message from chatter `user_id` (`first`
/// when it is the chatter's first message in the channel) without exceeding
/// `u64`: the message count always grows, the unique-chatter count only for
/// a chatter not yet seen, the new-chatter count only for a first message.
pub open spec fn chat_fits(s: StatsV, user_id: Seq<char>, first: bool) -> bool {
    &&& s.chat_messages < u64::MAX
    &&& (!s.seen_chatter_ids.contains(user_id) ==> s.unique_chatters < u64::MAX)
    &&& (first ==> s.new_chatters < u64::MAX)
}

/// The counters that a notification of type `sub_type` raises can take it
/// without exceeding `u64`.
pub open spec fn counters_fit(s: StatsV, sub_type: Seq<char>, e: EventFields) -> bool {
    if sub_type == "channel.follow"@ {
        s.followers < u64::MAX
    } else if sub_type == "channel.subscribe"@ {
        s.subscribers < u64::MAX
    } else if sub_type == "channel.subscription.gift"@ {
        s.gift_subs + num(e.total, 1) <= u64::MAX && s.subscribers + num(e.total, 1) <= u64::MAX
    } else if sub_type == "channel.raid"@ {
        s.raids < u64::MAX
    } else if sub_type == "channel.cheer"@ {
        s.bits + num(e.bits, 0) <= u64::MAX && s.cheers_count < u64::MAX
    } else if sub_type == "channel.channel_points_custom_reward_redemption.add"@ {
        s.redemptions < u64::MAX
    } else if sub_type == "channel.chat.message"@ {
        chat_fits(s, txt(e.chatter_user_id, ""@), flag(e.is_first_msg, false))
    } else {
        true
    }
}

/// Whether the session counters can take a notification of type
/// `sub_type` (see [`counters_fit`]).
pub fn counters_fit_now(stats: &SessionStats, sub_type: &str, e: &EventFields) -> (b: bool)
    ensures
        b == counters_fit(stats@, sub_type@, *e),
{
    let t = chars_of(sub_type);
    if equals_str(&t, "channel.follow") {
        stats.followers < u64::MAX
    } else if equals_str(&t, "channel.subscribe") {
        stats.subscribers < u64::MAX
    } else if equals_str(&t, "channel.subscription.gift") {
        let n = num_or(e.total, 1);
        n <= u64::MAX - stats.gift_subs && n <= u64::MAX - stats.subscribers
    } else if equals_str(&t, "channel.raid") {
        stats.raids < u64::MAX
    } else if equals_str(&t, "channel.cheer") {
        num_or(e.bits, 0) <= u64::MAX - stats.bits && stats.cheers_count < u64::MAX
    } else if equals_str(&t, "channel.channel_points_custom_reward_redemption.add") {
        stats.redemptions < u64::MAX
    } else if equals_str(&t, "channel.chat.message") {
        let user_id = text_or(&e.chatter_user_id, "");
        let first = flag_or(e.is_first_msg, false);
        stats.chat_messages < u64::MAX && (contains_id(&stats.seen_chatter_ids, user_id.as_str())
            || stats.unique_chatters < u64::MAX) && (!first || stats.new_chatters < u64::MAX)
    } else {
        true
    }
}

/// What a notification changed, so that the owner can announce it.
#[derive(Debug, Clone, Copy, PartialEq, Eq, Structural)]
pub struct EventEffects {
    pub hype_train: bool,
    pub session_stats: bool,
    pub alert: bool,
    pub chat_message: bool,
}

/// A notification of type `t` raises an alert.
pub open spec fn raises_alert(t: Seq<char>) -> bool {
    t == "channel.follow"@ || t == "channel.subscribe"@ || t == "channel.subscription.gift"@
        || t == "channel.raid"@ || t == "channel.cheer"@
}

/// The kind of notification a subscription type names.
pub open spec fn is_hype_progress(t: Seq<char>) -> bool {
    t == "channel.hype_train.begin"@ || t == "channel.hype_train.progress"@
}

/// The changes a notification of type `t` makes.
pub open spec fn effects_of(t: Seq<char>) -> EventEffects {
    if is_hype_progress(t) {
        EventEffects { hype_train: true, session_stats: true, alert: false, chat_message: false }
    } else if t == "channel.hype_train.end"@ {
        EventEffects { hype_train: true, session_stats: false, alert: false, chat_message: false }
    } else if raises_alert(t) {
        EventEffects { hype_train: false, session_stats: true, alert: true, chat_message: false }
    } else if t == "channel.channel_points_custom_reward_redemption.add"@ {
        EventEffects { hype_train: false, session_stats: true, alert: false, chat_message: false }
    } else if t == "channel.chat.message"@ {
        EventEffects { hype_train: false, session_stats: true, alert: false, chat_message: true }
    } else {
        EventEffects { hype_train: false, session_stats: false, alert: false, chat_message: false }
    }
}

} // verus!

verus! {

/// The views of a dictionary of texts.
pub open spec fn text_map(m: KeyedList<String>) -> Map<Seq<char>, Seq<char>> {
    m.to_map().map_values(|s: String| s@)
}

/// The shared state of the Twitch overlays.
#[derive(Debug)]
pub struct TwitchEventManager {
    pub hype_state: HypeTrainState,
    pub alert_state: AlertState,
    pub chat_state: ChatState,
    pub broadcaster_info: TwitchBroadcasterInfo,
    /// Pronoun ids with their display texts.
    pub pronoun_map: KeyedList<String>,
    /// Chatter logins with their resolved pronouns.
    pub user_pronoun_cache: KeyedList<String>,
    /// Badge sets: set id to badge id to image URL.
    pub badge_cache: KeyedList<KeyedList<String>>,
    /// Emote ids with their image URLs.
    pub emote_cache: KeyedList<String>,
    pub session_stats: SessionStats,
}

/// No two chatter ids of the list are the same.
pub open spec fn distinct_ids(ids: Seq<String>) -> bool {
    forall|i: int, j: int|
        0 <= i < ids.len() && 0 <= j < ids.len() && i != j ==> #[trigger] ids[i]@
            != #[trigger] ids[j]@
}

impl TwitchEventManager {
    /// The dictionaries hold each key once and the session remembers each
    /// chatter once.
    pub open spec fn well_formed(&self) -> bool {
        &&& self.pronoun_map.well_formed()
        &&& self.user_pronoun_cache.well_formed()
        &&& self.emote_cache.well_formed()
        &&& self.badge_cache.well_formed()
        &&& forall|k: Seq<char>| #[trigger]
            self.badge_cache.to_map().contains_key(k) ==> self.badge_cache.to_map()[k].well_formed()
        &&& distinct_ids(self.session_stats.seen_chatter_ids@)
    }

    /// A manager with an inactive level-1 hype train (goal 100), no alerts,
    /// no chat, no known broadcaster, empty caches and zeroed counters.
    pub fn new() -> (m: Self)
        ensures
            m.well_formed(),
            !m.hype_state.active && m.hype_state.level == 1 && m.hype_state.total == 0,
            m.hype_state.progress == 0 && m.hype_state.goal == 100,
            m.hype_state.top_contributions@.len() == 0,
            m.hype_state.last_contribution is None,
            m.hype_state.started_at@.len() == 0 && m.hype_state.expires_at@.len() == 0,
            m.alert_state@.len() == 0,
            m.chat_state@.len() == 0,
            m.broadcaster_info.id@.len() == 0,
            m.broadcaster_info.login@.len() == 0,
            m.broadcaster_info.display_name@.len() == 0,
            text_map(m.pronoun_map) == Map::<Seq<char>, Seq<char>>::empty(),
            text_map(m.user_pronoun_cache) == Map::<Seq<char>, Seq<char>>::empty(),
            text_map(m.emote_cache) == Map::<Seq<char>, Seq<char>>::empty(),
            m.badge_cache.to_map() == Map::<Seq<char>, KeyedList<String>>::empty(),
            m.session_stats@ == fresh_stats(),
    {
        let m = TwitchEventManager {
            hype_state: HypeTrainState {
                active: false,
                level: 1,
                total: 0,
                progress: 0,
                goal: 100,
                top_contributions: Vec::new(),
                last_contribution: None,
                started_at: String::new(),
                expires_at: String::new(),
            },
            alert_state: AlertState { active_alerts: Vec::new() },
            chat_state: ChatState { messages: Vec::new() },
            broadcaster_info: TwitchBroadcasterInfo::default(),
            pronoun_map: KeyedList::new(),
            user_pronoun_cache: KeyedList::new(),
            badge_cache: KeyedList::new(),
            emote_cache: KeyedList::new(),
            session_stats: SessionStats::default(),
        };
        proof {
            assert(text_map(m.pronoun_map) =~= Map::<Seq<char>, Seq<char>>::empty());
            assert(text_map(m.user_pronoun_cache) =~= Map::<Seq<char>, Seq<char>>::empty());
            assert(text_map(m.emote_cache) =~= Map::<Seq<char>, Seq<char>>::empty());
            assert(m.session_stats.stream_title@ =~= Seq::<char>::empty());
            assert(m.session_stats.category@ =~= Seq::<char>::empty());
            assert(m.session_stats@.seen_chatter_ids =~= Seq::<Seq<char>>::empty());
        }
        m
    }

    fn badge_from(&self, b: &BadgeFields) -> (r: ChatBadge)
        requires
            self.well_formed(),
        ensures
            r@ == badge_of(self.badge_cache.to_map(), *b),
    {
        let set_id = text_or(&b.set_id, "");
        let id = text_or(&b.id, "");
        let image_url = match self.badge_cache.get(set_id.as_str()) {
            Some(versions) => match versions.get(id.as_str()) {
                Some(u) => Some(u.clone()),
                None => None,
            },
            None => None,
        };
        ChatBadge { set_id, id, info: text_or(&b.info, ""), image_url }
    }

    fn badges_from(&self, e: &EventFields) -> (out: Vec<ChatBadge>)
        requires
            self.well_formed(),
        ensures
            badge_views(out@) == badges_of(self.badge_cache.to_map(), *e),
    {
        let mut out: Vec<ChatBadge> = Vec::new();
        match &e.badges {
            Some(list) => {
                let n = list.len();
                let mut i: usize = 0;
                while i < n
                    invariant
                        self.well_formed(),
                        n == list.len(),
                        i <= n,
                        badge_views(out@) == badges_list(self.badge_cache.to_map(), list@.take(i as int)),
                    decreases n - i,
                {
                    let ghost prev = out@;
                    let b = self.badge_from(&list[i]);
                    out.push(b);
                    proof {
                        assert(list@.take(i + 1) =~= list@.take(i as int).push(list@[i as int]));
                        assert(badge_views(out@) =~= badge_views(prev).push(b@));
                        assert(badges_list(self.badge_cache.to_map(), list@.take(i + 1)) =~= badges_list(
                            self.badge_cache.to_map(),
                            list@.take(i as int),
                        ).push(badge_of(self.badge_cache.to_map(), list@[i as int])));
                        assert(badge_views(out@) =~= badges_list(self.badge_cache.to_map(), list@.take(i + 1)));
                    }
                    i = i + 1;
                }
                proof {
                    assert(list@.take(n as int) =~= list@);
                }
            },
            None => {
                proof {
                    assert(badge_views(out@) =~= Seq::<BadgeV>::empty());
                }
            },
        }
        out
    }

    fn fragment_from(&self, f: &FragmentFields) -> (r: ChatFragment)
        requires
            self.well_formed(),
        ensures
            r@ == fragment_of(self.emote_cache.to_map(), *f),
    {
        let kind = text_or(&f.kind, "text");
        if equals_str(&chars_of(kind.as_str()), "emote") {
            let id = text_or(&f.emote_id, "");
            let url = match self.emote_cache.get(id.as_str()) {
                Some(u) => u.clone(),
                None => {
                    let mut v: Vec<char> = Vec::new();
                    push_str(&mut v, "https://static-cdn.jtvnw.net/emoticons/v2/");
                    push_str(&mut v, id.as_str());
                    push_str(&mut v, "/default/dark/1.0");
                    proof {
                        assert(v@ =~= emote_cdn_url(id@));
                    }
                    string_of(&v)
                },
            };
            ChatFragment::Emote { id, text: text_or(&f.text, ""), url }
        } else {
            ChatFragment::Text(text_or(&f.text, ""))
        }
    }

    fn fragments_from(&self, e: &EventFields) -> (out: Vec<ChatFragment>)
        requires
            self.well_formed(),
        ensures
            fragment_views(out@) == fragments_of(self.emote_cache.to_map(), *e),
    {
        let mut out: Vec<ChatFragment> = Vec::new();
        match &e.fragments {
            Some(list) => {
                let n = list.len();
                let mut i: usize = 0;
                while i < n
                    invariant
                        self.well_formed(),
                        n == list.len(),
                        i <= n,
                        fragment_views(out@) == fragments_list(self.emote_cache.to_map(), list@.take(i as int)),
                    decreases n - i,
                {
                    let ghost prev = out@;
                    let f = self.fragment_from(&list[i]);
                    out.push(f);
                    proof {
                        assert(list@.take(i + 1) =~= list@.take(i as int).push(list@[i as int]));
                        assert(fragment_views(out@) =~= fragment_views(prev).push(f@));
                        assert(fragments_list(self.emote_cache.to_map(), list@.take(i + 1)) =~= fragments_list(
                            self.emote_cache.to_map(),
                            list@.take(i as int),
                        ).push(fragment_of(self.emote_cache.to_map(), list@[i as int])));
                        assert(fragment_views(out@) =~= fragments_list(self.emote_cache.to_map(), list@.take(i + 1)));
                    }
                    i = i + 1;
                }
                proof {
                    assert(list@.take(n as int) =~= list@);
                }
            },
            None => {
                out.push(ChatFragment::Text(text_or(&e.message_text, "")));
                proof {
                    assert(fragment_views(out@) =~= fragments_of(
                        self.emote_cache.to_map(),
                        *e,
                    ));
                }
            },
        }
        out
    }
}

fn any_badge(badges: &Vec<ChatBadge>, set_id: &str) -> (r: bool)
    ensures
        r == has_badge(badge_views(badges@), set_id@),
{
    let target = chars_of(set_id);
    let n = badges.len();
    let mut i: usize = 0;
    while i < n
        invariant
            n == badges.len(),
            i <= n,
            target@ == set_id@,
            forall|j: int| 0 <= j < i ==> #[trigger] badges@[j].set_id@ != set_id@,
        decreases n - i,
    {
        if equals_str(&chars_of(badges[i].set_id.as_str()), set_id) {
            proof {
                let v = badge_views(badges@);
                assert(v[i as int].set_id == set_id@);
            }
            return true;
        }
        i = i + 1;
    }
    proof {
        let v = badge_views(badges@);
        assert forall|j: int| 0 <= j < v.len() implies #[trigger] v[j].set_id != set_id@ by {
            assert(badges@[j].set_id@ != set_id@);
        }
    }
    false
}

/// Whether `id` is among `ids`.
fn contains_id(ids: &Vec<String>, id: &str) -> (r: bool)
    ensures
        r == ids@.map_values(|s: String| s@).contains(id@),
{
    let n = ids.len();
    let mut i: usize = 0;
    while i < n
        invariant
            n == ids.len(),
            i <= n,
            forall|j: int| 0 <= j < i ==> #[trigger] ids@[j]@ != id@,
        decreases n - i,
    {
        if equals_str(&chars_of(ids[i].as_str()), id) {
            proof {
                assert(ids@.map_values(|s: String| s@)[i as int] == id@);
            }
            return true;
        }
        i = i + 1;
    }
    proof {
        let v = ids@.map_values(|s: String| s@);
        assert forall|j: int| 0 <= j < v.len() implies v[j] != id@ by {
            assert(ids@[j]@ != id@);
        }
    }
    false
}

} // verus!

verus! {

/// The optional text as a view.
pub open spec fn opt_text(o: Option<String>) -> Option<Seq<char>> {
    match o {
        Some(s) => Some(s@),
        None => None,
    }
}

impl TwitchEventManager {
    /// Records a chat message received at `now` from a chatter whose
    /// pronouns are `pronouns`: the session counters and the chat (at most a
    /// hundred messages kept once it holds no more) take it in.
    pub fn record_chat(&mut self, e: &EventFields, pronouns: Option<String>, now: u64)
        requires
            old(self).well_formed(),
            chat_fits(
                old(self).session_stats@,
                txt(e.chatter_user_id, ""@),
                flag(e.is_first_msg, false),
            ),
        ensures
            final(self).well_formed(),
            final(self).session_stats@ == stats_after_chat(
                old(self).session_stats@,
                txt(e.chatter_user_id, ""@),
                flag(e.is_first_msg, false),
            ),
            final(self).chat_state@ == chat_with(
                old(self).chat_state@,
                chat_message_of(
                    old(self).badge_cache.to_map(),
                    old(self).emote_cache.to_map(),
                    *e,
                    opt_text(pronouns),
                    now,
                ),
            ),
            old(self).chat_state@.len() <= 100 ==> final(self).chat_state@.len() <= 100,
            final(self).hype_state == old(self).hype_state,
            final(self).alert_state == old(self).alert_state,
            final(self).broadcaster_info == old(self).broadcaster_info,
            final(self).pronoun_map == old(self).pronoun_map,
            final(self).user_pronoun_cache == old(self).user_pronoun_cache,
            final(self).badge_cache == old(self).badge_cache,
            final(self).emote_cache == old(self).emote_cache,
    {
        let user_login = text_or(&e.chatter_user_login, "");
        let user_id = text_or(&e.chatter_user_id, "");
        let is_first_msg = flag_or(e.is_first_msg, false);
        let badges = self.badges_from(e);
        let fragments = self.fragments_from(e);
        let is_broadcaster = any_badge(&badges, "broadcaster");
        let is_mod = any_badge(&badges, "moderator");
        let is_vip = any_badge(&badges, "vip");
        let is_sub = any_badge(&badges, "subscriber");

        let ghost s0 = self.session_stats@;
        let ghost ids0 = self.session_stats.seen_chatter_ids@;
        self.session_stats.chat_messages = self.session_stats.chat_messages + 1;
        if !contains_id(&self.session_stats.seen_chatter_ids, user_id.as_str()) {
            self.session_stats.seen_chatter_ids.push(user_id.clone());
            self.session_stats.unique_chatters = self.session_stats.unique_chatters + 1;
            proof {
                assert(self.session_stats.seen_chatter_ids@.map_values(|s: String| s@) =~= ids0.map_values(
                    |s: String| s@,
                ).push(user_id@));
                assert forall|i: int, j: int|
                    0 <= i < self.session_stats.seen_chatter_ids@.len() && 0 <= j
                        < self.session_stats.seen_chatter_ids@.len() && i != j implies
                    #[trigger] self.session_stats.seen_chatter_ids@[i]@
                    != #[trigger] self.session_stats.seen_chatter_ids@[j]@ by {
                    let n = ids0.len() as int;
                    if i == n {
                        assert(ids0.map_values(|s: String| s@)[j] == ids0[j]@);
                    } else if j == n {
                        assert(ids0.map_values(|s: String| s@)[i] == ids0[i]@);
                    }
                }
            }
        }
        if is_first_msg {
            self.session_stats.new_chatters = self.session_stats.new_chatters + 1;
        }
        proof {
            assert(self.session_stats@ =~= stats_after_chat(
                s0,
                txt(e.chatter_user_id, ""@),
                flag(e.is_first_msg, false),
            ));
        }

        let ghost c0 = self.chat_state@;
        let msg = ChatMessageData {
            id: text_or(&e.message_id, ""),
            user_id,
            user_login,
            user_name: text_or(&e.chatter_user_name, ""),
            message: text_or(&e.message_text, ""),
            fragments,
            color: text_or(&e.color, "#ffffff"),
            pronouns,
            badges,
            is_mod,
            is_sub,
            is_vip,
            is_broadcaster,
            timestamp: now,
        };
        proof {
            assert(msg@ == chat_message_of(
                self.badge_cache.to_map(),
                self.emote_cache.to_map(),
                *e,
                opt_text(pronouns),
                now,
            ));
        }
        self.chat_state.messages.push(msg);
        proof {
            assert(self.chat_state@ =~= c0.push(msg@));
        }
        if self.chat_state.messages.len() > 100 {
            self.chat_state.messages.remove(0);
            proof {
                assert(self.chat_state@ =~= c0.push(msg@).remove(0));
            }
        }
    }
}

} // verus!

verus! {

/// The hype train after a notification of type `t`.
pub open spec fn hype_after(h: HypeTrainV, t: Seq<char>, e: EventFields) -> HypeTrainV {
    if is_hype_progress(t) {
        hype_after_progress(h, e)
    } else if t == "channel.hype_train.end"@ {
        HypeTrainV { active: false, ..h }
    } else {
        h
    }
}

/// The alert queue after a notification of type `t` that arrived at `now`.
pub open spec fn alerts_after(
    q: Seq<QueuedAlertV>,
    t: Seq<char>,
    e: EventFields,
    now: u64,
    suffix: u16,
) -> Seq<QueuedAlertV> {
    match alert_for(t, e) {
        Some(a) => queue_with(q, QueuedAlertV { id: alert_id(now, suffix), alert: a, timestamp: now }),
        None => q,
    }
}

proof fn lemma_subscription_type_lengths()
    ensures
        "channel.hype_train.begin"@.len() == 24,
        "channel.hype_train.progress"@.len() == 27,
        "channel.hype_train.end"@.len() == 22,
        "channel.follow"@.len() == 14,
        "channel.subscribe"@.len() == 17,
        "channel.subscription.gift"@.len() == 25,
        "channel.raid"@.len() == 12,
        "channel.cheer"@.len() == 13,
        "channel.channel_points_custom_reward_redemption.add"@.len() == 51,
        "channel.chat.message"@.len() == 20,
{
    reveal_strlit("channel.hype_train.begin");
    reveal_strlit("channel.hype_train.progress");
    reveal_strlit("channel.hype_train.end");
    reveal_strlit("channel.follow");
    reveal_strlit("channel.subscribe");
    reveal_strlit("channel.subscription.gift");
    reveal_strlit("channel.raid");
    reveal_strlit("channel.cheer");
    reveal_strlit("channel.channel_points_custom_reward_redemption.add");
    reveal_strlit("channel.chat.message");
}

/// What a notification of type `sub_type` does to the manager, received at
/// `now` with the alert id suffix `suffix` and the chatter's `pronouns`.
pub open spec fn notification_applied(
    before: TwitchEventManager,
    after: TwitchEventManager,
    sub_type: Seq<char>,
    event: EventFields,
    now: u64,
    suffix: u16,
    pronouns: Option<String>,
) -> bool {
    &&& (after.hype_state@ == hype_after(before.hype_state@, sub_type, event))
    &&& (after.alert_state@ == alerts_after(
        before.alert_state@,
        sub_type,
        event,
        now,
        suffix,
    ))
    &&& (sub_type == "channel.chat.message"@ ==> {
        &&& after.session_stats@ == stats_after_chat(
            before.session_stats@,
            txt(event.chatter_user_id, ""@),
            flag(event.is_first_msg, false),
        )
        &&& after.chat_state@ == chat_with(
            before.chat_state@,
            chat_message_of(
                before.badge_cache.to_map(),
                before.emote_cache.to_map(),
                event,
                opt_text(pronouns),
                now,
            ),
        )
    })
    &&& (sub_type != "channel.chat.message"@ ==> {
        &&& after.session_stats@ == stats_after(
            before.session_stats@,
            sub_type,
            event,
        )
        &&& after.chat_state == before.chat_state
    })
    &&& (before.alert_state@.len() <= 10 ==> after.alert_state@.len() <= 10)
    &&& (before.chat_state@.len() <= 100 ==> after.chat_state@.len() <= 100)
    &&& (after.broadcaster_info == before.broadcaster_info)
    &&& (after.pronoun_map == before.pronoun_map)
    &&& (after.user_pronoun_cache == before.user_pronoun_cache)
    &&& (after.badge_cache == before.badge_cache)
    &&& (after.emote_cache == before.emote_cache)
}

impl TwitchEventManager {
    /// Applies an EventSub notification of type `sub_type` that arrived at
    /// `now` (Unix seconds). Hype-train notifications update the train (and
    /// record its level); follows, subscriptions, gifted subscriptions,
    /// raids and cheers are counted and queued as alerts under the id
    /// `alert_<now>_<alert_suffix>`; redemptions are counted; chat messages
    /// are recorded with the chatter's `pronouns`; other types change
    /// nothing. The result says what changed.
    pub fn handle_event(
        &mut self,
        sub_type: &str,
        event: EventFields,
        now: u64,
        alert_suffix: u16,
        pronouns: Option<String>,
    ) -> (fx: EventEffects)
        requires
            old(self).well_formed(),
            counters_fit(old(self).session_stats@, sub_type@, event),
        ensures
            final(self).well_formed(),
            fx == effects_of(sub_type@),
            notification_applied(*old(self), *final(self), sub_type@, event, now, alert_suffix, pronouns),
    {
        proof {
            lemma_subscription_type_lengths();
        }
        let t = chars_of(sub_type);
        let none = EventEffects {
            hype_train: false,
            session_stats: false,
            alert: false,
            chat_message: false,
        };
        if equals_str(&t, "channel.hype_train.begin") || equals_str(
            &t,
            "channel.hype_train.progress",
        ) {
            let ghost h0 = self.hype_state@;
            let level = num_or(event.level, 1) as u32;
            self.hype_state.active = true;
            self.hype_state.level = level;
            self.hype_state.total = num_or(event.total, 0) as u32;
            self.hype_state.progress = num_or(event.progress, 0) as u32;
            self.hype_state.goal = num_or(event.goal, 100) as u32;
            match &event.top_contributions {
                Some(list) => {
                    self.hype_state.top_contributions = contributions_from(list);
                },
                None => {},
            }
            proof {
                assert(self.hype_state@ =~= hype_after_progress(h0, event));
            }
            self.session_stats.hype_train_level = level as u64;
            EventEffects { hype_train: true, session_stats: true, ..none }
        } else if equals_str(&t, "channel.hype_train.end") {
            self.hype_state.active = false;
            EventEffects { hype_train: true, ..none }
        } else if equals_str(&t, "channel.follow") {
            self.session_stats.followers = self.session_stats.followers + 1;
            let alert = TwitchAlert::Follow { user_name: text_or(&event.user_name, "Someone") };
            update_alert(&mut self.alert_state, alert, now, alert_suffix);
            EventEffects { session_stats: true, alert: true, ..none }
        } else if equals_str(&t, "channel.subscribe") {
            self.session_stats.subscribers = self.session_stats.subscribers + 1;
            let alert = TwitchAlert::Subscription {
                user_name: text_or(&event.user_name, "Someone"),
                tier: text_or(&event.tier, "1000"),
                is_gift: flag_or(event.is_gift, false),
                cumulative_months: num_or(event.cumulative_months, 1) as u32,
            };
            update_alert(&mut self.alert_state, alert, now, alert_suffix);
            EventEffects { session_stats: true, alert: true, ..none }
        } else if equals_str(&t, "channel.subscription.gift") {
            let gift_count = num_or(event.total, 1);
            self.session_stats.gift_subs = self.session_stats.gift_subs + gift_count;
            self.session_stats.subscribers = self.session_stats.subscribers + gift_count;
            let alert = TwitchAlert::GiftSubscription {
                user_name: text_or(&event.user_name, "Anonymous"),
                total: gift_count as u32,
                tier: text_or(&event.tier, "1000"),
                is_anonymous: flag_or(event.is_anonymous, false),
            };
            update_alert(&mut self.alert_state, alert, now, alert_suffix);
            EventEffects { session_stats: true, alert: true, ..none }
        } else if equals_str(&t, "channel.raid") {
            self.session_stats.raids = self.session_stats.raids + 1;
            let alert = TwitchAlert::Raid {
                from_broadcaster_name: text_or(&event.from_broadcaster_user_name, "Someone"),
                viewers: num_or(event.viewers, 0) as u32,
            };
            update_alert(&mut self.alert_state, alert, now, alert_suffix);
            EventEffects { session_stats: true, alert: true, ..none }
        } else if equals_str(&t, "channel.cheer") {
            let bits = num_or(event.bits, 0);
            self.session_stats.bits = self.session_stats.bits + bits;
            self.session_stats.cheers_count = self.session_stats.cheers_count + 1;
            let alert = TwitchAlert::Cheer {
                user_name: text_or(&event.user_name, "Anon"),
                bits: bits as u32,
                message: text_or(&event.message, ""),
            };
            update_alert(&mut self.alert_state, alert, now, alert_suffix);
            EventEffects { session_stats: true, alert: true, ..none }
        } else if equals_str(&t, "channel.channel_points_custom_reward_redemption.add") {
            self.session_stats.redemptions = self.session_stats.redemptions + 1;
            EventEffects { session_stats: true, ..none }
        } else if equals_str(&t, "channel.chat.message") {
            self.record_chat(&event, pronouns, now);
            EventEffects { session_stats: true, chat_message: true, ..none }
        } else {
            none
        }
    }
}


// ---------------------------------------------------------------------------
// Badge, emote and pronoun caches
// ---------------------------------------------------------------------------

/// An emote as listed by the API: its id and small image, when present.
#[derive(Debug)]
pub struct EmoteFields {
    pub id: Option<String>,
    pub url: Option<String>,
}

/// A pronoun set: its id and display text.
#[derive(Debug)]
pub struct PronounEntry {
    pub name: String,
    pub display: String,
}

/// `m` after storing each emote in turn (missing parts read as empty; a
/// later emote replaces an earlier one with the same id).
pub open spec fn emotes_merged(m: Map<Seq<char>, Seq<char>>, l: Seq<EmoteFields>) -> Map<
    Seq<char>,
    Seq<char>,
>
    decreases l.len(),
{
    if l.len() == 0 {
        m
    } else {
        emotes_merged(m, l.drop_last()).insert(txt(l.last().id, ""@), txt(l.last().url, ""@))
    }
}

/// `m` after storing each (badge id, image) pair in turn.
pub open spec fn versions_merged(m: Map<Seq<char>, Seq<char>>, l: Seq<(Option<String>, Option<String>)>) -> Map<
    Seq<char>,
    Seq<char>,
>
    decreases l.len(),
{
    if l.len() == 0 {
        m
    } else {
        versions_merged(m, l.drop_last()).insert(
            txt(l.last().0, ""@),
            txt(l.last().1, ""@),
        )
    }
}

/// The badge cache as nested maps.
pub open spec fn badge_view(c: KeyedList<KeyedList<String>>) -> Map<Seq<char>, Map<Seq<char>, Seq<char>>> {
    c.to_map().map_values(|v: KeyedList<String>| text_map(v))
}

/// `m` after one badge set: its versions are added to those already known
/// under its id (a set is listed even when it has none).
pub open spec fn set_merged(m: Map<Seq<char>, Map<Seq<char>, Seq<char>>>, s: BadgeSetFields) -> Map<
    Seq<char>,
    Map<Seq<char>, Seq<char>>,
> {
    let id = txt(s.set_id, ""@);
    let base = if m.contains_key(id) {
        m[id]
    } else {
        Map::empty()
    };
    m.insert(
        id,
        versions_merged(
            base,
            match s.versions {
                Some(v) => v@,
                None => Seq::empty(),
            },
        ),
    )
}

/// `m` after each badge set in turn.
pub open spec fn sets_merged(m: Map<Seq<char>, Map<Seq<char>, Seq<char>>>, l: Seq<BadgeSetFields>) -> Map<
    Seq<char>,
    Map<Seq<char>, Seq<char>>,
>
    decreases l.len(),
{
    if l.len() == 0 {
        m
    } else {
        set_merged(sets_merged(m, l.drop_last()), l.last())
    }
}

/// The pronoun map of a list of entries (a later entry replaces an earlier
/// one with the same id).
pub open spec fn pronouns_of(l: Seq<PronounEntry>) -> Map<Seq<char>, Seq<char>>
    decreases l.len(),
{
    if l.len() == 0 {
        Map::empty()
    } else {
        pronouns_of(l.drop_last()).insert(l.last().name@, l.last().display@)
    }
}

proof fn lemma_text_map_insert(m: KeyedList<String>, k: Seq<char>, v: String, after: KeyedList<String>)
    requires
        after.to_map() == m.to_map().insert(k, v),
    ensures
        text_map(after) == text_map(m).insert(k, v@),
{
    assert(text_map(after) =~= text_map(m).insert(k, v@));
}

fn copy_text(s: &String) -> (r: String)
    ensures
        r@ == s@,
{
    string_of(&chars_of(s.as_str()))
}

fn merge_versions(inner: &mut KeyedList<String>, l: &Vec<(Option<String>, Option<String>)>)
    requires
        old(inner).well_formed(),
    ensures
        final(inner).well_formed(),
        text_map(*final(inner)) == versions_merged(text_map(*old(inner)), l@),
{
    let mut i: usize = 0;
    while i < l.len()
        invariant
            i <= l@.len(),
            inner.well_formed(),
            text_map(*inner) == versions_merged(text_map(*old(inner)), l@.take(i as int)),
        decreases l@.len() - i,
    {
        proof {
            assert(l@.take(i + 1).drop_last() =~= l@.take(i as int));
            assert(l@.take(i + 1).last() == l@[i as int]);
        }
        let id = text_or(&l[i].0, "");
        let url = text_or(&l[i].1, "");
        let ghost before = *inner;
        let ghost kv = id@;
        let ghost uv = url;
        inner.insert(id, url);
        proof {
            lemma_text_map_insert(before, kv, uv, *inner);
        }
        i = i + 1;
    }
    proof {
        assert(l@.take(l@.len() as int) =~= l@);
    }
}

impl TwitchEventManager {
    /// Adds the emotes of an API answer to the emote cache.
    pub fn merge_emotes(&mut self, l: &Vec<EmoteFields>)
        requires
            old(self).well_formed(),
        ensures
            final(self).well_formed(),
            text_map(final(self).emote_cache) == emotes_merged(text_map(old(self).emote_cache), l@),
            badge_view(final(self).badge_cache) == badge_view(old(self).badge_cache),
            text_map(final(self).pronoun_map) == text_map(old(self).pronoun_map),
            text_map(final(self).user_pronoun_cache) == text_map(old(self).user_pronoun_cache),
    {
        let mut i: usize = 0;
        while i < l.len()
            invariant
                i <= l@.len(),
                self.well_formed(),
                text_map(self.emote_cache) == emotes_merged(
                    text_map(old(self).emote_cache),
                    l@.take(i as int),
                ),
                self.badge_cache == old(self).badge_cache,
                self.pronoun_map == old(self).pronoun_map,
                self.user_pronoun_cache == old(self).user_pronoun_cache,
            decreases l@.len() - i,
        {
            proof {
                assert(l@.take(i + 1).drop_last() =~= l@.take(i as int));
                assert(l@.take(i + 1).last() == l@[i as int]);
            }
            let id = text_or(&l[i].id, "");
            let url = text_or(&l[i].url, "");
            let ghost before = self.emote_cache;
            let ghost kv = id@;
            let ghost uv = url;
            self.emote_cache.insert(id, url);
            proof {
                lemma_text_map_insert(before, kv, uv, self.emote_cache);
            }
            i = i + 1;
        }
        proof {
            assert(l@.take(l@.len() as int) =~= l@);
        }
    }

    /// Adds the badge sets of an API answer to the badge cache.
    pub fn merge_badge_sets(&mut self, l: &Vec<BadgeSetFields>)
        requires
            old(self).well_formed(),
        ensures
            final(self).well_formed(),
            badge_view(final(self).badge_cache) == sets_merged(badge_view(old(self).badge_cache), l@),
            text_map(final(self).emote_cache) == text_map(old(self).emote_cache),
            text_map(final(self).pronoun_map) == text_map(old(self).pronoun_map),
            text_map(final(self).user_pronoun_cache) == text_map(old(self).user_pronoun_cache),
    {
        let mut i: usize = 0;
        while i < l.len()
            invariant
                i <= l@.len(),
                self.well_formed(),
                badge_view(self.badge_cache) == sets_merged(
                    badge_view(old(self).badge_cache),
                    l@.take(i as int),
                ),
                self.emote_cache == old(self).emote_cache,
                self.pronoun_map == old(self).pronoun_map,
                self.user_pronoun_cache == old(self).user_pronoun_cache,
            decreases l@.len() - i,
        {
            proof {
                assert(l@.take(i + 1).drop_last() =~= l@.take(i as int));
                assert(l@.take(i + 1).last() == l@[i as int]);
            }
            let set_id = text_or(&l[i].set_id, "");
            let ghost before = self.badge_cache;
            let mut inner = match self.badge_cache.remove(set_id.as_str()) {
                Some(v) => v,
                None => KeyedList::new(),
            };
            let ghost base = text_map(inner);
            proof {
                if before.to_map().contains_key(set_id@) {
                    assert(badge_view(before)[set_id@] == base);
                } else {
                    assert(base =~= Map::<Seq<char>, Seq<char>>::empty());
                }
            }
            match &l[i].versions {
                Some(v) => merge_versions(&mut inner, v),
                None => {
                    proof {
                        assert(versions_merged(base, Seq::empty()) == base);
                    }
                },
            }
            let ghost merged = inner;
            let ghost mid = self.badge_cache;
            self.badge_cache.insert(set_id, inner);
            proof {
                assert(self.badge_cache.to_map() == before.to_map().remove(set_id@).insert(
                    set_id@,
                    merged,
                ));
                assert forall|k: Seq<char>| #[trigger]
                    self.badge_cache.to_map().contains_key(k) implies self.badge_cache.to_map()[
                    k].well_formed() by {
                    if k != set_id@ {
                        assert(before.to_map().contains_key(k));
                    }
                }
                assert(badge_view(self.badge_cache) =~= set_merged(badge_view(before), l@[i as int]));
            }
            i = i + 1;
        }
        proof {
            assert(l@.take(l@.len() as int) =~= l@);
        }
    }

    /// Replaces the pronoun map with the entries fetched.
    pub fn set_pronoun_map(&mut self, entries: Vec<PronounEntry>)
        requires
            old(self).well_formed(),
        ensures
            final(self).well_formed(),
            text_map(final(self).pronoun_map) == pronouns_of(entries@),
            text_map(final(self).user_pronoun_cache) == text_map(old(self).user_pronoun_cache),
            text_map(final(self).emote_cache) == text_map(old(self).emote_cache),
            badge_view(final(self).badge_cache) == badge_view(old(self).badge_cache),
    {
        let mut map: KeyedList<String> = KeyedList::new();
        proof {
            assert(text_map(map) =~= pronouns_of(entries@.take(0)));
        }
        let mut i: usize = 0;
        while i < entries.len()
            invariant
                i <= entries@.len(),
                map.well_formed(),
                text_map(map) == pronouns_of(entries@.take(i as int)),
            decreases entries@.len() - i,
        {
            proof {
                assert(entries@.take(i + 1).drop_last() =~= entries@.take(i as int));
                assert(entries@.take(i + 1).last() == entries@[i as int]);
            }
            let k = copy_text(&entries[i].name);
            let v = copy_text(&entries[i].display);
            let ghost before = map;
            let ghost kv = k@;
            let ghost vv = v;
            map.insert(k, v);
            proof {
                lemma_text_map_insert(before, kv, vv, map);
            }
            i = i + 1;
        }
        proof {
            assert(entries@.take(entries@.len() as int) =~= entries@);
        }
        self.pronoun_map = map;
    }

    /// The pronouns already resolved for `login`.
    pub fn cached_pronouns(&self, login: &str) -> (p: Option<String>)
        requires
            self.well_formed(),
        ensures
            match p {
                Some(x) => text_map(self.user_pronoun_cache).contains_key(login@) && x@ == text_map(
                    self.user_pronoun_cache,
                )[login@],
                None => !text_map(self.user_pronoun_cache).contains_key(login@),
            },
    {
        match self.user_pronoun_cache.get(login) {
            Some(x) => Some(copy_text(x)),
            None => None,
        }
    }

    /// Resolves the pronoun id a lookup returned for `login` (when it
    /// returned one): a known id is cached for the login and its display
    /// text returned; an unknown one gives nothing.
    pub fn resolve_pronouns(&mut self, login: &str, pronoun_id: Option<String>) -> (p: Option<String>)
        requires
            old(self).well_formed(),
        ensures
            final(self).well_formed(),
            text_map(final(self).pronoun_map) == text_map(old(self).pronoun_map),
            match pronoun_id {
                Some(id) => if text_map(old(self).pronoun_map).contains_key(id@) {
                    &&& p matches Some(x) && x@ == text_map(old(self).pronoun_map)[id@]
                    &&& text_map(final(self).user_pronoun_cache) == text_map(
                        old(self).user_pronoun_cache,
                    ).insert(login@, text_map(old(self).pronoun_map)[id@])
                } else {
                    p is None && text_map(final(self).user_pronoun_cache) == text_map(
                        old(self).user_pronoun_cache,
                    )
                },
                None => p is None && text_map(final(self).user_pronoun_cache) == text_map(
                    old(self).user_pronoun_cache,
                ),
            },
    {
        match pronoun_id {
            Some(id) => {
                let found = match self.pronoun_map.get(id.as_str()) {
                    Some(x) => Some(copy_text(x)),
                    None => None,
                };
                match found {
                    Some(x) => {
                        let ghost before = self.user_pronoun_cache;
                        let cached = copy_text(&x);
                        let ghost cv = cached;
                        self.user_pronoun_cache.insert(string_of(&chars_of(login)), cached);
                        proof {
                            lemma_text_map_insert(before, login@, cv, self.user_pronoun_cache);
                        }
                        Some(x)
                    },
                    None => None,
                }
            },
            None => None,
        }
    }
}


/// The alert queue never holds more than ten alerts, and the newest alert
/// is always last.
pub proof fn law_alert_queue_bounded(q: Seq<QueuedAlertV>, a: QueuedAlertV)
    requires
        q.len() <= 10,
    ensures
        queue_with(q, a).len() <= 10,
        queue_with(q, a).last() == a,
{
}

/// The chat never holds more than a hundred messages, and the newest is
/// always last.
pub proof fn law_chat_bounded(c: Seq<ChatMessageV>, m: ChatMessageV)
    requires
        c.len() <= 100,
    ensures
        chat_with(c, m).len() <= 100,
        chat_with(c, m).last() == m,
{
}

/// The unique-chatter count stays the number of chatter ids remembered.
pub proof fn law_unique_chatters_counted(s: StatsV, user_id: Seq<char>, first: bool)
    requires
        s.unique_chatters == s.seen_chatter_ids.len(),
        s.unique_chatters < u64::MAX,
    ensures
        stats_after_chat(s, user_id, first).unique_chatters == stats_after_chat(
            s,
            user_id,
            first,
        ).seen_chatter_ids.len(),
        stats_after_chat(s, user_id, first).seen_chatter_ids.contains(user_id),
{
    if !s.seen_chatter_ids.contains(user_id) {
        assert(s.seen_chatter_ids.push(user_id)[s.seen_chatter_ids.len() as int] == user_id);
    }
}


impl TwitchEventManager {
    /// Handles a notification as it arrives: it is dated by the clock and
    /// its alert (if any) gets a random suffix; otherwise as
    /// `handle_event`. Which time and suffix were used is not fixed.
    pub fn handle_notification(&mut self, sub_type: &str, event: EventFields, pronouns: Option<
        String,
    >) -> (fx: EventEffects)
        requires
            old(self).well_formed(),
            counters_fit(old(self).session_stats@, sub_type@, event),
        ensures
            final(self).well_formed(),
            fx == effects_of(sub_type@),
            exists|now: u64, suffix: u16|
                notification_applied(*old(self), *final(self), sub_type@, event, now, suffix, pronouns),
    {
        let now = crate::update::unix_now_secs();
        let suffix = crate::crypto::random_u16();
        self.handle_event(sub_type, event, now, suffix, pronouns)
    }
}

/// Queues an alert as it is raised: dated by the clock, with a random id
/// suffix (see `update_alert`).
pub fn update_alert_now(state: &mut AlertState, alert: TwitchAlert)
    ensures
        exists|now: u64, suffix: u16|
            final(state)@ == queue_with(
                old(state)@,
                QueuedAlertV { id: alert_id(now, suffix), alert: alert@, timestamp: now },
            ),
        old(state)@.len() <= 10 ==> final(state)@.len() <= 10,
        final(state)@.last().alert == alert@,
{
    let now = crate::update::unix_now_secs();
    let suffix = crate::crypto::random_u16();
    update_alert(state, alert, now, suffix);
}


/// The test message posted by "Simulate Message", with id `test_<r>` and
/// time `now`: from the broadcaster (or a stand-in name where unknown),
/// with one emote, the broadcaster badge and they/them pronouns.
pub open spec fn test_chat_message(info: TwitchBroadcasterInfo, r: u16, now: u64) -> ChatMessageV {
    ChatMessageV {
        id: "test_"@ + decimal(r as nat),
        user_id: if info.id@.len() == 0 { "123"@ } else { info.id@ },
        user_login: if info.login@.len() == 0 { "streamer"@ } else { info.login@ },
        user_name: if info.display_name@.len() == 0 { "Streamer"@ } else { info.display_name@ },
        message: "This is a test message! 🚀"@,
        fragments: seq![
            FragmentV::Text("This is a test message! "@),
            FragmentV::Emote {
                id: "1"@,
                text: "🚀"@,
                url: "https://static-cdn.jtvnw.net/emoticons/v2/1/default/dark/1.0"@,
            },
        ],
        color: "#8b5cf6"@,
        pronouns: Some("they/them"@),
        badges: seq![
            BadgeV {
                set_id: "broadcaster"@,
                id: "1"@,
                info: ""@,
                image_url: Some(
                    "https://static-cdn.jtvnw.net/chat/badges/5527358c-052c-4c76-8251-0f8d99bc732e/1"@,
                ),
            },
        ],
        is_mod: false,
        is_sub: false,
        is_vip: false,
        is_broadcaster: true,
        timestamp: now,
    }
}

fn or_text(s: &String, d: &str) -> (r: String)
    ensures
        r@ == (if s@.len() == 0 { d@ } else { s@ }),
{
    if s.as_str().is_empty() {
        string_of(&chars_of(d))
    } else {
        string_of(&chars_of(s.as_str()))
    }
}

impl TwitchEventManager {
    /// Posts the test message at the end of the chat (the chat is not
    /// trimmed for it), dated by the clock with a random id.
    pub fn post_test_message(&mut self)
        ensures
            exists|r: u16, now: u64|
                final(self).chat_state@ == old(self).chat_state@.push(
                    test_chat_message(old(self).broadcaster_info, r, now),
                ),
            final(self).hype_state == old(self).hype_state,
            final(self).alert_state == old(self).alert_state,
            final(self).session_stats == old(self).session_stats,
            final(self).broadcaster_info == old(self).broadcaster_info,
            final(self).pronoun_map == old(self).pronoun_map,
            final(self).user_pronoun_cache == old(self).user_pronoun_cache,
            final(self).badge_cache == old(self).badge_cache,
            final(self).emote_cache == old(self).emote_cache,
    {
        let r = crate::crypto::random_u16();
        let now = crate::update::unix_now_secs();
        let mut id: Vec<char> = Vec::new();
        push_str(&mut id, "test_");
        push_decimal(&mut id, r as u64);
        let info = &self.broadcaster_info;
        let msg = ChatMessageData {
            id: string_of(&id),
            user_id: or_text(&info.id, "123"),
            user_login: or_text(&info.login, "streamer"),
            user_name: or_text(&info.display_name, "Streamer"),
            message: string_of(&chars_of("This is a test message! 🚀")),
            fragments: vec![
                ChatFragment::Text(string_of(&chars_of("This is a test message! "))),
                ChatFragment::Emote {
                    id: string_of(&chars_of("1")),
                    text: string_of(&chars_of("🚀")),
                    url: string_of(&chars_of("https://static-cdn.jtvnw.net/emoticons/v2/1/default/dark/1.0")),
                },
            ],
            color: string_of(&chars_of("#8b5cf6")),
            pronouns: Some(string_of(&chars_of("they/them"))),
            badges: vec![
                ChatBadge {
                    set_id: string_of(&chars_of("broadcaster")),
                    id: string_of(&chars_of("1")),
                    info: string_of(&chars_of("")),
                    image_url: Some(
                        string_of(
                            &chars_of(
                                "https://static-cdn.jtvnw.net/chat/badges/5527358c-052c-4c76-8251-0f8d99bc732e/1",
                            ),
                        ),
                    ),
                },
            ],
            is_mod: false,
            is_sub: false,
            is_vip: false,
            is_broadcaster: true,
            timestamp: now,
        };
        proof {
            assert(msg@.fragments =~= test_chat_message(self.broadcaster_info, r, now).fragments);
            assert(msg@.badges =~= test_chat_message(self.broadcaster_info, r, now).badges);
            assert(msg@ == test_chat_message(self.broadcaster_info, r, now));
        }
        let ghost before = self.chat_state@;
        self.chat_state.messages.push(msg);
        proof {
            assert(self.chat_state@ =~= before.push(test_chat_message(old(self).broadcaster_info, r, now)));
        }
    }
}

/// The Helix `streams` address that describes the live stream of
/// broadcaster `id`.
pub open spec fn streams_url(id: Seq<char>) -> Seq<char> {
    "https://api.twitch.tv/helix/streams?user_id="@ + id
}

impl TwitchEventManager {
    /// Where the live stream of the known broadcaster is described; none
    /// while no broadcaster is known.
    pub fn stream_metadata_url(&self) -> (u: Option<String>)
        ensures
            self.broadcaster_info.id@.len() == 0 <==> u is None,
            u matches Some(t) ==> t@ == streams_url(self.broadcaster_info.id@),
    {
        let id = chars_of(self.broadcaster_info.id.as_str());
        if id.len() == 0 {
            return None;
        }
        let mut out: Vec<char> = Vec::new();
        push_str(&mut out, "https://api.twitch.tv/helix/streams?user_id=");
        crate::text::push_all(&mut out, &id);
        Some(string_of(&out))
    }

    /// Records what the first live stream of a Helix answer says: its
    /// viewer count (0 when absent), title and category (empty when
    /// absent). Nothing else changes.
    pub fn apply_stream_metadata(
        &mut self,
        viewer_count: Option<u64>,
        title: Option<String>,
        category: Option<String>,
    )
        ensures
            final(self).session_stats@ == (StatsV {
                viewer_count: num(viewer_count, 0),
                stream_title: txt(title, ""@),
                category: txt(category, ""@),
                ..old(self).session_stats@
            }),
            final(self).hype_state == old(self).hype_state,
            final(self).alert_state == old(self).alert_state,
            final(self).chat_state == old(self).chat_state,
            final(self).broadcaster_info == old(self).broadcaster_info,
            final(self).pronoun_map == old(self).pronoun_map,
            final(self).user_pronoun_cache == old(self).user_pronoun_cache,
            final(self).badge_cache == old(self).badge_cache,
            final(self).emote_cache == old(self).emote_cache,
            final(self).session_stats.seen_chatter_ids == old(self).session_stats.seen_chatter_ids,
    {
        self.session_stats.viewer_count = num_or(viewer_count, 0);
        self.session_stats.stream_title = text_or(&title, "");
        self.session_stats.category = text_or(&category, "");
    }
}

impl TwitchEventManager {
    /// Starts a new session: every counter back to zero, no title, no
    /// category, no chatter remembered. Nothing else changes.
    pub fn reset_session(&mut self)
        requires
            old(self).well_formed(),
        ensures
            final(self).well_formed(),
            final(self).session_stats@ == fresh_stats(),
            final(self).hype_state == old(self).hype_state,
            final(self).alert_state == old(self).alert_state,
            final(self).chat_state == old(self).chat_state,
            final(self).broadcaster_info == old(self).broadcaster_info,
            final(self).pronoun_map == old(self).pronoun_map,
            final(self).user_pronoun_cache == old(self).user_pronoun_cache,
            final(self).badge_cache == old(self).badge_cache,
            final(self).emote_cache == old(self).emote_cache,
    {
        self.session_stats = SessionStats::default();
        proof {
            assert(self.session_stats.stream_title@ =~= Seq::<char>::empty());
            assert(self.session_stats.category@ =~= Seq::<char>::empty());
            assert(self.session_stats@.seen_chatter_ids =~= Seq::<Seq<char>>::empty());
        }
    }
}

/// Each notification raises exactly the session counters it is about: a
/// follow, a subscription, a raid and a redemption count one each; a gift
/// of `n` subscriptions (1 when not given) adds `n` gifted subscriptions
/// and `n` subscribers; a cheer of `b` bits (0 when not given) adds `b` to
/// the bit total and one cheer, and queues, as the newest alert, a cheer of
/// those bits by the cheerer. Counters a notification is not about keep
/// their values.
pub proof fn law_notification_counts(
    before: TwitchEventManager,
    after: TwitchEventManager,
    t: Seq<char>,
    e: EventFields,
    now: u64,
    suffix: u16,
    pronouns: Option<String>,
)
    requires
        notification_applied(before, after, t, e, now, suffix, pronouns),
        counters_fit(before.session_stats@, t, e),
    ensures
        after.session_stats.followers == before.session_stats.followers + (if t
            == "channel.follow"@ {
            1int
        } else {
            0int
        }),
        after.session_stats.raids == before.session_stats.raids + (if t == "channel.raid"@ {
            1int
        } else {
            0int
        }),
        after.session_stats.redemptions == before.session_stats.redemptions + (if t
            == "channel.channel_points_custom_reward_redemption.add"@ {
            1int
        } else {
            0int
        }),
        t == "channel.subscribe"@ ==> after.session_stats.subscribers
            == before.session_stats.subscribers + 1,
        t == "channel.subscription.gift"@ ==> ({
            let n: int = match e.total {
                Some(v) => v as int,
                None => 1,
            };
            &&& after.session_stats.gift_subs == before.session_stats.gift_subs + n
            &&& after.session_stats.subscribers == before.session_stats.subscribers + n
        }),
        t == "channel.cheer"@ ==> ({
            let b: int = match e.bits {
                Some(v) => v as int,
                None => 0,
            };
            &&& after.session_stats.bits == before.session_stats.bits + b
            &&& after.session_stats.cheers_count == before.session_stats.cheers_count + 1
            &&& after.alert_state@.last().alert matches AlertV::Cheer { bits, user_name, .. }
                && bits == b as u32 && user_name == (match e.user_name {
                Some(u) => u@,
                None => "Anon"@,
            })
        }),
        t != "channel.cheer"@ ==> after.session_stats.bits == before.session_stats.bits,
        t != "channel.cheer"@ ==> after.session_stats.cheers_count
            == before.session_stats.cheers_count,
        t != "channel.subscribe"@ && t != "channel.subscription.gift"@
            ==> after.session_stats.subscribers == before.session_stats.subscribers,
        t != "channel.subscription.gift"@ ==> after.session_stats.gift_subs
            == before.session_stats.gift_subs,
{
    lemma_subscription_type_lengths();
    if t == "channel.cheer"@ {
        let q = QueuedAlertV {
            id: alert_id(now, suffix),
            alert: alert_for(t, e).unwrap(),
            timestamp: now,
        };
        assert(queue_with(before.alert_state@, q).last() == q);
    }
}

/// A chat message joins the end of the chat (the oldest is dropped only
/// when a hundred are already shown), carrying the chatter's name, text,
/// pronouns and arrival time, and counts one more message; any other
/// notification leaves the chat as it was.
pub proof fn law_chat_message_joins(
    before: TwitchEventManager,
    after: TwitchEventManager,
    t: Seq<char>,
    e: EventFields,
    now: u64,
    suffix: u16,
    pronouns: Option<String>,
)
    requires
        notification_applied(before, after, t, e, now, suffix, pronouns),
        counters_fit(before.session_stats@, t, e),
    ensures
        t == "channel.chat.message"@ ==> ({
            let m = after.chat_state@.last();
            &&& after.chat_state@.len() > 0
            &&& m.user_name == (match e.chatter_user_name {
                Some(u) => u@,
                None => Seq::<char>::empty(),
            })
            &&& m.message == (match e.message_text {
                Some(x) => x@,
                None => Seq::<char>::empty(),
            })
            &&& m.pronouns == (match pronouns {
                Some(p) => Some(p@),
                None => None,
            })
            &&& m.timestamp == now
            &&& after.session_stats.chat_messages == before.session_stats.chat_messages + 1
            &&& before.chat_state@.len() < 100 ==> after.chat_state@.len() == before.chat_state@.len()
                + 1 && after.chat_state@.subrange(0, before.chat_state@.len() as int)
                == before.chat_state@
        }),
        t != "channel.chat.message"@ ==> after.chat_state == before.chat_state
            && after.session_stats.chat_messages == before.session_stats.chat_messages,
{
    lemma_subscription_type_lengths();
    reveal_strlit("");
    assert(""@ =~= Seq::<char>::empty());
    if t == "channel.chat.message"@ {
        let c = before.chat_state@;
        let m = chat_message_of(
            before.badge_cache.to_map(),
            before.emote_cache.to_map(),
            e,
            opt_text(pronouns),
            now,
        );
        assert(c.push(m).last() == m);
        if c.len() < 100 {
            assert(c.push(m).subrange(0, c.len() as int) =~= c);
        } else {
            assert(c.push(m).remove(0).last() == m);
        }
    }
}

/// A hype-train start or progress notification makes the train active at
/// the level, total, progress and goal it reports (1, 0, 0 and 100 when not
/// given); an end notification stops it and keeps its figures; other
/// notifications leave it as it was.
pub proof fn law_hype_train_follows_events(
    before: TwitchEventManager,
    after: TwitchEventManager,
    t: Seq<char>,
    e: EventFields,
    now: u64,
    suffix: u16,
    pronouns: Option<String>,
)
    requires
        notification_applied(before, after, t, e, now, suffix, pronouns),
    ensures
        (t == "channel.hype_train.begin"@ || t == "channel.hype_train.progress"@) ==> ({
            &&& after.hype_state.active
            &&& after.hype_state.level == (match e.level {
                Some(v) => v as u32,
                None => 1u32,
            })
            &&& after.hype_state.total == (match e.total {
                Some(v) => v as u32,
                None => 0u32,
            })
            &&& after.hype_state.progress == (match e.progress {
                Some(v) => v as u32,
                None => 0u32,
            })
            &&& after.hype_state.goal == (match e.goal {
                Some(v) => v as u32,
                None => 100u32,
            })
        }),
        t == "channel.hype_train.end"@ ==> !after.hype_state.active && after.hype_state.level
            == before.hype_state.level && after.hype_state.total == before.hype_state.total,
        t != "channel.hype_train.begin"@ && t != "channel.hype_train.progress"@ && t
            != "channel.hype_train.end"@ ==> after.hype_state@ == before.hype_state@,
{
    lemma_subscription_type_lengths();
}

} // verus!
