//! Twitch overlay models: hype train, alerts, chat, and session counters.
use vstd::prelude::*;

verus! {

/// The hype train as the overlay shows it.
#[derive(Debug, Clone)]
pub struct HypeTrainState {
    pub active: bool,
    pub level: u32,
    pub total: u32,
    pub progress: u32,
    pub goal: u32,
    pub top_contributions: Vec<TwitchContribution>,
    pub last_contribution: Option<TwitchContribution>,
    pub started_at: String,
    pub expires_at: String,
}

/// One contribution to a hype train.
#[derive(Debug, Clone)]
pub struct TwitchContribution {
    pub user_id: String,
    pub user_login: String,
    pub user_name: String,
    pub type_field: String,
    pub total: u32,
}

/// An alert to show on stream.
#[derive(Debug, Clone)]
pub enum TwitchAlert {
    Follow { user_name: String },
    Subscription { user_name: String, tier: String, is_gift: bool, cumulative_months: u32 },
    GiftSubscription { user_name: String, total: u32, tier: String, is_anonymous: bool },
    Raid { from_broadcaster_name: String, viewers: u32 },
    Cheer { user_name: String, bits: u32, message: String },
}

/// An alert in the queue, with its id and arrival time (Unix seconds).
#[derive(Debug, Clone)]
pub struct QueuedAlert {
    pub id: String,
    pub alert: TwitchAlert,
    pub timestamp: u64,
}

/// The alert queue.
#[derive(Debug, Clone)]
pub struct AlertState {
    pub active_alerts: Vec<QueuedAlert>,
}

/// A chat badge with its image when known.
#[derive(Debug, Clone)]
pub struct ChatBadge {
    pub set_id: String,
    pub id: String,
    pub info: String,
    pub image_url: Option<String>,
}

/// A piece of a chat message.
#[derive(Debug, Clone)]
pub enum ChatFragment {
    Text(String),
    Emote { id: String, text: String, url: String },
}

/// A chat message as the overlay shows it.
#[derive(Debug, Clone)]
pub struct ChatMessageData {
    pub id: String,
    pub user_id: String,
    pub user_login: String,
    pub user_name: String,
    pub message: String,
    pub fragments: Vec<ChatFragment>,
    pub color: String,
    pub pronouns: Option<String>,
    pub badges: Vec<ChatBadge>,
    pub is_mod: bool,
    pub is_sub: bool,
    pub is_vip: bool,
    pub is_broadcaster: bool,
    pub timestamp: u64,
}

/// The recent chat.
#[derive(Debug, Clone)]
pub struct ChatState {
    pub messages: Vec<ChatMessageData>,
}

/// The signed-in broadcaster.
#[derive(Debug, Clone)]
pub struct TwitchBroadcasterInfo {
    pub id: String,
    pub login: String,
    pub display_name: String,
}

impl Default for TwitchBroadcasterInfo {
    fn default() -> (b: Self)
        ensures
            b.id@.len() == 0,
            b.login@.len() == 0,
            b.display_name@.len() == 0,
    {
        TwitchBroadcasterInfo { id: String::new(), login: String::new(), display_name: String::new() }
    }
}

/// Counters for the current stream session.
#[derive(Debug, Clone)]
pub struct SessionStats {
    pub followers: u64,
    pub subscribers: u64,
    pub bits: u64,
    pub raids: u64,
    pub hosts: u64,
    pub gift_subs: u64,
    pub chat_messages: u64,
    pub unique_chatters: u64,
    pub new_chatters: u64,
    pub hype_train_level: u64,
    pub cheers_count: u64,
    pub redemptions: u64,
    pub viewer_count: u64,
    pub stream_title: String,
    pub category: String,
    /// Ids of the chatters seen this session, each once.
    pub seen_chatter_ids: Vec<String>,
}

impl Default for SessionStats {
    fn default() -> (s: Self)
        ensures
            s.followers == 0 && s.subscribers == 0 && s.bits == 0 && s.raids == 0 && s.hosts == 0,
            s.gift_subs == 0 && s.chat_messages == 0 && s.unique_chatters == 0,
            s.new_chatters == 0 && s.hype_train_level == 0 && s.cheers_count == 0,
            s.redemptions == 0 && s.viewer_count == 0,
            s.stream_title@.len() == 0 && s.category@.len() == 0,
            s.seen_chatter_ids@.len() == 0,
    {
        SessionStats {
            followers: 0,
            subscribers: 0,
            bits: 0,
            raids: 0,
            hosts: 0,
            gift_subs: 0,
            chat_messages: 0,
            unique_chatters: 0,
            new_chatters: 0,
            hype_train_level: 0,
            cheers_count: 0,
            redemptions: 0,
            viewer_count: 0,
            stream_title: String::new(),
            category: String::new(),
            seen_chatter_ids: Vec::new(),
        }
    }
}

} // verus!

verus! {

// ---------------------------------------------------------------------------
// Views: the models read as plain data
// ---------------------------------------------------------------------------

pub struct ContributionV {
    pub user_id: Seq<char>,
    pub user_login: Seq<char>,
    pub user_name: Seq<char>,
    pub type_field: Seq<char>,
    pub total: u32,
}

impl View for TwitchContribution {
    type V = ContributionV;

    open spec fn view(&self) -> ContributionV {
        ContributionV {
            user_id: self.user_id@,
            user_login: self.user_login@,
            user_name: self.user_name@,
            type_field: self.type_field@,
            total: self.total,
        }
    }
}

/// The views of a list of contributions.
pub open spec fn contribution_views(v: Seq<TwitchContribution>) -> Seq<ContributionV> {
    v.map_values(|c: TwitchContribution| c@)
}

pub struct HypeTrainV {
    pub active: bool,
    pub level: u32,
    pub total: u32,
    pub progress: u32,
    pub goal: u32,
    pub top_contributions: Seq<ContributionV>,
    pub last_contribution: Option<ContributionV>,
    pub started_at: Seq<char>,
    pub expires_at: Seq<char>,
}

impl View for HypeTrainState {
    type V = HypeTrainV;

    open spec fn view(&self) -> HypeTrainV {
        HypeTrainV {
            active: self.active,
            level: self.level,
            total: self.total,
            progress: self.progress,
            goal: self.goal,
            top_contributions: contribution_views(self.top_contributions@),
            last_contribution: match self.last_contribution {
                Some(c) => Some(c@),
                None => None,
            },
            started_at: self.started_at@,
            expires_at: self.expires_at@,
        }
    }
}

pub enum AlertV {
    Follow { user_name: Seq<char> },
    Subscription { user_name: Seq<char>, tier: Seq<char>, is_gift: bool, cumulative_months: u32 },
    GiftSubscription { user_name: Seq<char>, total: u32, tier: Seq<char>, is_anonymous: bool },
    Raid { from_broadcaster_name: Seq<char>, viewers: u32 },
    Cheer { user_name: Seq<char>, bits: u32, message: Seq<char> },
}

impl View for TwitchAlert {
    type V = AlertV;

    open spec fn view(&self) -> AlertV {
        match self {
            TwitchAlert::Follow { user_name } => AlertV::Follow { user_name: user_name@ },
            TwitchAlert::Subscription { user_name, tier, is_gift, cumulative_months } =>
                AlertV::Subscription {
                user_name: user_name@,
                tier: tier@,
                is_gift: *is_gift,
                cumulative_months: *cumulative_months,
            },
            TwitchAlert::GiftSubscription { user_name, total, tier, is_anonymous } =>
                AlertV::GiftSubscription {
                user_name: user_name@,
                total: *total,
                tier: tier@,
                is_anonymous: *is_anonymous,
            },
            TwitchAlert::Raid { from_broadcaster_name, viewers } => AlertV::Raid {
                from_broadcaster_name: from_broadcaster_name@,
                viewers: *viewers,
            },
            TwitchAlert::Cheer { user_name, bits, message } => AlertV::Cheer {
                user_name: user_name@,
                bits: *bits,
                message: message@,
            },
        }
    }
}

pub struct QueuedAlertV {
    pub id: Seq<char>,
    pub alert: AlertV,
    pub timestamp: u64,
}

impl View for QueuedAlert {
    type V = QueuedAlertV;

    open spec fn view(&self) -> QueuedAlertV {
        QueuedAlertV { id: self.id@, alert: self.alert@, timestamp: self.timestamp }
    }
}

impl View for AlertState {
    type V = Seq<QueuedAlertV>;

    open spec fn view(&self) -> Seq<QueuedAlertV> {
        self.active_alerts@.map_values(|q: QueuedAlert| q@)
    }
}

pub struct BadgeV {
    pub set_id: Seq<char>,
    pub id: Seq<char>,
    pub info: Seq<char>,
    pub image_url: Option<Seq<char>>,
}

impl View for ChatBadge {
    type V = BadgeV;

    open spec fn view(&self) -> BadgeV {
        BadgeV {
            set_id: self.set_id@,
            id: self.id@,
            info: self.info@,
            image_url: match self.image_url {
                Some(u) => Some(u@),
                None => None,
            },
        }
    }
}

/// The views of a list of badges.
pub open spec fn badge_views(v: Seq<ChatBadge>) -> Seq<BadgeV> {
    v.map_values(|b: ChatBadge| b@)
}

pub enum FragmentV {
    Text(Seq<char>),
    Emote { id: Seq<char>, text: Seq<char>, url: Seq<char> },
}

impl View for ChatFragment {
    type V = FragmentV;

    open spec fn view(&self) -> FragmentV {
        match self {
            ChatFragment::Text(t) => FragmentV::Text(t@),
            ChatFragment::Emote { id, text, url } => FragmentV::Emote {
                id: id@,
                text: text@,
                url: url@,
            },
        }
    }
}

/// The views of a list of fragments.
pub open spec fn fragment_views(v: Seq<ChatFragment>) -> Seq<FragmentV> {
    v.map_values(|f: ChatFragment| f@)
}

pub struct ChatMessageV {
    pub id: Seq<char>,
    pub user_id: Seq<char>,
    pub user_login: Seq<char>,
    pub user_name: Seq<char>,
    pub message: Seq<char>,
    pub fragments: Seq<FragmentV>,
    pub color: Seq<char>,
    pub pronouns: Option<Seq<char>>,
    pub badges: Seq<BadgeV>,
    pub is_mod: bool,
    pub is_sub: bool,
    pub is_vip: bool,
    pub is_broadcaster: bool,
    pub timestamp: u64,
}

impl View for ChatMessageData {
    type V = ChatMessageV;

    open spec fn view(&self) -> ChatMessageV {
        ChatMessageV {
            id: self.id@,
            user_id: self.user_id@,
            user_login: self.user_login@,
            user_name: self.user_name@,
            message: self.message@,
            fragments: fragment_views(self.fragments@),
            color: self.color@,
            pronouns: match self.pronouns {
                Some(p) => Some(p@),
                None => None,
            },
            badges: badge_views(self.badges@),
            is_mod: self.is_mod,
            is_sub: self.is_sub,
            is_vip: self.is_vip,
            is_broadcaster: self.is_broadcaster,
            timestamp: self.timestamp,
        }
    }
}

impl View for ChatState {
    type V = Seq<ChatMessageV>;

    open spec fn view(&self) -> Seq<ChatMessageV> {
        self.messages@.map_values(|m: ChatMessageData| m@)
    }
}

pub struct StatsV {
    pub followers: u64,
    pub subscribers: u64,
    pub bits: u64,
    pub raids: u64,
    pub hosts: u64,
    pub gift_subs: u64,
    pub chat_messages: u64,
    pub unique_chatters: u64,
    pub new_chatters: u64,
    pub hype_train_level: u64,
    pub cheers_count: u64,
    pub redemptions: u64,
    pub viewer_count: u64,
    pub stream_title: Seq<char>,
    pub category: Seq<char>,
    pub seen_chatter_ids: Seq<Seq<char>>,
}

/// The counters of a session that has just begun: all zero, no title, no
/// category, no chatter seen.
pub open spec fn fresh_stats() -> StatsV {
    StatsV {
        followers: 0,
        subscribers: 0,
        bits: 0,
        raids: 0,
        hosts: 0,
        gift_subs: 0,
        chat_messages: 0,
        unique_chatters: 0,
        new_chatters: 0,
        hype_train_level: 0,
        cheers_count: 0,
        redemptions: 0,
        viewer_count: 0,
        stream_title: Seq::empty(),
        category: Seq::empty(),
        seen_chatter_ids: Seq::empty(),
    }
}

impl View for SessionStats {
    type V = StatsV;

    open spec fn view(&self) -> StatsV {
        StatsV {
            followers: self.followers,
            subscribers: self.subscribers,
            bits: self.bits,
            raids: self.raids,
            hosts: self.hosts,
            gift_subs: self.gift_subs,
            chat_messages: self.chat_messages,
            unique_chatters: self.unique_chatters,
            new_chatters: self.new_chatters,
            hype_train_level: self.hype_train_level,
            cheers_count: self.cheers_count,
            redemptions: self.redemptions,
            viewer_count: self.viewer_count,
            stream_title: self.stream_title@,
            category: self.category@,
            seen_chatter_ids: self.seen_chatter_ids@.map_values(|s: String| s@),
        }
    }
}

pub struct BroadcasterV {
    pub id: Seq<char>,
    pub login: Seq<char>,
    pub display_name: Seq<char>,
}

impl View for TwitchBroadcasterInfo {
    type V = BroadcasterV;

    open spec fn view(&self) -> BroadcasterV {
        BroadcasterV { id: self.id@, login: self.login@, display_name: self.display_name@ }
    }
}

} // verus!
