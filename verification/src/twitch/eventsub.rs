//! EventSub: the subscriptions the overlays need, and what each message on
//! the EventSub WebSocket calls for.
use vstd::prelude::*;
use crate::text::{chars_of, equals_str, string_of};

verus! {

/// One EventSub subscription: its type, version, and condition (pairs of
/// a field and the broadcaster id).
#[derive(Debug)]
pub struct Subscription {
    pub sub_type: String,
    pub version: String,
    pub condition: Vec<(String, String)>,
}

pub struct SubscriptionV {
    pub sub_type: Seq<char>,
    pub version: Seq<char>,
    pub condition: Seq<(Seq<char>, Seq<char>)>,
}

impl View for Subscription {
    type V = SubscriptionV;

    open spec fn view(&self) -> SubscriptionV {
        SubscriptionV {
            sub_type: self.sub_type@,
            version: self.version@,
            condition: self.condition@.map_values(|p: (String, String)| (p.0@, p.1@)),
        }
    }
}

/// The condition of a subscription type for broadcaster `b`: follows are
/// also moderated by the broadcaster, chat is read as the broadcaster, raids
/// are those coming to the broadcaster.
pub open spec fn condition_for(t: Seq<char>, b: Seq<char>) -> Seq<(Seq<char>, Seq<char>)> {
    if t == "channel.follow"@ {
        seq![("broadcaster_user_id"@, b), ("moderator_user_id"@, b)]
    } else if t == "channel.chat.message"@ {
        seq![("broadcaster_user_id"@, b), ("user_id"@, b)]
    } else if t == "channel.raid"@ {
        seq![("to_broadcaster_user_id"@, b)]
    } else {
        seq![("broadcaster_user_id"@, b)]
    }
}

/// The subscription types with their versions, in the order they are made.
pub open spec fn subscribed_types() -> Seq<(Seq<char>, Seq<char>)> {
    seq![
        ("channel.hype_train.begin"@, "2"@),
        ("channel.hype_train.progress"@, "2"@),
        ("channel.hype_train.end"@, "2"@),
        ("channel.follow"@, "2"@),
        ("channel.subscribe"@, "1"@),
        ("channel.subscription.gift"@, "1"@),
        ("channel.raid"@, "1"@),
        ("channel.cheer"@, "1"@),
        ("channel.chat.message"@, "1"@),
        ("channel.channel_points_custom_reward_redemption.add"@, "1"@),
    ]
}

/// The `i`-th subscription for broadcaster `b`.
pub open spec fn expected_subscription(i: int, b: Seq<char>) -> SubscriptionV {
    SubscriptionV {
        sub_type: subscribed_types()[i].0,
        version: subscribed_types()[i].1,
        condition: condition_for(subscribed_types()[i].0, b),
    }
}

fn pair(k: &str, v: &str) -> (p: (String, String))
    ensures
        p.0@ == k@ && p.1@ == v@,
{
    (string_of(&chars_of(k)), string_of(&chars_of(v)))
}

fn condition(t: &str, b: &str) -> (c: Vec<(String, String)>)
    ensures
        c@.map_values(|p: (String, String)| (p.0@, p.1@)) == condition_for(t@, b@),
{
    let tv = chars_of(t);
    let c = if equals_str(&tv, "channel.follow") {
        vec![pair("broadcaster_user_id", b), pair("moderator_user_id", b)]
    } else if equals_str(&tv, "channel.chat.message") {
        vec![pair("broadcaster_user_id", b), pair("user_id", b)]
    } else if equals_str(&tv, "channel.raid") {
        vec![pair("to_broadcaster_user_id", b)]
    } else {
        vec![pair("broadcaster_user_id", b)]
    };
    proof {
        assert(c@.map_values(|p: (String, String)| (p.0@, p.1@)) =~= condition_for(t@, b@));
    }
    c
}

/// The subscriptions for broadcaster `b`, in order.
pub fn eventsub_subscriptions(b: &str) -> (subs: Vec<Subscription>)
    ensures
        subs@.len() == subscribed_types().len(),
        forall|i: int|
            0 <= i < subs@.len() ==> (#[trigger] subs@[i])@ == expected_subscription(i, b@),
{
    let types: Vec<(&str, &str)> = vec![
        ("channel.hype_train.begin", "2"),
        ("channel.hype_train.progress", "2"),
        ("channel.hype_train.end", "2"),
        ("channel.follow", "2"),
        ("channel.subscribe", "1"),
        ("channel.subscription.gift", "1"),
        ("channel.raid", "1"),
        ("channel.cheer", "1"),
        ("channel.chat.message", "1"),
        ("channel.channel_points_custom_reward_redemption.add", "1"),
    ];
    proof {
        assert(types@.map_values(|p: (&str, &str)| (p.0@, p.1@)) =~= subscribed_types());
    }
    let mut subs: Vec<Subscription> = Vec::new();
    let mut i: usize = 0;
    while i < types.len()
        invariant
            i <= types@.len(),
            types@.map_values(|p: (&str, &str)| (p.0@, p.1@)) == subscribed_types(),
            subs@.len() == i,
            forall|j: int|
                0 <= j < i ==> (#[trigger] subs@[j])@ == expected_subscription(j, b@),
        decreases types@.len() - i,
    {
        let (t, v) = types[i];
        proof {
            assert(types@.map_values(|p: (&str, &str)| (p.0@, p.1@))[i as int] == (t@, v@));
        }
        subs.push(
            Subscription {
                sub_type: string_of(&chars_of(t)),
                version: string_of(&chars_of(v)),
                condition: condition(t, b),
            },
        );
        i = i + 1;
    }
    subs
}

/// What an EventSub message calls for.
#[derive(Debug)]
pub enum EventSubStep {
    /// Make the subscriptions for this session.
    Subscribe(String),
    /// Handle a notification of this type.
    Handle(String),
    /// Nothing.
    Ignore,
}

/// Decides what an EventSub message calls for, from its message type, the
/// session id of a welcome, and the subscription type of a notification
/// that carries an event.
pub fn eventsub_step(
    message_type: Option<String>,
    session_id: Option<String>,
    sub_type: Option<String>,
    has_event: bool,
) -> (s: EventSubStep)
    ensures
        match message_type {
            Some(m) => if m@ == "session_welcome"@ {
                match session_id {
                    Some(id) => s matches EventSubStep::Subscribe(x) && x@ == id@,
                    None => s is Ignore,
                }
            } else if m@ == "notification"@ {
                match sub_type {
                    Some(t) => if has_event {
                        s matches EventSubStep::Handle(x) && x@ == t@
                    } else {
                        s is Ignore
                    },
                    None => s is Ignore,
                }
            } else {
                s is Ignore
            },
            None => s is Ignore,
        },
{
    match message_type {
        Some(m) => {
            let mv = chars_of(m.as_str());
            if equals_str(&mv, "session_welcome") {
                match session_id {
                    Some(id) => EventSubStep::Subscribe(id),
                    None => EventSubStep::Ignore,
                }
            } else if equals_str(&mv, "notification") {
                match sub_type {
                    Some(t) => if has_event {
                        EventSubStep::Handle(t)
                    } else {
                        EventSubStep::Ignore
                    },
                    None => EventSubStep::Ignore,
                }
            } else {
                EventSubStep::Ignore
            }
        },
        None => EventSubStep::Ignore,
    }
}

} // verus!
