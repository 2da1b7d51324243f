//! OBS WebSocket (protocol v5): the status shown in the settings window,
//! the session's reactions to what OBS sends, and the plugin's actions.
use vstd::prelude::*;
use crate::crypto::{compute_auth, obs_auth_text};
use crate::models::{
    action_field, action_v, fields_view, offered_actions, plain_field, plain_v, text_default,
    DefaultView, FieldV,
    KindV, PluginCategory, PluginSettingsDefinition, SettingFieldType, SettingValue,
};
use crate::text::{
    chars_of, decimal, equals_str, has_prefix, parse_bool, parse_bool_text, parse_i64,
    parse_i64_text, push_decimal, push_str, same_chars, string_of, strip_prefix, head_to,
    tail_from,
};

verus! {

/// An audio input and whether it is muted.
#[derive(Debug, Clone)]
pub struct ObsAudioSource {
    pub name: String,
    pub muted: bool,
}

/// An item of the current scene.
#[derive(Debug, Clone)]
pub struct ObsSceneItem {
    pub id: i64,
    pub name: String,
    pub enabled: bool,
}

/// What the settings window shows of OBS.
#[derive(Debug, Clone)]
pub struct ObsStatus {
    pub connected: bool,
    pub current_scene: String,
    pub scenes: Vec<String>,
    pub audio_sources: Vec<ObsAudioSource>,
    pub scene_items: Vec<ObsSceneItem>,
    pub error: Option<String>,
}

/// A command for the connection task.
#[derive(Debug)]
pub enum ObsRequest {
    SwitchScene(String),
    ToggleMute(String),
    SetSceneItemEnabled { scene: String, item_id: i64, enabled: bool },
}

/// A request to send to OBS.
#[derive(Debug)]
pub enum ObsCall {
    GetSceneList,
    GetInputList,
    GetSceneItemList { scene: String },
    GetInputMute { input: String },
    SetCurrentProgramScene { scene: String },
    ToggleInputMute { input: String },
    SetSceneItemEnabled { scene: String, item_id: i64, enabled: bool },
}

/// A message to send to OBS.
#[derive(Debug)]
pub enum ObsOutgoing {
    /// The reply to Hello: the protocol version, the event categories
    /// subscribed to, and the authentication string when one is due.
    Identify { rpc_version: u32, event_subscriptions: u32, authentication: Option<String> },
    Request(ObsCall),
}

/// A scene item as listed in a response: present parts only.
#[derive(Debug)]
pub struct SceneItemFields {
    pub id: Option<i64>,
    pub name: Option<String>,
    pub enabled: Option<bool>,
}

/// The parts of a message from OBS that the session reads, each present
/// when the message holds a value of the expected kind there.
#[derive(Debug)]
pub struct ObsMessage {
    /// `op`; absent when not a whole number.
    pub op: Option<u64>,
    /// Hello: `d.authentication.challenge` and `.salt`.
    pub challenge: Option<String>,
    pub salt: Option<String>,
    /// Event: `d.eventType`.
    pub event_type: Option<String>,
    /// Response: `d.requestId` and `d.requestStatus.result`.
    pub request_id: Option<String>,
    pub request_ok: Option<bool>,
    /// `sceneName` of event data.
    pub scene_name: Option<String>,
    /// `scenes` of event or response data: the `sceneName` of each entry.
    pub scenes: Option<Vec<Option<String>>>,
    /// `currentProgramSceneName` of response data.
    pub current_program_scene: Option<String>,
    /// `inputName` of event data.
    pub input_name: Option<String>,
    /// `inputMuted` of event or response data.
    pub input_muted: Option<bool>,
    /// `inputs` of response data: the `inputName` of each entry.
    pub inputs: Option<Vec<Option<String>>>,
    /// `sceneItemId` and `sceneItemEnabled` of event data.
    pub scene_item_id: Option<i64>,
    pub scene_item_enabled: Option<bool>,
    /// `sceneItems` of response data.
    pub scene_items: Option<Vec<SceneItemFields>>,
}

// ---------------------------------------------------------------------------
// Views
// ---------------------------------------------------------------------------

pub struct ObsStatusV {
    pub connected: bool,
    pub current_scene: Seq<char>,
    pub scenes: Seq<Seq<char>>,
    pub audio_sources: Seq<(Seq<char>, bool)>,
    pub scene_items: Seq<(i64, Seq<char>, bool)>,
    pub error: Option<Seq<char>>,
}

/// The views of a list of texts.
pub open spec fn text_views(v: Seq<String>) -> Seq<Seq<char>> {
    v.map_values(|s: String| s@)
}

/// The views of a list of audio sources.
pub open spec fn source_views(v: Seq<ObsAudioSource>) -> Seq<(Seq<char>, bool)> {
    v.map_values(|a: ObsAudioSource| (a.name@, a.muted))
}

/// The views of a list of scene items.
pub open spec fn item_views(v: Seq<ObsSceneItem>) -> Seq<(i64, Seq<char>, bool)> {
    v.map_values(|i: ObsSceneItem| (i.id, i.name@, i.enabled))
}

impl View for ObsStatus {
    type V = ObsStatusV;

    open spec fn view(&self) -> ObsStatusV {
        ObsStatusV {
            connected: self.connected,
            current_scene: self.current_scene@,
            scenes: text_views(self.scenes@),
            audio_sources: source_views(self.audio_sources@),
            scene_items: item_views(self.scene_items@),
            error: match self.error {
                Some(e) => Some(e@),
                None => None,
            },
        }
    }
}

pub enum ObsCallV {
    GetSceneList,
    GetInputList,
    GetSceneItemList { scene: Seq<char> },
    GetInputMute { input: Seq<char> },
    SetCurrentProgramScene { scene: Seq<char> },
    ToggleInputMute { input: Seq<char> },
    SetSceneItemEnabled { scene: Seq<char>, item_id: i64, enabled: bool },
}

impl View for ObsCall {
    type V = ObsCallV;

    open spec fn view(&self) -> ObsCallV {
        match self {
            ObsCall::GetSceneList => ObsCallV::GetSceneList,
            ObsCall::GetInputList => ObsCallV::GetInputList,
            ObsCall::GetSceneItemList { scene } => ObsCallV::GetSceneItemList { scene: scene@ },
            ObsCall::GetInputMute { input } => ObsCallV::GetInputMute { input: input@ },
            ObsCall::SetCurrentProgramScene { scene } => ObsCallV::SetCurrentProgramScene {
                scene: scene@,
            },
            ObsCall::ToggleInputMute { input } => ObsCallV::ToggleInputMute { input: input@ },
            ObsCall::SetSceneItemEnabled { scene, item_id, enabled } =>
                ObsCallV::SetSceneItemEnabled { scene: scene@, item_id: *item_id, enabled: *enabled },
        }
    }
}

pub enum OutgoingV {
    Identify { rpc_version: u32, event_subscriptions: u32, authentication: Option<Seq<char>> },
    Request(ObsCallV),
}

impl View for ObsOutgoing {
    type V = OutgoingV;

    open spec fn view(&self) -> OutgoingV {
        match self {
            ObsOutgoing::Identify { rpc_version, event_subscriptions, authentication } =>
                OutgoingV::Identify {
                rpc_version: *rpc_version,
                event_subscriptions: *event_subscriptions,
                authentication: match authentication {
                    Some(a) => Some(a@),
                    None => None,
                },
            },
            ObsOutgoing::Request(c) => OutgoingV::Request(c@),
        }
    }
}

/// The views of a list of outgoing messages.
pub open spec fn outgoing_views(v: Seq<ObsOutgoing>) -> Seq<OutgoingV> {
    v.map_values(|o: ObsOutgoing| o@)
}

// ---------------------------------------------------------------------------
// Requests: their type names and ids
// ---------------------------------------------------------------------------

/// The request type OBS knows a call by.
pub open spec fn request_type_of(c: ObsCallV) -> Seq<char> {
    match c {
        ObsCallV::GetSceneList => "GetSceneList"@,
        ObsCallV::GetInputList => "GetInputList"@,
        ObsCallV::GetSceneItemList { .. } => "GetSceneItemList"@,
        ObsCallV::GetInputMute { .. } => "GetInputMute"@,
        ObsCallV::SetCurrentProgramScene { .. } => "SetCurrentProgramScene"@,
        ObsCallV::ToggleInputMute { .. } => "ToggleInputMute"@,
        ObsCallV::SetSceneItemEnabled { .. } => "SetSceneItemEnabled"@,
    }
}

/// The id under which a call is sent, by which its response is recognised.
pub open spec fn request_id_of(c: ObsCallV) -> Seq<char> {
    match c {
        ObsCallV::GetSceneList => "get_scenes"@,
        ObsCallV::GetInputList => "get_inputs"@,
        ObsCallV::GetSceneItemList { .. } => "get_scene_items"@,
        ObsCallV::GetInputMute { input } => "get_mute:"@ + input,
        ObsCallV::SetCurrentProgramScene { .. } => "switch_scene"@,
        ObsCallV::ToggleInputMute { .. } => "toggle_mute"@,
        ObsCallV::SetSceneItemEnabled { .. } => "set_scene_item_enabled"@,
    }
}

impl ObsCall {
    /// The request type OBS knows this call by.
    pub fn request_type(&self) -> (t: String)
        ensures
            t@ == request_type_of(self@),
    {
        let s = match self {
            ObsCall::GetSceneList => "GetSceneList",
            ObsCall::GetInputList => "GetInputList",
            ObsCall::GetSceneItemList { .. } => "GetSceneItemList",
            ObsCall::GetInputMute { .. } => "GetInputMute",
            ObsCall::SetCurrentProgramScene { .. } => "SetCurrentProgramScene",
            ObsCall::ToggleInputMute { .. } => "ToggleInputMute",
            ObsCall::SetSceneItemEnabled { .. } => "SetSceneItemEnabled",
        };
        string_of(&chars_of(s))
    }

    /// The id this call is sent under.
    pub fn request_id(&self) -> (id: String)
        ensures
            id@ == request_id_of(self@),
    {
        match self {
            ObsCall::GetInputMute { input } => {
                let mut v: Vec<char> = Vec::new();
                push_str(&mut v, "get_mute:");
                push_str(&mut v, input.as_str());
                string_of(&v)
            },
            _ => {
                let s = match self {
                    ObsCall::GetSceneList => "get_scenes",
                    ObsCall::GetInputList => "get_inputs",
                    ObsCall::GetSceneItemList { .. } => "get_scene_items",
                    ObsCall::SetCurrentProgramScene { .. } => "switch_scene",
                    ObsCall::ToggleInputMute { .. } => "toggle_mute",
                    _ => "set_scene_item_enabled",
                };
                string_of(&chars_of(s))
            },
        }
    }
}

// ---------------------------------------------------------------------------
// Reading lists out of messages
// ---------------------------------------------------------------------------

/// The names present in a list, in order.
pub open spec fn present_names(l: Seq<Option<String>>) -> Seq<Seq<char>>
    decreases l.len(),
{
    if l.len() == 0 {
        Seq::empty()
    } else {
        let rest = present_names(l.drop_last());
        match l.last() {
            Some(n) => rest.push(n@),
            None => rest,
        }
    }
}

/// The names of an optional list (none when absent).
pub open spec fn names_of(o: Option<Vec<Option<String>>>) -> Seq<Seq<char>> {
    match o {
        Some(l) => present_names(l@),
        None => Seq::empty(),
    }
}

/// The items of a list that have both an id and a name, enabled unless
/// said otherwise.
pub open spec fn present_items(l: Seq<SceneItemFields>) -> Seq<(i64, Seq<char>, bool)>
    decreases l.len(),
{
    if l.len() == 0 {
        Seq::empty()
    } else {
        let rest = present_items(l.drop_last());
        let f = l.last();
        match (f.id, f.name) {
            (Some(id), Some(name)) => rest.push(
                (
                    id,
                    name@,
                    match f.enabled {
                        Some(e) => e,
                        None => true,
                    },
                ),
            ),
            _ => rest,
        }
    }
}

/// The items of an optional list.
pub open spec fn items_of(o: Option<Vec<SceneItemFields>>) -> Seq<(i64, Seq<char>, bool)> {
    match o {
        Some(l) => present_items(l@),
        None => Seq::empty(),
    }
}

/// The names in an optional list (`extract_scene_names`).
pub fn extract_names(o: &Option<Vec<Option<String>>>) -> (out: Vec<String>)
    ensures
        text_views(out@) == names_of(*o),
{
    let mut out: Vec<String> = Vec::new();
    match o {
        Some(l) => {
            let n = l.len();
            let mut i: usize = 0;
            while i < n
                invariant
                    n == l.len(),
                    i <= n,
                    text_views(out@) == present_names(l@.take(i as int)),
                decreases n - i,
            {
                proof {
                    assert(l@.take(i + 1).drop_last() =~= l@.take(i as int));
                    assert(l@.take(i + 1).last() == l@[i as int]);
                }
                match &l[i] {
                    Some(name) => {
                        let ghost prev = out@;
                        out.push(name.clone());
                        proof {
                            assert(text_views(out@) =~= text_views(prev).push(name@));
                        }
                    },
                    None => {},
                }
                i = i + 1;
            }
            proof {
                assert(l@.take(n as int) =~= l@);
            }
        },
        None => {
            proof {
                assert(text_views(out@) =~= Seq::<Seq<char>>::empty());
            }
        },
    }
    out
}

/// The complete items in an optional list (`extract_scene_items`).
pub fn extract_scene_items(o: &Option<Vec<SceneItemFields>>) -> (out: Vec<ObsSceneItem>)
    ensures
        item_views(out@) == items_of(*o),
{
    let mut out: Vec<ObsSceneItem> = Vec::new();
    match o {
        Some(l) => {
            let n = l.len();
            let mut i: usize = 0;
            while i < n
                invariant
                    n == l.len(),
                    i <= n,
                    item_views(out@) == present_items(l@.take(i as int)),
                decreases n - i,
            {
                proof {
                    assert(l@.take(i + 1).drop_last() =~= l@.take(i as int));
                    assert(l@.take(i + 1).last() == l@[i as int]);
                }
                let f = &l[i];
                match (&f.id, &f.name) {
                    (Some(id), Some(name)) => {
                        let enabled = match f.enabled {
                            Some(e) => e,
                            None => true,
                        };
                        let item = ObsSceneItem { id: *id, name: name.clone(), enabled };
                        let ghost prev = out@;
                        out.push(item);
                        proof {
                            assert(item_views(out@) =~= item_views(prev).push(
                                (*id, name@, enabled),
                            ));
                        }
                    },
                    _ => {},
                }
                i = i + 1;
            }
            proof {
                assert(l@.take(n as int) =~= l@);
            }
        },
        None => {
            proof {
                assert(item_views(out@) =~= Seq::<(i64, Seq<char>, bool)>::empty());
            }
        },
    }
    out
}

} // verus!

verus! {

// ---------------------------------------------------------------------------
// Status edits
// ---------------------------------------------------------------------------

/// The position of the first source called `name`.
pub open spec fn first_source(srcs: Seq<(Seq<char>, bool)>, name: Seq<char>) -> Option<int>
    decreases srcs.len(),
{
    if srcs.len() == 0 {
        None
    } else if srcs[0].0 == name {
        Some(0)
    } else {
        match first_source(srcs.skip(1), name) {
            Some(i) => Some(i + 1),
            None => None,
        }
    }
}

/// The position of the first item with id `id`.
pub open spec fn first_item(items: Seq<(i64, Seq<char>, bool)>, id: i64) -> Option<int>
    decreases items.len(),
{
    if items.len() == 0 {
        None
    } else if items[0].0 == id {
        Some(0)
    } else {
        match first_item(items.skip(1), id) {
            Some(i) => Some(i + 1),
            None => None,
        }
    }
}

/// The sources without those called `name`.
pub open spec fn without_source(srcs: Seq<(Seq<char>, bool)>, name: Seq<char>) -> Seq<(Seq<char>, bool)>
    decreases srcs.len(),
{
    if srcs.len() == 0 {
        Seq::empty()
    } else {
        let rest = without_source(srcs.drop_last(), name);
        if srcs.last().0 == name {
            rest
        } else {
            rest.push(srcs.last())
        }
    }
}

/// The sources after the first one called `name` is marked `muted`.
pub open spec fn muted_update(srcs: Seq<(Seq<char>, bool)>, name: Seq<char>, muted: bool) -> Seq<
    (Seq<char>, bool),
> {
    match first_source(srcs, name) {
        Some(i) => srcs.update(i, (name, muted)),
        None => srcs,
    }
}

/// The items after the first one with id `id` is marked `enabled`.
pub open spec fn enabled_update(items: Seq<(i64, Seq<char>, bool)>, id: i64, enabled: bool) -> Seq<
    (i64, Seq<char>, bool),
> {
    match first_item(items, id) {
        Some(i) => items.update(i, (id, items[i].1, enabled)),
        None => items,
    }
}

/// The sources with `(name, muted)` added at the end, unless a source
/// called `name` is listed.
pub open spec fn added_source(srcs: Seq<(Seq<char>, bool)>, name: Seq<char>, muted: bool) -> Seq<
    (Seq<char>, bool),
> {
    match first_source(srcs, name) {
        Some(_) => srcs,
        None => srcs.push((name, muted)),
    }
}

proof fn lemma_first_source(srcs: Seq<(Seq<char>, bool)>, name: Seq<char>, i: int)
    requires
        0 <= i <= srcs.len(),
        forall|j: int| 0 <= j < i ==> #[trigger] srcs[j].0 != name,
    ensures
        i < srcs.len() && srcs[i].0 == name ==> first_source(srcs, name) == Some(i),
        i == srcs.len() ==> first_source(srcs, name) is None,
    decreases i,
{
    if i > 0 {
        lemma_first_source(srcs.skip(1), name, i - 1);
    } else if srcs.len() > 0 {
    }
}

proof fn lemma_first_item(items: Seq<(i64, Seq<char>, bool)>, id: i64, i: int)
    requires
        0 <= i <= items.len(),
        forall|j: int| 0 <= j < i ==> #[trigger] items[j].0 != id,
    ensures
        i < items.len() && items[i].0 == id ==> first_item(items, id) == Some(i),
        i == items.len() ==> first_item(items, id) is None,
    decreases i,
{
    if i > 0 {
        lemma_first_item(items.skip(1), id, i - 1);
    }
}

/// Marks the first source called `name` muted or not.
fn set_source_muted(srcs: &mut Vec<ObsAudioSource>, name: &str, muted: bool)
    ensures
        source_views(final(srcs)@) == muted_update(source_views(old(srcs)@), name@, muted),
{
    let n = srcs.len();
    let mut i: usize = 0;
    while i < n
        invariant
            n == srcs.len(),
            i <= n,
            srcs@ == old(srcs)@,
            forall|j: int| 0 <= j < i ==> #[trigger] source_views(srcs@)[j].0 != name@,
        decreases n - i,
    {
        if equals_str(&chars_of(srcs[i].name.as_str()), name) {
            proof {
                lemma_first_source(source_views(srcs@), name@, i as int);
            }
            let updated = ObsAudioSource { name: srcs[i].name.clone(), muted };
            srcs.set(i, updated);
            proof {
                assert(source_views(srcs@) =~= source_views(old(srcs)@).update(
                    i as int,
                    (name@, muted),
                ));
            }
            return;
        }
        i = i + 1;
    }
    proof {
        lemma_first_source(source_views(srcs@), name@, n as int);
    }
}

/// Marks the first item with id `id` enabled or not.
fn set_item_enabled(items: &mut Vec<ObsSceneItem>, id: i64, enabled: bool)
    ensures
        item_views(final(items)@) == enabled_update(item_views(old(items)@), id, enabled),
{
    let n = items.len();
    let mut i: usize = 0;
    while i < n
        invariant
            n == items.len(),
            i <= n,
            items@ == old(items)@,
            forall|j: int| 0 <= j < i ==> #[trigger] item_views(items@)[j].0 != id,
        decreases n - i,
    {
        if items[i].id == id {
            proof {
                lemma_first_item(item_views(items@), id, i as int);
            }
            let updated = ObsSceneItem { id, name: items[i].name.clone(), enabled };
            items.set(i, updated);
            proof {
                assert(item_views(items@) =~= item_views(old(items)@).update(
                    i as int,
                    (id, item_views(old(items)@)[i as int].1, enabled),
                ));
            }
            return;
        }
        i = i + 1;
    }
    proof {
        lemma_first_item(item_views(items@), id, n as int);
    }
}

/// Removes the sources called `name`.
fn remove_sources(srcs: &mut Vec<ObsAudioSource>, name: &str)
    ensures
        source_views(final(srcs)@) == without_source(source_views(old(srcs)@), name@),
{
    let ghost orig = source_views(srcs@);
    let mut kept: Vec<ObsAudioSource> = Vec::new();
    let n = srcs.len();
    let mut i: usize = 0;
    while i < n
        invariant
            n == srcs.len(),
            i <= n,
            orig == source_views(srcs@),
            source_views(kept@) == without_source(orig.take(i as int), name@),
        decreases n - i,
    {
        proof {
            assert(orig.take(i + 1).drop_last() =~= orig.take(i as int));
            assert(orig.take(i + 1).last() == orig[i as int]);
        }
        if !equals_str(&chars_of(srcs[i].name.as_str()), name) {
            let ghost prev = kept@;
            let a = ObsAudioSource { name: srcs[i].name.clone(), muted: srcs[i].muted };
            kept.push(a);
            proof {
                assert(source_views(kept@) =~= source_views(prev).push(orig[i as int]));
            }
        }
        i = i + 1;
    }
    proof {
        assert(orig.take(n as int) =~= orig);
    }
    *srcs = kept;
}

/// Adds a source unless one with the same name is listed.
fn add_source_if_new(srcs: &mut Vec<ObsAudioSource>, name: String, muted: bool)
    ensures
        source_views(final(srcs)@) == added_source(source_views(old(srcs)@), name@, muted),
{
    let n = srcs.len();
    let mut i: usize = 0;
    while i < n
        invariant
            n == srcs.len(),
            i <= n,
            srcs@ == old(srcs)@,
            forall|j: int| 0 <= j < i ==> #[trigger] source_views(srcs@)[j].0 != name@,
        decreases n - i,
    {
        if equals_str(&chars_of(srcs[i].name.as_str()), name.as_str()) {
            proof {
                lemma_first_source(source_views(srcs@), name@, i as int);
            }
            return;
        }
        i = i + 1;
    }
    proof {
        lemma_first_source(source_views(srcs@), name@, n as int);
    }
    let ghost prev = srcs@;
    srcs.push(ObsAudioSource { name, muted });
    proof {
        assert(source_views(srcs@) =~= source_views(prev).push((name@, muted)));
    }
}

/// The status after the connection is lost: disconnected, nothing listed,
/// with the given error.
pub open spec fn reset_view(error: Option<Seq<char>>) -> ObsStatusV {
    ObsStatusV {
        connected: false,
        current_scene: Seq::empty(),
        scenes: Seq::empty(),
        audio_sources: Seq::empty(),
        scene_items: Seq::empty(),
        error,
    }
}

impl ObsStatus {
    /// Forgets everything about OBS, keeping `error` as the reason.
    pub fn reset(&mut self, error: Option<String>)
        ensures
            final(self)@ == reset_view(
                match error {
                    Some(e) => Some(e@),
                    None => None,
                },
            ),
    {
        self.connected = false;
        self.current_scene = String::new();
        self.scenes = Vec::new();
        self.audio_sources = Vec::new();
        self.scene_items = Vec::new();
        self.error = error;
        proof {
            assert(text_views(self.scenes@) =~= Seq::<Seq<char>>::empty());
            assert(source_views(self.audio_sources@) =~= Seq::<(Seq<char>, bool)>::empty());
            assert(item_views(self.scene_items@) =~= Seq::<(i64, Seq<char>, bool)>::empty());
        }
    }
}

impl Default for ObsStatus {
    fn default() -> (s: Self)
        ensures
            s@ == reset_view(None),
    {
        let s = ObsStatus {
            connected: false,
            current_scene: String::new(),
            scenes: Vec::new(),
            audio_sources: Vec::new(),
            scene_items: Vec::new(),
            error: None,
        };
        proof {
            assert(text_views(s.scenes@) =~= Seq::<Seq<char>>::empty());
            assert(source_views(s.audio_sources@) =~= Seq::<(Seq<char>, bool)>::empty());
            assert(item_views(s.scene_items@) =~= Seq::<(i64, Seq<char>, bool)>::empty());
        }
        s
    }
}


// ---------------------------------------------------------------------------
// Reacting to events and responses
// ---------------------------------------------------------------------------

/// An optional text, empty when absent.
pub open spec fn text_or_empty(o: Option<String>) -> Seq<char> {
    match o {
        Some(s) => s@,
        None => Seq::empty(),
    }
}

/// The request for the items of `scene`, when it has a name.
pub open spec fn items_request(scene: Seq<char>) -> Seq<ObsCallV> {
    if scene.len() == 0 {
        Seq::empty()
    } else {
        seq![ObsCallV::GetSceneItemList { scene }]
    }
}

/// Calls, as messages to send.
pub open spec fn requests(calls: Seq<ObsCallV>) -> Seq<OutgoingV> {
    calls.map_values(|c: ObsCallV| OutgoingV::Request(c))
}

/// What an event does: the status after it, the requests it calls for,
/// and whether the status was updated (and so is announced).
pub open spec fn event_effect(s: ObsStatusV, m: ObsMessage) -> (ObsStatusV, Seq<ObsCallV>, bool) {
    let et = text_or_empty(m.event_type);
    if et == "CurrentProgramSceneChanged"@ {
        let scene = text_or_empty(m.scene_name);
        (
            ObsStatusV { current_scene: scene, scene_items: Seq::empty(), ..s },
            items_request(scene),
            true,
        )
    } else if et == "SceneListChanged"@ {
        (ObsStatusV { scenes: names_of(m.scenes), ..s }, Seq::empty(), true)
    } else if et == "InputMuteStateChanged"@ {
        let muted = match m.input_muted {
            Some(b) => b,
            None => false,
        };
        (
            ObsStatusV {
                audio_sources: muted_update(s.audio_sources, text_or_empty(m.input_name), muted),
                ..s
            },
            Seq::empty(),
            true,
        )
    } else if et == "InputCreated"@ {
        (s, seq![ObsCallV::GetInputList], false)
    } else if et == "InputRemoved"@ {
        (
            ObsStatusV {
                audio_sources: without_source(s.audio_sources, text_or_empty(m.input_name)),
                ..s
            },
            Seq::empty(),
            true,
        )
    } else if et == "SceneItemEnableStateChanged"@ {
        let id = match m.scene_item_id {
            Some(i) => i,
            None => -1i64,
        };
        let enabled = match m.scene_item_enabled {
            Some(b) => b,
            None => true,
        };
        (
            ObsStatusV { scene_items: enabled_update(s.scene_items, id, enabled), ..s },
            Seq::empty(),
            true,
        )
    } else if et == "SceneItemCreated"@ || et == "SceneItemRemoved"@ {
        (s, items_request(s.current_scene), false)
    } else {
        (s, Seq::empty(), false)
    }
}

/// What a response does: the status after it, the requests it calls for,
/// and whether the status was updated. Failed requests change nothing.
pub open spec fn response_effect(s: ObsStatusV, m: ObsMessage) -> (ObsStatusV, Seq<ObsCallV>, bool) {
    let id = text_or_empty(m.request_id);
    let ok = m.request_ok == Some(true);
    if has_prefix(id, "get_mute:"@) {
        if ok {
            let muted = match m.input_muted {
                Some(b) => b,
                None => false,
            };
            (
                ObsStatusV {
                    audio_sources: added_source(
                        s.audio_sources,
                        id.skip("get_mute:"@.len() as int),
                        muted,
                    ),
                    ..s
                },
                Seq::empty(),
                true,
            )
        } else {
            (s, Seq::empty(), false)
        }
    } else if ok && id == "get_scenes"@ {
        let current = text_or_empty(m.current_program_scene);
        (
            ObsStatusV { scenes: names_of(m.scenes), current_scene: current, ..s },
            items_request(current),
            true,
        )
    } else if ok && id == "get_inputs"@ {
        (
            ObsStatusV { audio_sources: Seq::empty(), ..s },
            names_of(m.inputs).map_values(|n: Seq<char>| ObsCallV::GetInputMute { input: n }),
            true,
        )
    } else if ok && id == "get_scene_items"@ {
        (ObsStatusV { scene_items: items_of(m.scene_items), ..s }, Seq::empty(), true)
    } else {
        (s, Seq::empty(), false)
    }
}

/// The authentication string owed in reply to Hello: due when a password
/// is set and Hello carries both a challenge and a salt.
pub open spec fn identify_auth(password: Seq<char>, m: ObsMessage) -> Option<Seq<char>> {
    match (m.challenge, m.salt) {
        (Some(c), Some(salt)) => if password.len() > 0 {
            Some(obs_auth_text(password, salt@, c@))
        } else {
            None
        },
        _ => None,
    }
}

/// What a message from OBS does to the session: whether it is then
/// authenticated, the status, the messages to send back, and whether the
/// status was updated. Events and responses count only once identified; a
/// message without a whole-number `op` is ignored.
pub open spec fn message_effect(authenticated: bool, s: ObsStatusV, m: ObsMessage, password: Seq<
    char,
>) -> (bool, ObsStatusV, Seq<OutgoingV>, bool) {
    let op: u64 = match m.op {
        Some(o) => o,
        None => 99,
    };
    if op == 0 {
        (
            authenticated,
            s,
            seq![
                OutgoingV::Identify {
                    rpc_version: 1,
                    event_subscriptions: 140,
                    authentication: identify_auth(password, m),
                },
            ],
            false,
        )
    } else if op == 2 {
        (
            true,
            ObsStatusV { connected: true, error: None, ..s },
            seq![
                OutgoingV::Request(ObsCallV::GetSceneList),
                OutgoingV::Request(ObsCallV::GetInputList),
            ],
            true,
        )
    } else if op == 5 && authenticated {
        let e = event_effect(s, m);
        (true, e.0, requests(e.1), e.2)
    } else if op == 7 && authenticated {
        let e = response_effect(s, m);
        (true, e.0, requests(e.1), e.2)
    } else {
        (authenticated, s, Seq::empty(), false)
    }
}

fn opt_chars(o: &Option<String>) -> (v: Vec<char>)
    ensures
        v@ == text_or_empty(*o),
{
    match o {
        Some(s) => chars_of(s.as_str()),
        None => Vec::new(),
    }
}

fn no_messages() -> (v: Vec<ObsOutgoing>)
    ensures
        outgoing_views(v@) == requests(Seq::empty()),
{
    let v: Vec<ObsOutgoing> = Vec::new();
    proof {
        assert(outgoing_views(v@) =~= requests(Seq::empty()));
    }
    v
}

fn request_items(scene: &Vec<char>) -> (v: Vec<ObsOutgoing>)
    ensures
        outgoing_views(v@) == requests(items_request(scene@)),
{
    if scene.len() == 0 {
        no_messages()
    } else {
        let v = vec![ObsOutgoing::Request(ObsCall::GetSceneItemList { scene: string_of(scene) })];
        proof {
            assert(outgoing_views(v@) =~= requests(items_request(scene@)));
        }
        v
    }
}

/// Applies an event to the status; returns the requests to send and
/// whether the status was updated.
pub fn handle_event(status: &mut ObsStatus, m: &ObsMessage) -> (r: (Vec<ObsOutgoing>, bool))
    ensures
        final(status)@ == event_effect(old(status)@, *m).0,
        outgoing_views(r.0@) == requests(event_effect(old(status)@, *m).1),
        r.1 == event_effect(old(status)@, *m).2,
{
    let et = opt_chars(&m.event_type);
    if equals_str(&et, "CurrentProgramSceneChanged") {
        let scene = opt_chars(&m.scene_name);
        status.current_scene = string_of(&scene);
        status.scene_items = Vec::new();
        proof {
            assert(item_views(status.scene_items@) =~= Seq::<(i64, Seq<char>, bool)>::empty());
        }
        (request_items(&scene), true)
    } else if equals_str(&et, "SceneListChanged") {
        status.scenes = extract_names(&m.scenes);
        (no_messages(), true)
    } else if equals_str(&et, "InputMuteStateChanged") {
        let name = string_of(&opt_chars(&m.input_name));
        let muted = match m.input_muted {
            Some(b) => b,
            None => false,
        };
        set_source_muted(&mut status.audio_sources, name.as_str(), muted);
        (no_messages(), true)
    } else if equals_str(&et, "InputCreated") {
        let v = vec![ObsOutgoing::Request(ObsCall::GetInputList)];
        proof {
            assert(outgoing_views(v@) =~= requests(seq![ObsCallV::GetInputList]));
        }
        (v, false)
    } else if equals_str(&et, "InputRemoved") {
        let name = string_of(&opt_chars(&m.input_name));
        remove_sources(&mut status.audio_sources, name.as_str());
        (no_messages(), true)
    } else if equals_str(&et, "SceneItemEnableStateChanged") {
        let id: i64 = match m.scene_item_id {
            Some(i) => i,
            None => -1,
        };
        let enabled = match m.scene_item_enabled {
            Some(b) => b,
            None => true,
        };
        set_item_enabled(&mut status.scene_items, id, enabled);
        (no_messages(), true)
    } else if equals_str(&et, "SceneItemCreated") || equals_str(&et, "SceneItemRemoved") {
        let scene = chars_of(status.current_scene.as_str());
        (request_items(&scene), false)
    } else {
        (no_messages(), false)
    }
}

/// Applies a response to the status; returns the requests to send and
/// whether the status was updated.
pub fn handle_response(status: &mut ObsStatus, m: &ObsMessage) -> (r: (Vec<ObsOutgoing>, bool))
    ensures
        final(status)@ == response_effect(old(status)@, *m).0,
        outgoing_views(r.0@) == requests(response_effect(old(status)@, *m).1),
        r.1 == response_effect(old(status)@, *m).2,
{
    let id = opt_chars(&m.request_id);
    let ok = match m.request_ok {
        Some(b) => b,
        None => false,
    };
    match strip_prefix(&id, "get_mute:") {
        Some(name) => {
            if ok {
                let muted = match m.input_muted {
                    Some(b) => b,
                    None => false,
                };
                add_source_if_new(&mut status.audio_sources, string_of(&name), muted);
                return (no_messages(), true);
            } else {
                return (no_messages(), false);
            }
        },
        None => {},
    }
    if ok && equals_str(&id, "get_scenes") {
        let current = opt_chars(&m.current_program_scene);
        status.scenes = extract_names(&m.scenes);
        status.current_scene = string_of(&current);
        (request_items(&current), true)
    } else if ok && equals_str(&id, "get_inputs") {
        let names = extract_names(&m.inputs);
        status.audio_sources = Vec::new();
        proof {
            assert(source_views(status.audio_sources@) =~= Seq::<(Seq<char>, bool)>::empty());
        }
        let ghost calls = text_views(names@).map_values(
            |n: Seq<char>| ObsCallV::GetInputMute { input: n },
        );
        let mut out: Vec<ObsOutgoing> = Vec::new();
        let mut i: usize = 0;
        while i < names.len()
            invariant
                i <= names@.len(),
                calls == text_views(names@).map_values(
                    |n: Seq<char>| ObsCallV::GetInputMute { input: n },
                ),
                outgoing_views(out@) == requests(calls.take(i as int)),
            decreases names@.len() - i,
        {
            let ghost prev = out@;
            out.push(ObsOutgoing::Request(ObsCall::GetInputMute { input: names[i].clone() }));
            proof {
                assert(requests(calls.take(i + 1)) =~= requests(calls.take(i as int)).push(
                    OutgoingV::Request(ObsCallV::GetInputMute { input: names@[i as int]@ }),
                ));
                assert(outgoing_views(out@) =~= outgoing_views(prev).push(
                    OutgoingV::Request(ObsCallV::GetInputMute { input: names@[i as int]@ }),
                ));
            }
            i = i + 1;
        }
        proof {
            assert(calls.take(names@.len() as int) =~= calls);
        }
        (out, true)
    } else if ok && equals_str(&id, "get_scene_items") {
        status.scene_items = extract_scene_items(&m.scene_items);
        (no_messages(), true)
    } else {
        (no_messages(), false)
    }
}

/// Where a connection to OBS stands: whether OBS has accepted the
/// identification.
pub struct ObsSession {
    pub authenticated: bool,
}

/// What a message from OBS calls for: the messages to send back, and
/// whether the status changed (and so is announced).
pub struct ObsReaction {
    pub send: Vec<ObsOutgoing>,
    pub status_changed: bool,
}

impl ObsSession {
    /// A fresh connection, not yet identified.
    pub fn new() -> (s: Self)
        ensures
            !s.authenticated,
    {
        ObsSession { authenticated: false }
    }

    /// Handles one text message from OBS: answers Hello with Identify
    /// (authenticating when a password is set), takes Identified as the
    /// start of the session and asks for the scenes and inputs, and once
    /// identified applies events and responses.
    pub fn on_message(&mut self, status: &mut ObsStatus, m: &ObsMessage, password: &str) -> (r:
        ObsReaction)
        ensures
            message_effect(old(self).authenticated, old(status)@, *m, password@) == (
                final(self).authenticated,
                final(status)@,
                outgoing_views(r.send@),
                r.status_changed,
            ),
    {
        let op: u64 = match m.op {
            Some(o) => o,
            None => 99,
        };
        if op == 0 {
            let authentication = if !password.is_empty() {
                match (&m.challenge, &m.salt) {
                    (Some(c), Some(salt)) => Some(
                        compute_auth(password, salt.as_str(), c.as_str()),
                    ),
                    _ => None,
                }
            } else {
                None
            };
            let v = vec![
                ObsOutgoing::Identify { rpc_version: 1, event_subscriptions: 140, authentication },
            ];
            proof {
                assert(outgoing_views(v@) =~= message_effect(
                    old(self).authenticated,
                    old(status)@,
                    *m,
                    password@,
                ).2);
            }
            ObsReaction { send: v, status_changed: false }
        } else if op == 2 {
            self.authenticated = true;
            status.connected = true;
            status.error = None;
            let v = vec![
                ObsOutgoing::Request(ObsCall::GetSceneList),
                ObsOutgoing::Request(ObsCall::GetInputList),
            ];
            proof {
                assert(outgoing_views(v@) =~= message_effect(
                    old(self).authenticated,
                    old(status)@,
                    *m,
                    password@,
                ).2);
            }
            ObsReaction { send: v, status_changed: true }
        } else if op == 5 && self.authenticated {
            let (send, changed) = handle_event(status, m);
            ObsReaction { send, status_changed: changed }
        } else if op == 7 && self.authenticated {
            let (send, changed) = handle_response(status, m);
            ObsReaction { send, status_changed: changed }
        } else {
            ObsReaction { send: no_messages(), status_changed: false }
        }
    }

    /// The call that carries out a command, once identified; before that
    /// commands are dropped.
    pub fn on_request(&self, req: ObsRequest) -> (c: Option<ObsCall>)
        ensures
            !self.authenticated ==> c is None,
            self.authenticated ==> (c matches Some(call) && call@ == request_call(req@)),
    {
        if !self.authenticated {
            return None;
        }
        match req {
            ObsRequest::SwitchScene(scene) => Some(ObsCall::SetCurrentProgramScene { scene }),
            ObsRequest::ToggleMute(input) => Some(ObsCall::ToggleInputMute { input }),
            ObsRequest::SetSceneItemEnabled { scene, item_id, enabled } => Some(
                ObsCall::SetSceneItemEnabled { scene, item_id, enabled },
            ),
        }
    }
}

/// A command, as data.
pub enum ObsRequestV {
    SwitchScene(Seq<char>),
    ToggleMute(Seq<char>),
    SetSceneItemEnabled { scene: Seq<char>, item_id: i64, enabled: bool },
}

impl View for ObsRequest {
    type V = ObsRequestV;

    open spec fn view(&self) -> ObsRequestV {
        match self {
            ObsRequest::SwitchScene(s) => ObsRequestV::SwitchScene(s@),
            ObsRequest::ToggleMute(s) => ObsRequestV::ToggleMute(s@),
            ObsRequest::SetSceneItemEnabled { scene, item_id, enabled } =>
                ObsRequestV::SetSceneItemEnabled { scene: scene@, item_id: *item_id, enabled: *enabled },
        }
    }
}

/// The call that carries out a command.
pub open spec fn request_call(r: ObsRequestV) -> ObsCallV {
    match r {
        ObsRequestV::SwitchScene(scene) => ObsCallV::SetCurrentProgramScene { scene },
        ObsRequestV::ToggleMute(input) => ObsCallV::ToggleInputMute { input },
        ObsRequestV::SetSceneItemEnabled { scene, item_id, enabled } =>
            ObsCallV::SetSceneItemEnabled { scene, item_id, enabled },
    }
}


// ---------------------------------------------------------------------------
// Plugin actions and settings
// ---------------------------------------------------------------------------

/// What a settings-panel action asks for.
pub enum ObsAction {
    /// Drop any connection and connect anew (when enabled).
    Connect,
    /// Drop any connection.
    Disconnect,
    /// Hand a command to the connection.
    Send(ObsRequest),
}

pub enum ObsActionV {
    Connect,
    Disconnect,
    Send(ObsRequestV),
}

impl View for ObsAction {
    type V = ObsActionV;

    open spec fn view(&self) -> ObsActionV {
        match self {
            ObsAction::Connect => ObsActionV::Connect,
            ObsAction::Disconnect => ObsActionV::Disconnect,
            ObsAction::Send(r) => ObsActionV::Send(r@),
        }
    }
}

/// The position of the last `c` in `s`.
pub open spec fn last_index_of(s: Seq<char>, c: char) -> Option<int>
    decreases s.len(),
{
    if s.len() == 0 {
        None
    } else if s.last() == c {
        Some(s.len() - 1)
    } else {
        last_index_of(s.drop_last(), c)
    }
}

/// The item id and flag of "<id>:<true|false>", split at the last colon.
pub open spec fn item_toggle(rest: Seq<char>) -> Option<(i64, bool)> {
    match last_index_of(rest, ':') {
        Some(i) => match (parse_i64_text(rest.take(i)), parse_bool_text(rest.skip(i + 1))) {
            (Some(id), Some(b)) => Some((id as i64, b)),
            _ => None,
        },
        None => None,
    }
}

/// The action named `a`: "connect", "disconnect", "switch_scene:<scene>",
/// "toggle_mute:<input>", or "toggle_scene_item:<id>:<true|false>" for an
/// item of the current scene. Other names are unknown.
pub open spec fn action_of(a: Seq<char>, current_scene: Seq<char>) -> Option<ObsActionV> {
    if a == "connect"@ {
        Some(ObsActionV::Connect)
    } else if a == "disconnect"@ {
        Some(ObsActionV::Disconnect)
    } else if has_prefix(a, "switch_scene:"@) {
        Some(ObsActionV::Send(ObsRequestV::SwitchScene(a.skip("switch_scene:"@.len() as int))))
    } else if has_prefix(a, "toggle_mute:"@) {
        Some(ObsActionV::Send(ObsRequestV::ToggleMute(a.skip("toggle_mute:"@.len() as int))))
    } else if has_prefix(a, "toggle_scene_item:"@) {
        match item_toggle(a.skip("toggle_scene_item:"@.len() as int)) {
            Some((id, enabled)) => Some(
                ObsActionV::Send(
                    ObsRequestV::SetSceneItemEnabled { scene: current_scene, item_id: id, enabled },
                ),
            ),
            None => None,
        }
    } else {
        None
    }
}

fn last_colon(s: &Vec<char>) -> (r: Option<usize>)
    ensures
        match last_index_of(s@, ':') {
            Some(i) => r matches Some(j) && j as int == i,
            None => r is None,
        },
        r matches Some(i) ==> i < s@.len(),
{
    let mut i: usize = s.len();
    proof {
        assert(s@.take(i as int) =~= s@);
    }
    while i > 0
        invariant
            i <= s@.len(),
            last_index_of(s@.take(i as int), ':') == last_index_of(s@, ':'),
        decreases i,
    {
        proof {
            assert(s@.take(i as int).drop_last() =~= s@.take(i - 1));
            assert(s@.take(i as int).last() == s@[i - 1]);
        }
        if s[i - 1] == ':' {
            return Some(i - 1);
        }
        i = i - 1;
    }
    None
}

/// Reads a settings-panel action; an unknown one is refused with
/// "Unknown OBS action: <name>". An item toggle applies to
/// `current_scene`.
pub fn obs_action(action: &str, current_scene: &str) -> (r: Result<ObsAction, String>)
    ensures
        match action_of(action@, current_scene@) {
            Some(v) => r matches Ok(x) && x@ == v,
            None => r matches Err(e) && e@ == "Unknown OBS action: "@ + action@,
        },
{
    let a = chars_of(action);
    if equals_str(&a, "connect") {
        return Ok(ObsAction::Connect);
    }
    if equals_str(&a, "disconnect") {
        return Ok(ObsAction::Disconnect);
    }
    match strip_prefix(&a, "switch_scene:") {
        Some(scene) => {
            return Ok(ObsAction::Send(ObsRequest::SwitchScene(string_of(&scene))));
        },
        None => {},
    }
    match strip_prefix(&a, "toggle_mute:") {
        Some(name) => {
            return Ok(ObsAction::Send(ObsRequest::ToggleMute(string_of(&name))));
        },
        None => {},
    }
    match strip_prefix(&a, "toggle_scene_item:") {
        Some(rest) => {
            match last_colon(&rest) {
                Some(i) => {
                    let id_text = head_to(&rest, i);
                    let flag_text = tail_from(&rest, i + 1);
                    match (parse_i64(&id_text), parse_bool(&flag_text)) {
                        (Some(item_id), Some(enabled)) => {
                            return Ok(
                                ObsAction::Send(
                                    ObsRequest::SetSceneItemEnabled {
                                        scene: string_of(&chars_of(current_scene)),
                                        item_id,
                                        enabled,
                                    },
                                ),
                            );
                        },
                        _ => {},
                    }
                },
                None => {},
            }
        },
        None => {},
    }
    let mut msg: Vec<char> = Vec::new();
    push_str(&mut msg, "Unknown OBS action: ");
    push_str(&mut msg, action);
    proof {
        assert(msg@ =~= "Unknown OBS action: "@ + action@);
    }
    Err(string_of(&msg))
}

/// The OBS settings that the connection reads, each present when saved
/// with a value of the expected kind.
#[derive(Debug)]
pub struct ObsSettingsFields {
    pub is_enabled: Option<bool>,
    pub host: Option<String>,
    pub port: Option<u64>,
    pub password: Option<String>,
}

/// Where and how to connect to OBS.
#[derive(Debug, Clone)]
pub struct ObsConfig {
    pub host: String,
    pub port: u16,
    pub password: String,
}

/// The connection settings: none unless enabled; the host defaults to
/// 127.0.0.1, the port to 4455 (a saved port is cut to 16 bits), the
/// password to none.
pub fn obs_config(f: &ObsSettingsFields) -> (c: Option<ObsConfig>)
    ensures
        c is Some <==> f.is_enabled == Some(true),
        c matches Some(cfg) ==> cfg.host@ == (match f.host {
            Some(h) => h@,
            None => "127.0.0.1"@,
        }) && cfg.port == (match f.port {
            Some(p) => p as u16,
            None => 4455u16,
        }) && cfg.password@ == text_or_empty(f.password),
{
    match f.is_enabled {
        Some(true) => {},
        _ => {
            return None;
        },
    }
    let host = match &f.host {
        Some(h) => string_of(&chars_of(h.as_str())),
        None => string_of(&chars_of("127.0.0.1")),
    };
    let port: u16 = match f.port {
        Some(p) => p as u16,
        None => 4455,
    };
    let password = string_of(&opt_chars(&f.password));
    Some(ObsConfig { host, port, password })
}

/// The WebSocket address of OBS: "ws://<host>:<port>".
pub fn ws_url(host: &str, port: u16) -> (u: String)
    ensures
        u@ == "ws://"@ + host@ + ":"@ + decimal(port as nat),
{
    let mut v: Vec<char> = Vec::new();
    push_str(&mut v, "ws://");
    push_str(&mut v, host);
    push_str(&mut v, ":");
    push_decimal(&mut v, port as u64);
    string_of(&v)
}

/// The OBS settings panel, as data.
pub open spec fn obs_fields() -> Seq<FieldV> {
    seq![
        plain_v(
            "is_enabled"@,
            "Enable OBS WebSocket"@,
            Some("Connect to OBS WebSocket for scene and source control."@),
            KindV::Boolean,
            DefaultView::Bool(false),
        ),
        plain_v(
            "host"@,
            "Host"@,
            Some("OBS WebSocket host address."@),
            KindV::Text,
            DefaultView::Text("127.0.0.1"@),
        ),
        plain_v(
            "port"@,
            "Port"@,
            Some("OBS WebSocket port (default 4455)."@),
            KindV::Number,
            DefaultView::Int(4455),
        ),
        plain_v(
            "password"@,
            "Password"@,
            Some("OBS WebSocket server password (leave blank if not set)."@),
            KindV::Password,
            DefaultView::Text(""@),
        ),
        action_v(
            "connect_action"@,
            "Connection"@,
            Some("Connect or disconnect from OBS."@),
            "Connect"@,
            "connect"@,
        ),
    ]
}

/// The OBS settings panel, under Output.
pub fn obs_settings_definition() -> (d: PluginSettingsDefinition)
    ensures
        d.category == PluginCategory::Output,
        fields_view(d.fields@) == obs_fields(),
{
    let fields = vec![
        plain_field(
            "is_enabled",
            "Enable OBS WebSocket",
            Some("Connect to OBS WebSocket for scene and source control."),
            SettingFieldType::Boolean,
            SettingValue::Bool(false),
        ),
        plain_field(
            "host",
            "Host",
            Some("OBS WebSocket host address."),
            SettingFieldType::Text,
            text_default("127.0.0.1"),
        ),
        plain_field(
            "port",
            "Port",
            Some("OBS WebSocket port (default 4455)."),
            SettingFieldType::Number,
            SettingValue::Int(4455),
        ),
        plain_field(
            "password",
            "Password",
            Some("OBS WebSocket server password (leave blank if not set)."),
            SettingFieldType::Password,
            text_default(""),
        ),
        action_field(
            "connect_action",
            "Connection",
            Some("Connect or disconnect from OBS."),
            "Connect",
            "connect",
        ),
    ];
    proof {
        assert(fields_view(fields@) =~= obs_fields());
    }
    PluginSettingsDefinition { category: PluginCategory::Output, fields }
}


/// Before OBS accepts the identification, events and responses change
/// nothing and call for nothing.
pub proof fn law_nothing_before_identified(s: ObsStatusV, m: ObsMessage, password: Seq<char>)
    requires
        m.op == Some(5u64) || m.op == Some(7u64),
    ensures
        message_effect(false, s, m, password) == (false, s, Seq::<OutgoingV>::empty(), false),
{
}

/// Identified starts the session: connected, with no error, asking for the
/// scenes and the inputs.
pub proof fn law_identified_connects(auth: bool, s: ObsStatusV, m: ObsMessage, password: Seq<char>)
    requires
        m.op == Some(2u64),
    ensures
        message_effect(auth, s, m, password).0,
        message_effect(auth, s, m, password).1.connected,
        message_effect(auth, s, m, password).1.error is None,
        message_effect(auth, s, m, password).2 == seq![
            OutgoingV::Request(ObsCallV::GetSceneList),
            OutgoingV::Request(ObsCallV::GetInputList),
        ],
{
}

/// The Connection button of the OBS panel names an action the plugin
/// knows.
pub proof fn law_obs_button_handled(scene: Seq<char>)
    ensures
        forall|i: int|
            0 <= i < offered_actions(obs_fields()).len() ==> action_of(
                #[trigger] offered_actions(obs_fields())[i],
                scene,
            ) is Some,
{
    reveal_with_fuel(offered_actions, 6);
    assert(offered_actions(obs_fields()) =~= seq!["connect"@]);
}

proof fn lemma_all_names_present(l: Seq<Option<String>>)
    requires
        forall|i: int| 0 <= i < l.len() ==> (#[trigger] l[i]) is Some,
    ensures
        present_names(l).len() == l.len(),
        forall|i: int| 0 <= i < l.len() ==> present_names(l)[i] == (#[trigger] l[i])->0@,
    decreases l.len(),
{
    if l.len() > 0 {
        let d = l.drop_last();
        assert forall|i: int| 0 <= i < d.len() implies (#[trigger] d[i]) is Some by {
            assert(d[i] == l[i]);
        }
        lemma_all_names_present(d);
        assert forall|i: int| 0 <= i < l.len() implies present_names(l)[i] == (
        #[trigger] l[i])->0@ by {
            if i < d.len() {
                assert(d[i] == l[i]);
            }
        }
    }
}

/// Once identified, a scene-list event replaces the status's scene list by
/// the names the event lists, in order; the current scene, the audio
/// sources, the scene items and the connection are left as they were; the
/// status counts as changed and nothing is sent.
pub proof fn law_scene_list_replaced(
    s: ObsStatusV,
    m: ObsMessage,
    password: Seq<char>,
    l: Vec<Option<String>>,
)
    requires
        m.op == Some(5u64),
        m.event_type matches Some(t) && t@ == "SceneListChanged"@,
        m.scenes == Some(l),
        forall|i: int| 0 <= i < l@.len() ==> (#[trigger] l@[i]) is Some,
    ensures
        ({
            let r = message_effect(true, s, m, password);
            &&& r.0
            &&& r.1.scenes.len() == l@.len()
            &&& forall|i: int| 0 <= i < l@.len() ==> r.1.scenes[i] == (#[trigger] l@[i])->0@
            &&& r.1.current_scene == s.current_scene
            &&& r.1.audio_sources == s.audio_sources
            &&& r.1.scene_items == s.scene_items
            &&& r.1.connected == s.connected
            &&& r.1.error == s.error
            &&& r.2.len() == 0
            &&& r.3
        }),
{
    reveal_strlit("SceneListChanged");
    reveal_strlit("CurrentProgramSceneChanged");
    assert("SceneListChanged"@.len() != "CurrentProgramSceneChanged"@.len());
    lemma_all_names_present(l@);
    assert(requests(Seq::<ObsCallV>::empty()) =~= Seq::<OutgoingV>::empty());
}

proof fn lemma_first_source_found(srcs: Seq<(Seq<char>, bool)>, name: Seq<char>)
    ensures
        match first_source(srcs, name) {
            Some(i) => 0 <= i < srcs.len() && srcs[i].0 == name && forall|k: int|
                0 <= k < i ==> (#[trigger] srcs[k]).0 != name,
            None => forall|k: int| 0 <= k < srcs.len() ==> (#[trigger] srcs[k]).0 != name,
        },
    decreases srcs.len(),
{
    if srcs.len() > 0 && srcs[0].0 != name {
        let t = srcs.skip(1);
        lemma_first_source_found(t, name);
        match first_source(t, name) {
            Some(i) => {
                assert forall|k: int| 0 <= k < i + 1 implies (#[trigger] srcs[k]).0 != name by {
                    if k > 0 {
                        assert(srcs[k] == t[k - 1]);
                    }
                }
            },
            None => {
                assert forall|k: int| 0 <= k < srcs.len() implies (#[trigger] srcs[k]).0
                    != name by {
                    if k > 0 {
                        assert(srcs[k] == t[k - 1]);
                    }
                }
            },
        }
    }
}

/// Once identified, a change of the program scene makes the named scene
/// current, forgets the items of the old one, asks for the items of the new
/// one (when it has a name), keeps the scene list and the audio sources,
/// and counts as a change.
pub proof fn law_program_scene_changed(s: ObsStatusV, m: ObsMessage, password: Seq<char>, n: String)
    requires
        m.op == Some(5u64),
        m.event_type matches Some(t) && t@ == "CurrentProgramSceneChanged"@,
        m.scene_name == Some(n),
    ensures
        ({
            let r = message_effect(true, s, m, password);
            &&& r.1.current_scene == n@
            &&& r.1.scene_items.len() == 0
            &&& r.1.scenes == s.scenes
            &&& r.1.audio_sources == s.audio_sources
            &&& r.3
            &&& n@.len() > 0 ==> r.2 == seq![
                OutgoingV::Request(ObsCallV::GetSceneItemList { scene: n@ }),
            ]
            &&& n@.len() == 0 ==> r.2.len() == 0
        }),
{
    let r = message_effect(true, s, m, password);
    if n@.len() > 0 {
        assert(r.2 =~= seq![OutgoingV::Request(ObsCallV::GetSceneItemList { scene: n@ })]);
    } else {
        assert(r.2 =~= Seq::<OutgoingV>::empty());
    }
}

/// Once identified, a change of an input's mute state marks the first audio
/// source of that name muted or not as the event says; every source of
/// another name, and every later one, keeps its state; the list keeps its
/// length; nothing is sent and the status counts as changed.
pub proof fn law_mute_state_changed(
    s: ObsStatusV,
    m: ObsMessage,
    password: Seq<char>,
    n: String,
    muted: bool,
)
    requires
        m.op == Some(5u64),
        m.event_type matches Some(t) && t@ == "InputMuteStateChanged"@,
        m.input_name == Some(n),
        m.input_muted == Some(muted),
    ensures
        ({
            let r = message_effect(true, s, m, password);
            let a = s.audio_sources;
            let b = r.1.audio_sources;
            &&& b.len() == a.len()
            &&& forall|j: int| 0 <= j < a.len() && a[j].0 != n@ ==> b[j] == a[j]
            &&& forall|j: int|
                0 <= j < a.len() && a[j].0 == n@ && (forall|k: int|
                    0 <= k < j ==> a[k].0 != n@) ==> b[j] == (n@, muted)
            &&& forall|j: int|
                0 <= j < a.len() && (exists|k: int| 0 <= k < j && a[k].0 == n@) ==> b[j] == a[j]
            &&& r.1.scenes == s.scenes
            &&& r.1.current_scene == s.current_scene
            &&& r.2.len() == 0
            &&& r.3
        }),
{
    reveal_strlit("InputMuteStateChanged");
    reveal_strlit("CurrentProgramSceneChanged");
    reveal_strlit("SceneListChanged");
    assert("InputMuteStateChanged"@.len() != "CurrentProgramSceneChanged"@.len());
    assert("InputMuteStateChanged"@.len() != "SceneListChanged"@.len());
    lemma_first_source_found(s.audio_sources, n@);
    assert(requests(Seq::<ObsCallV>::empty()) =~= Seq::<OutgoingV>::empty());
}

} // verus!
