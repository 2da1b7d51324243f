//! Overlays: the texts shown when nothing plays, the settings handed to
//! the now-playing page, stylesheets and aesthetic packs, chat-driven
//! visual effects, and the engine's once-a-second frame.
use vstd::prelude::*;
use crate::oauth::{blank, is_blank};
use crate::playback::{default_template, effective_template, formatted, with_formatted_output, PlaybackState};
use crate::text::{
    chars_of, contains, contains_text, equals_str, push_str, replace, replace_all, string_of,
};

verus! {

// ---------------------------------------------------------------------------
// Texts when nothing plays
// ---------------------------------------------------------------------------

/// The saved texts for when nothing plays, each present when saved as a
/// string.
#[derive(Debug)]
pub struct NotPlayingFields {
    pub title: Option<String>,
    pub artist: Option<String>,
    pub album: Option<String>,
}

/// The texts shown when nothing plays.
#[derive(Debug)]
pub struct NotPlayingTexts {
    pub title: String,
    pub artist: String,
    pub album: String,
}

/// A saved text when present, else the default.
pub open spec fn saved_or(o: Option<String>, default: Seq<char>) -> Seq<char> {
    match o {
        Some(s) => s@,
        None => default,
    }
}

/// A saved text when present and not blank, else the default.
pub open spec fn filled_or(o: Option<String>, default: Seq<char>) -> Seq<char> {
    match o {
        Some(s) => if blank(s@) {
            default
        } else {
            s@
        },
        None => default,
    }
}

fn saved_text(o: &Option<String>, default: &str, skip_blank: bool) -> (s: String)
    ensures
        skip_blank ==> s@ == filled_or(*o, default@),
        !skip_blank ==> s@ == saved_or(*o, default@),
{
    match o {
        Some(v) => if skip_blank && is_blank(v.as_str()) {
            string_of(&chars_of(default))
        } else {
            string_of(&chars_of(v.as_str()))
        },
        None => string_of(&chars_of(default)),
    }
}

/// The texts as the settings window shows them: each saved one, else
/// "Not Playing", "Unknown Artist", "Unknown Album".
pub fn not_playing_settings(f: &NotPlayingFields) -> (t: NotPlayingTexts)
    ensures
        t.title@ == saved_or(f.title, "Not Playing"@),
        t.artist@ == saved_or(f.artist, "Unknown Artist"@),
        t.album@ == saved_or(f.album, "Unknown Album"@),
{
    NotPlayingTexts {
        title: saved_text(&f.title, "Not Playing", false),
        artist: saved_text(&f.artist, "Unknown Artist", false),
        album: saved_text(&f.album, "Unknown Album", false),
    }
}

/// The texts as the overlay shows them: a saved text counts unless blank.
pub fn overlay_texts(f: &NotPlayingFields) -> (t: NotPlayingTexts)
    ensures
        t.title@ == filled_or(f.title, "Not Playing"@),
        t.artist@ == filled_or(f.artist, "Unknown Artist"@),
        t.album@ == filled_or(f.album, "Unknown Album"@),
{
    NotPlayingTexts {
        title: saved_text(&f.title, "Not Playing", true),
        artist: saved_text(&f.artist, "Unknown Artist", true),
        album: saved_text(&f.album, "Unknown Album", true),
    }
}

/// The lower-case hexadecimal digit of `d` (0 to 15).
pub open spec fn hex_digit_lower(d: int) -> char {
    if d < 10 {
        (48 + d) as char
    } else {
        (87 + d) as char
    }
}

/// How a character is written inside a JSON string: `"` and `\` behind a
/// backslash; backspace, form feed, line feed, carriage return and tab as
/// `\b`, `\f`, `\n`, `\r`, `\t`; the other control characters below
/// U+0020 as `\u00` and two lower-case hex digits; any other character as
/// itself.
pub open spec fn json_escape(c: char) -> Seq<char> {
    let n = c as int;
    if c == '"' {
        seq!['\\', '"']
    } else if c == '\\' {
        seq!['\\', '\\']
    } else if n == 8 {
        seq!['\\', 'b']
    } else if n == 9 {
        seq!['\\', 't']
    } else if n == 10 {
        seq!['\\', 'n']
    } else if n == 12 {
        seq!['\\', 'f']
    } else if n == 13 {
        seq!['\\', 'r']
    } else if n < 32 {
        seq!['\\', 'u', '0', '0', hex_digit_lower(n / 16), hex_digit_lower(n % 16)]
    } else {
        seq![c]
    }
}

/// The characters of `s`, each written as inside a JSON string.
pub open spec fn json_escaped(s: Seq<char>) -> Seq<char>
    decreases s.len(),
{
    if s.len() == 0 {
        Seq::empty()
    } else {
        json_escape(s[0]) + json_escaped(s.drop_first())
    }
}

/// `s` as a JSON string literal: between double quotes, each character
/// escaped as [`json_escape`] says.
pub open spec fn json_quoted(s: Seq<char>) -> Seq<char> {
    seq!['"'] + json_escaped(s) + seq!['"']
}

/// `serde_json::to_string` of a string slice: the JSON string literal, as
/// `format_escaped_str` writes it (it cannot fail on a string).
#[verifier::external_body]
fn json_quote(s: &str) -> (q: String)
    ensures
        q@ == json_quoted(s@),
{
    serde_json::to_string(s).unwrap_or_default()
}

/// The settings object handed to the now-playing page (keys in order).
pub open spec fn settings_json(t: NotPlayingTexts) -> Seq<char> {
    "{\"not_playing_album\":"@ + json_quoted(t.album@) + ",\"not_playing_artist\":"@
        + json_quoted(t.artist@) + ",\"not_playing_title\":"@ + json_quoted(t.title@) + "}"@
}

/// The page with the settings script placed at the start of its head.
pub open spec fn page_with_settings(html: Seq<char>, t: NotPlayingTexts) -> Seq<char> {
    replace_all(
        html,
        "<head>"@,
        "<head><script>window.PanopticSettings = "@ + settings_json(t) + ";</script>"@,
    )
}

/// Places the settings script in every `<head>` of the page.
pub fn inject_settings(html: &str, t: &NotPlayingTexts) -> (page: String)
    ensures
        page@ == page_with_settings(html@, *t),
{
    let mut rep: Vec<char> = Vec::new();
    push_str(&mut rep, "<head><script>window.PanopticSettings = ");
    push_str(&mut rep, "{\"not_playing_album\":");
    push_str(&mut rep, json_quote(t.album.as_str()).as_str());
    push_str(&mut rep, ",\"not_playing_artist\":");
    push_str(&mut rep, json_quote(t.artist.as_str()).as_str());
    push_str(&mut rep, ",\"not_playing_title\":");
    push_str(&mut rep, json_quote(t.title.as_str()).as_str());
    push_str(&mut rep, "}");
    push_str(&mut rep, ";</script>");
    proof {
        assert(rep@ =~= "<head><script>window.PanopticSettings = "@ + settings_json(*t)
            + ";</script>"@);
    }
    let r = replace(&chars_of(html), &chars_of("<head>"), &rep);
    string_of(&r)
}

// ---------------------------------------------------------------------------
// Stylesheets and packs
// ---------------------------------------------------------------------------

/// The built-in stylesheet of an overlay.
#[derive(Debug, Clone, Copy, PartialEq, Eq, Structural)]
pub enum DefaultCss {
    NowPlaying,
    HypeTrain,
    Alerts,
    /// No built-in stylesheet: empty.
    Empty,
}

/// The built-in stylesheet for an overlay id.
pub open spec fn default_css_of(id: Seq<char>) -> DefaultCss {
    if id == "now_playing"@ {
        DefaultCss::NowPlaying
    } else if id == "twitch_hype_train"@ {
        DefaultCss::HypeTrain
    } else if id == "twitch_alerts"@ {
        DefaultCss::Alerts
    } else {
        DefaultCss::Empty
    }
}

/// Picks the built-in stylesheet of an overlay.
pub fn default_css(id: &str) -> (c: DefaultCss)
    ensures
        c == default_css_of(id@),
{
    let v = chars_of(id);
    if equals_str(&v, "now_playing") {
        DefaultCss::NowPlaying
    } else if equals_str(&v, "twitch_hype_train") {
        DefaultCss::HypeTrain
    } else if equals_str(&v, "twitch_alerts") {
        DefaultCss::Alerts
    } else {
        DefaultCss::Empty
    }
}

/// A complete aesthetic pack.
#[derive(Debug, Clone, Copy, PartialEq, Eq, Structural)]
pub enum AestheticPack {
    Cyber,
    Eldritch,
    Rpg90s,
    Salem,
}

/// The pack named `id`.
pub open spec fn pack_of(id: Seq<char>) -> Option<AestheticPack> {
    if id == "cyber"@ {
        Some(AestheticPack::Cyber)
    } else if id == "eldritch"@ {
        Some(AestheticPack::Eldritch)
    } else if id == "rpg90s"@ {
        Some(AestheticPack::Rpg90s)
    } else if id == "salem"@ {
        Some(AestheticPack::Salem)
    } else {
        None
    }
}

/// The overlays an aesthetic pack restyles, in order.
pub open spec fn styled_overlays() -> Seq<Seq<char>> {
    seq![
        "now_playing"@,
        "twitch_hype_train"@,
        "twitch_alerts"@,
        "twitch_chat"@,
        "pomodoro"@,
        "stream_goals"@,
    ]
}

/// Reads a pack id; an unknown one is refused with
/// "Unknown aesthetic pack: <id>".
pub fn aesthetic_pack(id: &str) -> (r: Result<AestheticPack, String>)
    ensures
        match pack_of(id@) {
            Some(p) => r == Ok::<AestheticPack, String>(p),
            None => r matches Err(e) && e@ == "Unknown aesthetic pack: "@ + id@,
        },
{
    let v = chars_of(id);
    if equals_str(&v, "cyber") {
        Ok(AestheticPack::Cyber)
    } else if equals_str(&v, "eldritch") {
        Ok(AestheticPack::Eldritch)
    } else if equals_str(&v, "rpg90s") {
        Ok(AestheticPack::Rpg90s)
    } else if equals_str(&v, "salem") {
        Ok(AestheticPack::Salem)
    } else {
        let mut m: Vec<char> = Vec::new();
        push_str(&mut m, "Unknown aesthetic pack: ");
        push_str(&mut m, id);
        proof {
            assert(m@ =~= "Unknown aesthetic pack: "@ + id@);
        }
        Err(string_of(&m))
    }
}

/// The overlays a pack restyles.
pub fn pack_overlays() -> (v: Vec<&'static str>)
    ensures
        v@.map_values(|s: &'static str| s@) == styled_overlays(),
{
    let v = vec!["now_playing", "twitch_hype_train", "twitch_alerts", "twitch_chat", "pomodoro", "stream_goals"];
    proof {
        assert(v@.map_values(|s: &'static str| s@) =~= styled_overlays());
    }
    v
}

// ---------------------------------------------------------------------------
// Chat-driven effects
// ---------------------------------------------------------------------------

/// `s` in lower case (`str::to_lowercase`, Unicode lower-casing).
pub uninterp spec fn lowercase(s: Seq<char>) -> Seq<char>;

/// `str::to_lowercase`.
#[verifier::external_body]
fn to_lowercase(s: &str) -> (r: String)
    ensures
        r@ == lowercase(s@),
{
    s.to_lowercase()
}

/// The effects a chat message triggers, each for five seconds.
#[derive(Debug, Clone, Copy, PartialEq, Eq, Structural)]
pub struct ThematicTriggers {
    /// "flash" or "hype" in the message.
    pub flash: bool,
    /// A subscriber's message, or "shift", "color" or "colour" in it.
    pub color_shift: bool,
}

/// Which effects a message triggers (words are matched in lower case).
pub fn thematic_triggers(message: &str, is_sub: bool) -> (t: ThematicTriggers)
    ensures
        t.flash == (contains_text(lowercase(message@), "flash"@) || contains_text(
            lowercase(message@),
            "hype"@,
        )),
        t.color_shift == (is_sub || contains_text(lowercase(message@), "shift"@) || contains_text(
            lowercase(message@),
            "color"@,
        ) || contains_text(lowercase(message@), "colour"@)),
{
    let lower = chars_of(to_lowercase(message).as_str());
    let flash = contains(&lower, &chars_of("flash")) || contains(&lower, &chars_of("hype"));
    let color_shift = is_sub || contains(&lower, &chars_of("shift")) || contains(
        &lower,
        &chars_of("color"),
    ) || contains(&lower, &chars_of("colour"));
    ThematicTriggers { flash, color_shift }
}

// ---------------------------------------------------------------------------
// The engine
// ---------------------------------------------------------------------------

/// A command from the tray menu.
#[derive(Debug, Clone, Copy, PartialEq, Eq, Structural)]
pub enum AppCommand {
    OpenSettings,
    InitiateAuth,
    Quit,
}

/// What a tray command calls for.
#[derive(Debug, Clone, Copy, PartialEq, Eq, Structural)]
pub enum CommandEffect {
    /// Show and focus the main window.
    ShowMainWindow,
    /// Hand the "link" action to the first plugin with id "spotify".
    LinkSpotify,
    /// End the process.
    Exit,
}

/// What a tray command calls for.
pub fn command_effect(c: AppCommand) -> (e: CommandEffect)
    ensures
        c == AppCommand::OpenSettings ==> e == CommandEffect::ShowMainWindow,
        c == AppCommand::InitiateAuth ==> e == CommandEffect::LinkSpotify,
        c == AppCommand::Quit ==> e == CommandEffect::Exit,
{
    match c {
        AppCommand::OpenSettings => CommandEffect::ShowMainWindow,
        AppCommand::InitiateAuth => CommandEffect::LinkSpotify,
        AppCommand::Quit => CommandEffect::Exit,
    }
}

/// One second of the engine: the playback of the first media source that
/// answered (nothing playing when none did), with its output rendered from
/// the configured template (or the default one).
pub fn engine_frame(answer: Option<PlaybackState>, template: Option<String>) -> (s: PlaybackState)
    ensures
        match answer {
            Some(a) => s.title == a.title && s.artist == a.artist && s.album == a.album
                && s.art_source == a.art_source && s.progress_ms == a.progress_ms && s.duration_ms
                == a.duration_ms && s.is_playing == a.is_playing,
            None => s.title@.len() == 0 && s.artist@.len() == 0 && s.album@.len() == 0
                && s.art_source@.len() == 0 && s.progress_ms == 0 && s.duration_ms == 0
                && !s.is_playing,
        },
        s.formatted_output@ == formatted(
            &s,
            match template {
                Some(t) => if t@.len() > 0 {
                    t@
                } else {
                    default_template()
                },
                None => default_template(),
            },
        ),
{
    let state = match answer {
        Some(a) => a,
        None => PlaybackState::default(),
    };
    let t = effective_template(template);
    with_formatted_output(state, t.as_str())
}

/// A source of now-playing information.
#[derive(Debug, Clone, Copy, PartialEq, Eq, Structural)]
pub enum MediaSource {
    /// The operating system's media session (MPRIS or SMTC).
    Native,
    /// The Spotify Web API, with its token refresh.
    SpotifyWeb,
}

/// The priority chain of the engine: the native source first, the Spotify
/// Web API as the fallback.
pub open spec fn source_order() -> Seq<MediaSource> {
    seq![MediaSource::Native, MediaSource::SpotifyWeb]
}

/// The media sources, in the order they are asked.
pub fn media_sources() -> (v: Vec<MediaSource>)
    ensures
        v@ == source_order(),
{
    let v = vec![MediaSource::Native, MediaSource::SpotifyWeb];
    proof {
        assert(v@ =~= source_order());
    }
    v
}

/// What the engine does after asking a source.
#[derive(Debug)]
pub enum ProviderStep {
    /// Ask the source at this position next.
    Ask(usize),
    /// Stop: this is the frame's answer (none when no source answered).
    Done(Option<PlaybackState>),
}

/// After source number `asked` of `count` answered `answer`: the first
/// answer ends the round; without one the next source is asked; after the
/// last source the round ends with no answer.
pub fn provider_step(asked: usize, count: usize, answer: Option<PlaybackState>) -> (s: ProviderStep)
    requires
        asked < count,
    ensures
        answer is Some ==> s == ProviderStep::Done(answer),
        answer is None && asked + 1 < count ==> s == ProviderStep::Ask((asked + 1) as usize),
        answer is None && asked + 1 >= count ==> s matches ProviderStep::Done(None),
{
    match answer {
        Some(a) => ProviderStep::Done(Some(a)),
        None => if asked + 1 < count {
            ProviderStep::Ask(asked + 1)
        } else {
            ProviderStep::Done(None)
        },
    }
}

/// What a tray menu entry asks for.
#[derive(Debug, Clone, Copy, PartialEq, Eq, Structural)]
pub enum TrayAction {
    /// Send this command to the engine.
    Command(AppCommand),
    /// Open the page of the release offered, when there is one.
    OpenRelease,
    /// Nothing.
    Nothing,
}

/// The action of the tray menu entry with id `id`: "quit", "settings" or
/// "update".
pub fn tray_action(id: &str) -> (a: TrayAction)
    ensures
        id@ == "quit"@ ==> a == TrayAction::Command(AppCommand::Quit),
        id@ == "settings"@ ==> a == TrayAction::Command(AppCommand::OpenSettings),
        id@ == "update"@ ==> a == TrayAction::OpenRelease,
        id@ != "quit"@ && id@ != "settings"@ && id@ != "update"@ ==> a == TrayAction::Nothing,
{
    let v = chars_of(id);
    proof {
        reveal_strlit("quit");
        reveal_strlit("settings");
        reveal_strlit("update");
        assert("quit"@.len() != "settings"@.len());
        assert("update"@.len() != "settings"@.len());
        assert("quit"@[0] != "update"@[0]);
    }
    if equals_str(&v, "quit") {
        TrayAction::Command(AppCommand::Quit)
    } else if equals_str(&v, "settings") {
        TrayAction::Command(AppCommand::OpenSettings)
    } else if equals_str(&v, "update") {
        TrayAction::OpenRelease
    } else {
        TrayAction::Nothing
    }
}

} // verus!
