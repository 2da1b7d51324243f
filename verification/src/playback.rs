//! The now-playing model and its output template.
use vstd::prelude::*;
use crate::text::{
    chars_of, decimal, decimal_pad2, push_all, push_decimal, push_decimal_pad2, replace,
    replace_all, string_of,
};

verus! {

/// What is playing right now, as a media source reports it.
#[derive(Debug)]
pub struct PlaybackState {
    pub title: String,
    pub artist: String,
    pub album: String,
    pub art_source: String,
    pub progress_ms: u32,
    pub duration_ms: u32,
    pub is_playing: bool,
    pub formatted_output: String,
}

impl Default for PlaybackState {
    fn default() -> (s: Self)
        ensures
            s.title@.len() == 0,
            s.artist@.len() == 0,
            s.album@.len() == 0,
            s.art_source@.len() == 0,
            s.progress_ms == 0,
            s.duration_ms == 0,
            !s.is_playing,
            s.formatted_output@.len() == 0,
    {
        PlaybackState {
            title: String::new(),
            artist: String::new(),
            album: String::new(),
            art_source: String::new(),
            progress_ms: 0,
            duration_ms: 0,
            is_playing: false,
            formatted_output: String::new(),
        }
    }
}

/// Whole seconds in a millisecond count.
pub open spec fn total_secs(ms: nat) -> nat {
    ms / 1000
}

/// Whole hours.
pub open spec fn hours(ms: nat) -> nat {
    total_secs(ms) / 3600
}

/// Minutes within the hour.
pub open spec fn minutes(ms: nat) -> nat {
    (total_secs(ms) % 3600) / 60
}

/// Seconds within the minute.
pub open spec fn seconds(ms: nat) -> nat {
    total_secs(ms) % 60
}

/// Whole minutes.
pub open spec fn total_minutes(ms: nat) -> nat {
    total_secs(ms) / 60
}

/// A clock reading: `h:mm:ss` when there is at least an hour, else `m:ss`.
pub open spec fn clock_text(ms: nat) -> Seq<char> {
    if hours(ms) > 0 {
        decimal(hours(ms)) + seq![':'] + decimal_pad2(minutes(ms)) + seq![':'] + decimal_pad2(
            seconds(ms),
        )
    } else {
        decimal(minutes(ms)) + seq![':'] + decimal_pad2(seconds(ms))
    }
}

/// The placeholders of an output template, each with the text that takes
/// its place, in the order in which they are substituted.
pub open spec fn substitutions(st: &PlaybackState) -> Seq<(Seq<char>, Seq<char>)> {
    let p = st.progress_ms as nat;
    let d = st.duration_ms as nat;
    seq![
        ("{title}"@, st.title@),
        ("{artist}"@, st.artist@),
        ("{album}"@, st.album@),
        ("{progress_ms}"@, decimal(p)),
        ("{duration_ms}"@, decimal(d)),
        ("{progress}"@, clock_text(p)),
        ("{duration}"@, clock_text(d)),
        ("{progress_h}"@, decimal(hours(p))),
        ("{progress_m}"@, decimal_pad2(minutes(p))),
        ("{progress_s}"@, decimal_pad2(seconds(p))),
        ("{progress_m_raw}"@, decimal(minutes(p))),
        ("{progress_s_raw}"@, decimal(seconds(p))),
        ("{progress_m_total}"@, decimal(total_minutes(p))),
        ("{progress_m_total_padded}"@, decimal_pad2(total_minutes(p))),
        ("{progress_s_total}"@, decimal(total_secs(p))),
        ("{duration_h}"@, decimal(hours(d))),
        ("{duration_m}"@, decimal_pad2(minutes(d))),
        ("{duration_s}"@, decimal_pad2(seconds(d))),
        ("{duration_m_raw}"@, decimal(minutes(d))),
        ("{duration_s_raw}"@, decimal(seconds(d))),
        ("{duration_m_total}"@, decimal(total_minutes(d))),
        ("{duration_m_total_padded}"@, decimal_pad2(total_minutes(d))),
        ("{duration_s_total}"@, decimal(total_secs(d))),
    ]
}

/// `t` after substituting each pair of `subs` in turn.
pub open spec fn apply_substitutions(t: Seq<char>, subs: Seq<(Seq<char>, Seq<char>)>) -> Seq<
    char,
>
    decreases subs.len(),
{
    if subs.len() == 0 {
        t
    } else {
        apply_substitutions(replace_all(t, subs[0].0, subs[0].1), subs.skip(1))
    }
}

/// The rendered template: empty when nothing is playing (no title),
/// otherwise the template with every placeholder substituted.
pub open spec fn formatted(st: &PlaybackState, template: Seq<char>) -> Seq<char> {
    if st.title@.len() == 0 {
        Seq::empty()
    } else {
        apply_substitutions(template, substitutions(st))
    }
}

/// The template used when none is configured.
pub open spec fn default_template() -> Seq<char> {
    "Now Playing: {title} by {artist}"@
}

fn push_clock(out: &mut Vec<char>, ms: u32)
    ensures
        final(out)@ == old(out)@ + clock_text(ms as nat),
{
    let tot: u64 = (ms / 1000) as u64;
    let h: u64 = tot / 3600;
    let m: u64 = (tot % 3600) / 60;
    let s: u64 = tot % 60;
    let ghost start = out@;
    if h > 0 {
        push_decimal(out, h);
        out.push(':');
        push_decimal_pad2(out, m);
        out.push(':');
        push_decimal_pad2(out, s);
        proof {
            assert(out@ =~= start + clock_text(ms as nat));
        }
    } else {
        push_decimal(out, m);
        out.push(':');
        push_decimal_pad2(out, s);
        proof {
            assert(out@ =~= start + clock_text(ms as nat));
        }
    }
}

fn decimal_chars(n: u64) -> (v: Vec<char>)
    ensures
        v@ == decimal(n as nat),
{
    let mut v: Vec<char> = Vec::new();
    push_decimal(&mut v, n);
    proof {
        assert(v@ =~= decimal(n as nat));
    }
    v
}

fn pad2_chars(n: u64) -> (v: Vec<char>)
    ensures
        v@ == decimal_pad2(n as nat),
{
    let mut v: Vec<char> = Vec::new();
    push_decimal_pad2(&mut v, n);
    proof {
        assert(v@ =~= decimal_pad2(n as nat));
    }
    v
}

fn clock_chars(ms: u32) -> (v: Vec<char>)
    ensures
        v@ == clock_text(ms as nat),
{
    let mut v: Vec<char> = Vec::new();
    push_clock(&mut v, ms);
    proof {
        assert(v@ =~= clock_text(ms as nat));
    }
    v
}

/// The views of a table of substitution pairs.
pub open spec fn pair_views(pairs: Seq<(Vec<char>, Vec<char>)>) -> Seq<(Seq<char>, Seq<char>)> {
    pairs.map_values(|p: (Vec<char>, Vec<char>)| (p.0@, p.1@))
}

impl PlaybackState {
    /// The substitution table of this state.
    fn substitution_table(&self) -> (t: Vec<(Vec<char>, Vec<char>)>)
        ensures
            pair_views(t@) == substitutions(self),
    {
        let p = self.progress_ms;
        let d = self.duration_ms;
        let pt: u64 = (p / 1000) as u64;
        let dt: u64 = (d / 1000) as u64;
        let mut t: Vec<(Vec<char>, Vec<char>)> = Vec::new();
        t.push((chars_of("{title}"), chars_of(self.title.as_str())));
        t.push((chars_of("{artist}"), chars_of(self.artist.as_str())));
        t.push((chars_of("{album}"), chars_of(self.album.as_str())));
        t.push((chars_of("{progress_ms}"), decimal_chars(p as u64)));
        t.push((chars_of("{duration_ms}"), decimal_chars(d as u64)));
        t.push((chars_of("{progress}"), clock_chars(p)));
        t.push((chars_of("{duration}"), clock_chars(d)));
        t.push((chars_of("{progress_h}"), decimal_chars(pt / 3600)));
        t.push((chars_of("{progress_m}"), pad2_chars((pt % 3600) / 60)));
        t.push((chars_of("{progress_s}"), pad2_chars(pt % 60)));
        t.push((chars_of("{progress_m_raw}"), decimal_chars((pt % 3600) / 60)));
        t.push((chars_of("{progress_s_raw}"), decimal_chars(pt % 60)));
        t.push((chars_of("{progress_m_total}"), decimal_chars(pt / 60)));
        t.push((chars_of("{progress_m_total_padded}"), pad2_chars(pt / 60)));
        t.push((chars_of("{progress_s_total}"), decimal_chars(pt)));
        t.push((chars_of("{duration_h}"), decimal_chars(dt / 3600)));
        t.push((chars_of("{duration_m}"), pad2_chars((dt % 3600) / 60)));
        t.push((chars_of("{duration_s}"), pad2_chars(dt % 60)));
        t.push((chars_of("{duration_m_raw}"), decimal_chars((dt % 3600) / 60)));
        t.push((chars_of("{duration_s_raw}"), decimal_chars(dt % 60)));
        t.push((chars_of("{duration_m_total}"), decimal_chars(dt / 60)));
        t.push((chars_of("{duration_m_total_padded}"), pad2_chars(dt / 60)));
        t.push((chars_of("{duration_s_total}"), decimal_chars(dt)));
        proof {
            assert(pair_views(t@) =~= substitutions(self));
        }
        t
    }

    /// Renders `template` for this state: the empty string when there is no
    /// title, otherwise the template with each placeholder (`{title}`,
    /// `{artist}`, `{album}`, `{progress}`, `{duration_m_total}`, ...)
    /// replaced by its value.
    pub fn format(&self, template: &str) -> (out: String)
        ensures
            out@ == formatted(self, template@),
    {
        if self.title.as_str().unicode_len() == 0 {
            return String::new();
        }
        let table = self.substitution_table();
        let mut t = chars_of(template);
        let n = table.len();
        let mut k: usize = 0;
        proof {
            assert(pair_views(table@).skip(0) =~= pair_views(table@));
        }
        while k < n
            invariant
                n == table.len(),
                k <= n,
                pair_views(table@) == substitutions(self),
                self.title@.len() > 0,
                apply_substitutions(t@, pair_views(table@).skip(k as int)) == formatted(
                    self,
                    template@,
                ),
            decreases n - k,
        {
            let ghost rest = pair_views(table@).skip(k as int);
            proof {
                assert(rest[0] == (table@[k as int].0@, table@[k as int].1@));
                assert(rest.skip(1) =~= pair_views(table@).skip(k + 1));
            }
            t = replace(&t, &table[k].0, &table[k].1);
            k = k + 1;
        }
        proof {
            assert(pair_views(table@).skip(n as int) =~= Seq::<(Seq<char>, Seq<char>)>::empty());
        }
        string_of(&t)
    }
}

/// The template the now-playing loop renders: the configured one when it is
/// set and non-empty, else `"Now Playing: {title} by {artist}"`.
pub fn effective_template(configured: Option<String>) -> (t: String)
    ensures
        t@ == (match configured {
            Some(c) => if c@.len() > 0 {
                c@
            } else {
                default_template()
            },
            None => default_template(),
        }),
{
    match configured {
        Some(c) => {
            if c.as_str().unicode_len() > 0 {
                c
            } else {
                String::from_str("Now Playing: {title} by {artist}")
            }
        },
        None => String::from_str("Now Playing: {title} by {artist}"),
    }
}

/// The state the now-playing loop publishes: `state` with its rendered
/// output filled in.
pub fn with_formatted_output(state: PlaybackState, template: &str) -> (out: PlaybackState)
    ensures
        out.title == state.title,
        out.artist == state.artist,
        out.album == state.album,
        out.art_source == state.art_source,
        out.progress_ms == state.progress_ms,
        out.duration_ms == state.duration_ms,
        out.is_playing == state.is_playing,
        out.formatted_output@ == formatted(&state, template@),
{
    let f = state.format(template);
    PlaybackState { formatted_output: f, ..state }
}

} // verus!
