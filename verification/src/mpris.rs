//! Reading MPRIS track metadata (the `Metadata` property of a media player
//! on the session bus) into a [`PlaybackState`].
use vstd::prelude::*;
use crate::playback::PlaybackState;
use crate::text::{chars_of, equals_str, push_all, push_str, same_chars, string_of};

verus! {

/// A metadata value, as far as the reader tells values apart.
#[derive(Debug)]
pub enum MetadataValue {
    Str(String),
    Array(Vec<MetadataValue>),
    I64(i64),
    U64(u64),
    I32(i32),
    U32(u32),
    /// Any other kind of value.
    Other,
}

/// A metadata dictionary: keys with their values. A key that occurs more
/// than once has the value of its first occurrence.
pub type Metadata = Vec<(String, MetadataValue)>;

/// The value stored under `key`, if any.
pub open spec fn lookup(entries: Seq<(String, MetadataValue)>, key: Seq<char>) -> Option<
    MetadataValue,
>
    decreases entries.len(),
{
    if entries.len() == 0 {
        None
    } else if entries[0].0@ == key {
        Some(entries[0].1)
    } else {
        lookup(entries.skip(1), key)
    }
}

/// The text of a value stored under `key`, or empty when there is none or
/// it is not text.
pub open spec fn text_field(entries: Seq<(String, MetadataValue)>, key: Seq<char>) -> Seq<char> {
    match lookup(entries, key) {
        Some(MetadataValue::Str(s)) => s@,
        _ => Seq::empty(),
    }
}

/// The texts among `vals`, in order.
pub open spec fn texts(vals: Seq<MetadataValue>) -> Seq<Seq<char>>
    decreases vals.len(),
{
    if vals.len() == 0 {
        Seq::empty()
    } else {
        let rest = texts(vals.drop_last());
        match vals.last() {
            MetadataValue::Str(s) => rest.push(s@),
            _ => rest,
        }
    }
}

/// `items` joined with `sep` between consecutive items.
pub open spec fn join(items: Seq<Seq<char>>, sep: Seq<char>) -> Seq<char>
    decreases items.len(),
{
    if items.len() == 0 {
        Seq::empty()
    } else if items.len() == 1 {
        items[0]
    } else {
        join(items.drop_last(), sep) + sep + items.last()
    }
}

/// The artists: the texts of an array under `xesam:artist`, joined by ", ".
pub open spec fn artist_field(entries: Seq<(String, MetadataValue)>) -> Seq<char> {
    match lookup(entries, "xesam:artist"@) {
        Some(MetadataValue::Array(items)) => join(texts(items@), ", "@),
        _ => Seq::empty(),
    }
}

/// Integer division rounding toward zero, as Rust divides.
pub open spec fn div_toward_zero(x: int, d: int) -> int {
    if x >= 0 {
        x / d
    } else {
        -((-x) / d)
    }
}

/// The track length in milliseconds: the `mpris:length` microsecond count
/// divided by 1000 and converted to `u32` by truncation; 0 when absent or not
/// an integer.
pub open spec fn length_field(entries: Seq<(String, MetadataValue)>) -> u32 {
    match lookup(entries, "mpris:length"@) {
        Some(MetadataValue::I64(i)) => div_toward_zero(i as int, 1000) as u32,
        Some(MetadataValue::U64(u)) => (u / 1000) as u32,
        Some(MetadataValue::I32(i)) => div_toward_zero(i as int, 1000) as u32,
        Some(MetadataValue::U32(u)) => (u / 1000) as u32,
        _ => 0,
    }
}

/// Reads MPRIS metadata.
pub struct MprisMetadataParser;

fn lookup_exec<'a>(entries: &'a Metadata, key: &str) -> (r: Option<&'a MetadataValue>)
    ensures
        match r {
            Some(v) => lookup(entries@, key@) == Some(*v),
            None => lookup(entries@, key@) is None,
        },
{
    let k = chars_of(key);
    let n = entries.len();
    let mut i: usize = 0;
    proof {
        assert(entries@.skip(0) =~= entries@);
    }
    while i < n
        invariant
            n == entries.len(),
            i <= n,
            k@ == key@,
            lookup(entries@.skip(i as int), key@) == lookup(entries@, key@),
        decreases n - i,
    {
        let ghost rest = entries@.skip(i as int);
        proof {
            assert(rest[0] == entries@[i as int]);
            assert(rest.skip(1) =~= entries@.skip(i + 1));
        }
        let name = chars_of(entries[i].0.as_str());
        if same_chars(&name, &k) {
            return Some(&entries[i].1);
        }
        i = i + 1;
    }
    None
}

fn text_exec(entries: &Metadata, key: &str) -> (s: String)
    ensures
        s@ == text_field(entries@, key@),
{
    match lookup_exec(entries, key) {
        Some(MetadataValue::Str(s)) => s.clone(),
        _ => String::new(),
    }
}

fn join_texts(items: &Vec<MetadataValue>) -> (s: String)
    ensures
        s@ == join(texts(items@), ", "@),
{
    let mut out: Vec<char> = Vec::new();
    let mut any = false;
    let n = items.len();
    let mut i: usize = 0;
    proof {
        assert(items@.take(0) =~= Seq::<MetadataValue>::empty());
    }
    while i < n
        invariant
            n == items.len(),
            i <= n,
            out@ == join(texts(items@.take(i as int)), ", "@),
            any == (texts(items@.take(i as int)).len() > 0),
        decreases n - i,
    {
        proof {
            assert(items@.take(i + 1).drop_last() =~= items@.take(i as int));
            assert(items@.take(i + 1).last() == items@[i as int]);
        }
        match &items[i] {
            MetadataValue::Str(s) => {
                let ghost prev = texts(items@.take(i as int));
                if any {
                    push_str(&mut out, ", ");
                }
                push_str(&mut out, s.as_str());
                any = true;
                proof {
                    let now = texts(items@.take(i + 1));
                    assert(now == prev.push(s@));
                    assert(now.drop_last() =~= prev);
                    if prev.len() == 0 {
                        assert(out@ =~= join(now, ", "@));
                    } else {
                        assert(out@ =~= join(now, ", "@));
                    }
                }
            },
            _ => {},
        }
        i = i + 1;
    }
    proof {
        assert(items@.take(n as int) =~= items@);
    }
    string_of(&out)
}

fn length_exec(entries: &Metadata) -> (ms: u32)
    ensures
        ms == length_field(entries@),
{
    match lookup_exec(entries, "mpris:length") {
        Some(MetadataValue::I64(i)) => {
            let q: i64 = *i / 1000;
            q as u32
        },
        Some(MetadataValue::U64(u)) => (*u / 1000) as u32,
        Some(MetadataValue::I32(i)) => {
            let q: i64 = (*i as i64) / 1000;
            q as u32
        },
        Some(MetadataValue::U32(u)) => ((*u as u64) / 1000) as u32,
        _ => 0,
    }
}

impl MprisMetadataParser {
    /// The playback state that a player's metadata, playback status and
    /// position (in microseconds) describe: title, album and artwork URL
    /// from the text values under `xesam:title`, `xesam:album` and
    /// `mpris:artUrl` (empty when absent or not text), the artists joined
    /// by ", ", the length and position in milliseconds (truncated to
    /// `u32`), and playing exactly when the status is "Playing".
    pub fn parse_metadata_map(metadata: &Metadata, playback_status: &str, position_us: i64) -> (st:
        PlaybackState)
        ensures
            st.title@ == text_field(metadata@, "xesam:title"@),
            st.artist@ == artist_field(metadata@),
            st.album@ == text_field(metadata@, "xesam:album"@),
            st.art_source@ == text_field(metadata@, "mpris:artUrl"@),
            st.progress_ms == div_toward_zero(position_us as int, 1000) as u32,
            st.duration_ms == length_field(metadata@),
            st.is_playing == (playback_status@ == "Playing"@),
            st.formatted_output@.len() == 0,
    {
        let artist = match lookup_exec(metadata, "xesam:artist") {
            Some(MetadataValue::Array(items)) => join_texts(items),
            _ => String::new(),
        };
        let title = text_exec(metadata, "xesam:title");
        let album = text_exec(metadata, "xesam:album");
        let duration_ms = length_exec(metadata);
        let art_source = text_exec(metadata, "mpris:artUrl");
        let q: i64 = position_us / 1000;
        let status = chars_of(playback_status);
        PlaybackState {
            title,
            artist,
            album,
            art_source,
            progress_ms: q as u32,
            duration_ms,
            is_playing: equals_str(&status, "Playing"),
            formatted_output: String::new(),
        }
    }
}

} // verus!
