//! Reading the Windows media session (System Media Transport Controls).
//!
//! The session itself is a Windows service; what the library decides is how
//! its timeline, status and thumbnail become a `PlaybackState`.
use vstd::prelude::*;
use crate::mpris::div_toward_zero;
use crate::playback::PlaybackState;
use crate::text::{chars_of, push_str, string_of};

verus! {

/// The status of a media session, as Windows reports it.
#[derive(Clone, Copy, Debug, PartialEq, Eq, Structural)]
pub enum SessionStatus {
    Closed,
    Opened,
    Changing,
    Stopped,
    Playing,
    Paused,
}

/// `path` with every backslash turned into a forward slash.
pub open spec fn forward_slashes(path: Seq<char>) -> Seq<char> {
    Seq::new(path.len(), |i: int| if path[i] == '\\' { '/' } else { path[i] })
}

/// The `file:///` URL of a file on disk.
pub open spec fn file_url(path: Seq<char>) -> Seq<char> {
    "file:///"@ + forward_slashes(path)
}

/// Milliseconds from a duration in 100-nanosecond ticks, converted to `u32`
/// by truncation.
pub open spec fn ticks_to_ms(ticks: i64) -> u32 {
    div_toward_zero(ticks as int, 10000) as u32
}

/// Reads the current media session.
pub struct SmtcSessionManager;

impl SmtcSessionManager {
    /// The media session is a Windows service: on any other system the
    /// answer is always the error "SMTC is only available on Windows".
    pub fn get_active_session_state() -> (r: Result<PlaybackState, String>)
        ensures
            r matches Err(e) && e@ == "SMTC is only available on Windows"@,
    {
        Err("SMTC is only available on Windows".to_string())
    }

    /// The `file:///` URL under which the thumbnail written to `path` is
    /// shown: the path with forward slashes behind `file:///`.
    pub fn art_url(path: &str) -> (url: String)
        ensures
            url@ == file_url(path@),
    {
        let mut out: Vec<char> = Vec::new();
        push_str(&mut out, "file:///");
        let p = chars_of(path);
        let n = p.len();
        let ghost start = out@;
        proof {
            reveal_strlit("file:///");
        }
        let mut i: usize = 0;
        while i < n
            invariant
                n == p.len(),
                p@ == path@,
                i <= n,
                start == "file:///"@,
                out@ == start + forward_slashes(path@).take(i as int),
            decreases n - i,
        {
            let c = p[i];
            if c == '\\' {
                out.push('/');
            } else {
                out.push(c);
            }
            proof {
                assert(forward_slashes(path@).take(i + 1) =~= forward_slashes(path@).take(
                    i as int,
                ).push(forward_slashes(path@)[i as int]));
            }
            i = i + 1;
        }
        proof {
            assert(forward_slashes(path@).take(n as int) =~= forward_slashes(path@));
        }
        string_of(&out)
    }

    /// The playback state of a session: its title, artist and album, its
    /// end time and position (in 100-nanosecond ticks) as milliseconds
    /// truncated to `u32`, playing exactly when the status is `Playing`,
    /// and the thumbnail's `file:///` URL when it was written to disk
    /// (empty otherwise).
    pub fn session_state(
        title: String,
        artist: String,
        album: String,
        end_ticks: i64,
        position_ticks: i64,
        status: SessionStatus,
        thumbnail_path: Option<&str>,
    ) -> (st: PlaybackState)
        ensures
            st.title@ == title@,
            st.artist@ == artist@,
            st.album@ == album@,
            st.duration_ms == ticks_to_ms(end_ticks),
            st.progress_ms == ticks_to_ms(position_ticks),
            st.is_playing == (status == SessionStatus::Playing),
            match thumbnail_path {
                Some(p) => st.art_source@ == file_url(p@),
                None => st.art_source@.len() == 0,
            },
            st.formatted_output@.len() == 0,
    {
        let duration: i64 = end_ticks / 10000;
        let progress: i64 = position_ticks / 10000;
        let art_source = match thumbnail_path {
            Some(p) => Self::art_url(p),
            None => String::new(),
        };
        PlaybackState {
            title,
            artist,
            album,
            art_source,
            progress_ms: progress as u32,
            duration_ms: duration as u32,
            is_playing: status == SessionStatus::Playing,
            formatted_output: String::new(),
        }
    }
}

} // verus!
