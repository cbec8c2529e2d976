//! What is playing: the media kinds, the Now-bar's secondary line, and the
//! sleep-timer readouts of the Now-bar and the Now Playing drawer.
use vstd::prelude::*;
use vstd::string::StringExecFns;

use crate::text::{
    clock, dec_int, eq_ascii_fold, eq_ignore_ascii_case, int_text, push_clock, trim_text, trimmed,
};

verus! {

/// The kind of a playable item.
#[derive(Debug, Clone, Copy, PartialEq, Eq, Structural)]
pub enum MediaKind {
    Track,
    Episode,
    Audiobook,
}

/// A symbolic icon for a queue entry's kind (icon-theme glyphs).
pub fn kind_icon(kind: MediaKind) -> (r: &'static str)
    ensures
        r@ == match kind {
            MediaKind::Track => "audio-x-generic-symbolic"@,
            MediaKind::Episode => "audio-speakers-symbolic"@,
            MediaKind::Audiobook => "book-open-variant-symbolic"@,
        },
{
    match kind {
        MediaKind::Track => "audio-x-generic-symbolic",
        MediaKind::Episode => "audio-speakers-symbolic",
        MediaKind::Audiobook => "book-open-variant-symbolic",
    }
}

/// The "end of current item" wording for the playing media kind.
pub open spec fn boundary_text(kind: Option<MediaKind>) -> Seq<char> {
    match kind {
        Some(MediaKind::Episode) => "End of episode"@,
        Some(MediaKind::Audiobook) => "End of book"@,
        _ => "End of track"@,
    }
}

/// The "end of current item" menu label, adapted to the playing media kind
/// (music gets a sleep timer too).
pub fn sleep_boundary_label(kind: Option<MediaKind>) -> (r: &'static str)
    ensures
        r@ == boundary_text(kind),
{
    match kind {
        Some(MediaKind::Episode) => "End of episode",
        Some(MediaKind::Audiobook) => "End of book",
        _ => "End of track",
    }
}

/// A countdown clock string (`M:SS`) of `total` whole seconds remaining (the
/// caller rounds the remaining time up, so a freshly armed 15-minute timer
/// reads `15:00`).
pub fn fmt_sleep_remaining(total: u64) -> (r: String)
    ensures
        r@ == clock(total as nat),
{
    let mut s = String::new();
    push_clock(&mut s, total);
    assert(s@ =~= clock(total as nat));
    s
}

/// The Now-bar's secondary line: `artist · album` when the (trimmed) album
/// adds information, the album alone when there is no artist, else just
/// the artist.
pub open spec fn subtitle_text(artist: Seq<char>, album: Option<Seq<char>>) -> Seq<char> {
    match album {
        Some(a) => {
            let t = trimmed(a);
            if t.len() > 0 && !eq_ascii_fold(t, artist) && artist.len() > 0 {
                artist + " · "@ + t
            } else if t.len() > 0 && artist.len() == 0 {
                t
            } else {
                artist
            }
        },
        None => artist,
    }
}

/// The Now-bar's secondary line: `artist · album` when the album adds
/// information, else just the artist. Folding the duplicate keeps a podcast
/// (whose "artist" and "album" are both the show title) from reading
/// "Show · Show".
pub fn now_bar_subtitle(artist: &str, album: Option<&str>) -> (r: String)
    ensures
        r@ == subtitle_text(
            artist@,
            match album {
                Some(a) => Some(a@),
                None => None,
            },
        ),
{
    if let Some(a) = album {
        let t = trim_text(a);
        if !t.as_str().is_empty() {
            if !eq_ignore_ascii_case(t.as_str(), artist) && !artist.is_empty() {
                let mut s = String::from_str(artist);
                s.append(" · ");
                s.append(t.as_str());
                return s;
            } else if artist.is_empty() {
                return t;
            }
        }
    }
    String::from_str(artist)
}

/// The mode of an armed sleep timer.
#[derive(Debug, Clone, Copy, PartialEq, Eq, Structural)]
pub enum SleepMode {
    /// Stop after a duration (whole seconds).
    After(u64),
    /// Stop at the end of the current item.
    EndOfItem,
    /// Stop at the end of the queue.
    EndOfQueue,
}

/// An armed sleep timer as the player reports it.
#[derive(Debug, Clone, Copy, PartialEq, Eq, Structural)]
pub struct SleepStatus {
    pub mode: SleepMode,
    /// The whole seconds left on a duration timer, rounded up.
    pub remaining: Option<u64>,
    /// Whether the timer fired and the tap-to-extend window is open.
    pub fired: bool,
}

/// The "Sleep · …" drawer line for an armed timer, or none.
pub open spec fn drawer_text(status: Option<SleepStatus>, kind: Option<MediaKind>) -> Option<
    Seq<char>,
> {
    match status {
        None => None,
        Some(s) => Some(
            "Sleep · "@ + if s.fired {
                "tap play to extend"@
            } else {
                match s.remaining {
                    Some(r) => clock(r as nat),
                    None => match s.mode {
                        SleepMode::EndOfQueue => "until end of queue"@,
                        _ => match kind {
                            Some(MediaKind::Episode) => "until end of episode"@,
                            Some(MediaKind::Audiobook) => "until end of book"@,
                            _ => "until end of track"@,
                        },
                    },
                }
            },
        ),
    }
}

/// The "Sleep · …" drawer line for an armed timer, or `None` when none is
/// set. A duration timer shows its remaining `M:SS` (or "tap play to extend"
/// while the tap-to-extend window is open); a boundary timer names where it
/// stops, the wording following the playing media kind.
pub fn sleep_drawer_text(status: Option<SleepStatus>, kind: Option<MediaKind>) -> (r: Option<
    String,
>)
    ensures
        match r {
            Some(t) => drawer_text(status, kind) == Some(t@),
            None => drawer_text(status, kind) is None,
        },
{
    let s = match status {
        Some(s) => s,
        None => return None,
    };
    let mut out = String::from_str("Sleep · ");
    if s.fired {
        out.append("tap play to extend");
    } else {
        match s.remaining {
            Some(r) => push_clock(&mut out, r),
            None => match s.mode {
                SleepMode::EndOfQueue => out.append("until end of queue"),
                _ => match kind {
                    Some(MediaKind::Episode) => out.append("until end of episode"),
                    Some(MediaKind::Audiobook) => out.append("until end of book"),
                    _ => out.append("until end of track"),
                },
            },
        }
    }
    Some(out)
}

/// The spoken-word quick-seek buttons' labels and tooltips for skips of
/// `back` and `forward` whole seconds: `−15`, `+30`, `Back 15 seconds`,
/// `Forward 30 seconds`.
pub fn quick_seek_labels(back: i64, forward: i64) -> (r: (String, String, String, String))
    ensures
        r.0@ == "\u{2212}"@ + dec_int(back as int),
        r.1@ == "+"@ + dec_int(forward as int),
        r.2@ == "Back "@ + dec_int(back as int) + " seconds"@,
        r.3@ == "Forward "@ + dec_int(forward as int) + " seconds"@,
{
    let b = int_text(back);
    let f = int_text(forward);
    let mut back_label = String::from_str("\u{2212}");
    back_label.append(b.as_str());
    let mut fwd_label = String::from_str("+");
    fwd_label.append(f.as_str());
    let mut back_tip = String::from_str("Back ");
    back_tip.append(b.as_str());
    back_tip.append(" seconds");
    let mut fwd_tip = String::from_str("Forward ");
    fwd_tip.append(f.as_str());
    fwd_tip.append(" seconds");
    (back_label, fwd_label, back_tip, fwd_tip)
}

/// The Smart Speed indicator's text and tooltip for `saved` whole seconds
/// saved this session: `Smart Speed · saved m:ss`.
pub fn smart_speed_texts(saved: u64) -> (r: (String, String))
    ensures
        r.0@ == "Smart Speed \u{b7} saved "@ + clock(saved as nat),
        r.1@ == "Smart Speed is shortening silences; "@ + clock(saved as nat)
            + " saved this session"@,
{
    let mut text = String::from_str("Smart Speed \u{b7} saved ");
    push_clock(&mut text, saved);
    let mut tip = String::from_str("Smart Speed is shortening silences; ");
    push_clock(&mut tip, saved);
    tip.append(" saved this session");
    (text, tip)
}

/// The Now-bar's sleep button for an armed timer: the moon is tinted
/// whenever a timer is armed, and a duration timer shows its remaining
/// `M:SS` beside it (the label is hidden when empty).
pub fn now_bar_sleep(status: Option<SleepStatus>) -> (r: (bool, String))
    ensures
        r.0 == status is Some,
        r.1@ == match status {
            Some(s) => match s.remaining {
                Some(t) => clock(t as nat),
                None => Seq::empty(),
            },
            None => Seq::empty(),
        },
{
    match status {
        Some(s) => match s.remaining {
            Some(t) => (true, fmt_sleep_remaining(t)),
            None => (true, String::new()),
        },
        None => (false, String::new()),
    }
}

} // verus!
