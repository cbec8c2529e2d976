//! The technical detail of the full Now Playing page: the track's format,
//! numbering, ReplayGain, rating and play count, each row left out when
//! nothing is known.
use vstd::prelude::*;
use vstd::string::StringExecFns;

use crate::fields::{rows_view, sample_rate_cell, TrackInfo};
use crate::text::{dec, dec_int, dec_text, int_text, join, join_strings, to_upper, uppercase, views};

verus! {

/// The known parts of the format line: the upper-cased format name, the
/// bitrate in kbps (the stored bits per second over 1000), the sample rate
/// in kHz.
pub open spec fn format_parts(t: &TrackInfo) -> Seq<Seq<char>> {
    let p: Seq<Seq<char>> = match t.format {
        Some(f) => if f@.len() > 0 {
            seq![uppercase(f@)]
        } else {
            Seq::empty()
        },
        None => Seq::empty(),
    };
    let p = match t.bitrate {
        Some(b) => if b > 0 {
            p.push(dec((b / 1000) as nat) + " kbps"@)
        } else {
            p
        },
        None => p,
    };
    match sample_rate_cell(t) {
        Some(s) => p.push(s),
        None => p,
    }
}

/// `N`, or `N (disc D)` on a release of more than one disc, for a positive
/// track number.
pub open spec fn meta_track(t: &TrackInfo) -> Option<Seq<char>> {
    match t.track_no {
        Some(n) => if n > 0 {
            match t.disc_no {
                Some(d) => if d > 1 {
                    Some(dec_int(n as int) + " (disc "@ + dec_int(d as int) + ")"@)
                } else {
                    Some(dec_int(n as int))
                },
                None => Some(dec_int(n as int)),
            }
        } else {
            None
        },
        None => None,
    }
}

/// Whichever ReplayGain halves exist, joined by ` · `.
pub open spec fn meta_gain(t: &TrackInfo) -> Option<Seq<char>> {
    match (t.replaygain_track, t.replaygain_album) {
        (Some(a), Some(b)) => Some(a@ + " dB track \u{b7} "@ + b@ + " dB album"@),
        (Some(a), None) => Some(a@ + " dB track"@),
        (None, Some(b)) => Some(b@ + " dB album"@),
        (None, None) => None,
    }
}

/// `R of 5` (capped at five) for a rated track.
pub open spec fn meta_rating(t: &TrackInfo) -> Option<Seq<char>> {
    if t.rating > 0 {
        Some(dec(if t.rating > 5 { 5 } else { t.rating as nat }) + " of 5"@)
    } else {
        None
    }
}

/// `1 play` / `N plays` for a track played at least once.
pub open spec fn meta_played(t: &TrackInfo) -> Option<Seq<char>> {
    if t.play_count > 0 {
        Some(dec(t.play_count as nat) + if t.play_count == 1 {
            " play"@
        } else {
            " plays"@
        })
    } else {
        None
    }
}

/// `rows` with `(label, value)` appended when there is a value.
pub open spec fn with_known(
    rows: Seq<(Seq<char>, Seq<char>)>,
    label: Seq<char>,
    value: Option<Seq<char>>,
) -> Seq<(Seq<char>, Seq<char>)> {
    match value {
        Some(v) => rows.push((label, v)),
        None => rows,
    }
}

/// The technical rows of a track in display order: Format, Track,
/// ReplayGain, Rating, Played, each only when something is known.
pub open spec fn meta_rows(t: &TrackInfo) -> Seq<(Seq<char>, Seq<char>)> {
    let parts = format_parts(t);
    let r = with_known(
        Seq::empty(),
        "Format"@,
        if parts.len() > 0 {
            Some(join(parts, " \u{b7} "@))
        } else {
            None
        },
    );
    let r = with_known(r, "Track"@, meta_track(t));
    let r = with_known(r, "ReplayGain"@, meta_gain(t));
    let r = with_known(r, "Rating"@, meta_rating(t));
    with_known(r, "Played"@, meta_played(t))
}

fn push_known(out: &mut Vec<(String, String)>, label: &str, value: Option<String>)
    ensures
        rows_view(final(out)@) == with_known(
            rows_view(old(out)@),
            label@,
            match value {
                Some(v) => Some(v@),
                None => None,
            },
        ),
{
    if let Some(v) = value {
        out.push((String::from_str(label), v));
        assert(rows_view(final(out)@) =~= rows_view(old(out)@).push((label@, v@)));
    }
}

fn format_line(t: &TrackInfo) -> (r: Option<String>)
    ensures
        match r {
            Some(s) => format_parts(t).len() > 0 && s@ == join(format_parts(t), " \u{b7} "@),
            None => format_parts(t).len() == 0,
        },
{
    let mut parts: Vec<String> = Vec::new();
    if let Some(f) = &t.format {
        if !f.as_str().is_empty() {
            parts.push(to_upper(f.as_str()));
        }
    }
    if let Some(b) = t.bitrate {
        if b > 0 {
            let mut s = dec_text((b / 1000) as u64);
            s.append(" kbps");
            parts.push(s);
        }
    }
    if let Some(sr) = t.sample_rate {
        if sr > 0 {
            let mut s = t.sample_rate_khz.clone();
            s.append(" kHz");
            parts.push(s);
        }
    }
    assert(views(parts@) =~= format_parts(t));
    if parts.len() == 0 {
        None
    } else {
        Some(join_strings(&parts, " \u{b7} "))
    }
}

fn track_line(t: &TrackInfo) -> (r: Option<String>)
    ensures
        match r {
            Some(s) => meta_track(t) == Some(s@),
            None => meta_track(t) is None,
        },
{
    match t.track_no {
        Some(n) => if n > 0 {
            let mut s = int_text(n);
            if let Some(d) = t.disc_no {
                if d > 1 {
                    s.append(" (disc ");
                    s.append(int_text(d).as_str());
                    s.append(")");
                }
            }
            Some(s)
        } else {
            None
        },
        None => None,
    }
}

fn gain_line(t: &TrackInfo) -> (r: Option<String>)
    ensures
        match r {
            Some(s) => meta_gain(t) == Some(s@),
            None => meta_gain(t) is None,
        },
{
    match (&t.replaygain_track, &t.replaygain_album) {
        (Some(a), Some(b)) => {
            let mut s = a.clone();
            s.append(" dB track \u{b7} ");
            s.append(b.as_str());
            s.append(" dB album");
            Some(s)
        },
        (Some(a), None) => {
            let mut s = a.clone();
            s.append(" dB track");
            Some(s)
        },
        (None, Some(b)) => {
            let mut s = b.clone();
            s.append(" dB album");
            Some(s)
        },
        (None, None) => None,
    }
}

/// The technical detail rows for a track, in display order: the format line
/// (`FLAC · 1411 kbps · 44.1 kHz`, only the known parts), the track number
/// (with the disc only past the first), ReplayGain, the rating out of five
/// and the play count. Unknown or zero values leave their row out.
pub fn track_meta_rows(track: &TrackInfo) -> (r: Vec<(String, String)>)
    ensures
        rows_view(r@) == meta_rows(track),
{
    let t = track;
    let mut rows: Vec<(String, String)> = Vec::new();
    push_known(&mut rows, "Format", format_line(t));
    push_known(&mut rows, "Track", track_line(t));
    push_known(&mut rows, "ReplayGain", gain_line(t));
    let rating = if t.rating > 0 {
        let mut s = dec_text(if t.rating > 5 { 5 } else { t.rating as u64 });
        s.append(" of 5");
        Some(s)
    } else {
        None
    };
    push_known(&mut rows, "Rating", rating);
    let played = if t.play_count > 0 {
        let mut s = dec_text(t.play_count as u64);
        s.append(if t.play_count == 1 { " play" } else { " plays" });
        Some(s)
    } else {
        None
    };
    push_known(&mut rows, "Played", played);
    rows
}

} // verus!
