//! The main window's playback decisions: what the Now-bar shows for a
//! playback snapshot, which leaf row carries the play glyph, the queue
//! drawer's keyboard reorder, the volume keys, and the facet cascade.
//! The window polls the player, applies these decisions to its widgets
//! and sends the resulting commands.
use vstd::prelude::*;

use crate::media::MediaKind;

verus! {

/// The volume after a `Ctrl+Up` / `Ctrl+Down` nudge: the level moved by
/// `delta`, clamped to `0..=100`.
pub open spec fn nudged(volume: int, delta: int) -> int {
    let v = volume + delta;
    if v < 0 {
        0
    } else if v > 100 {
        100
    } else {
        v
    }
}

/// The volume after a nudge by `delta`, clamped to `0..=100`.
pub fn nudge_volume(volume: i64, delta: i64) -> (r: i64)
    ensures
        r == nudged(volume as int, delta as int),
        0 <= r <= 100,
{
    let v: i128 = (volume as i128) + (delta as i128);
    if v < 0 {
        0
    } else if v > 100 {
        100
    } else {
        v as i64
    }
}

/// The mute toggle as a step on `(remembered level, volume)`: with a
/// remembered level, restore it and forget it; otherwise remember the
/// current level and mute.
pub open spec fn mute_step(remembered: Option<i64>, volume: i64) -> (Option<i64>, i64) {
    match remembered {
        Some(prev) => (None, prev),
        None => (Some(volume), 0),
    }
}

/// What `Ctrl+0` does: with a remembered level, restore it and forget it;
/// otherwise remember the current level and mute. Returns the level to
/// remember afterwards and the volume to set.
pub fn toggle_mute(remembered: Option<i64>, volume: i64) -> (r: (Option<i64>, i64))
    ensures
        r == mute_step(remembered, volume),
{
    match remembered {
        Some(prev) => (None, prev),
        None => (Some(volume), 0),
    }
}

/// Muting then unmuting gives back the level that was playing, with nothing
/// left remembered.
pub proof fn law_mute_round_trips(volume: i64)
    ensures
        mute_step(None, volume).1 == 0,
        ({
            let (m, v) = mute_step(None, volume);
            mute_step(m, v)
        }) == (None::<i64>, volume),
{
}

/// The target row of an `Alt+Up` / `Alt+Down` reorder of the selected queue
/// row: the selection moved by `delta`, clamped into the queue.
pub open spec fn move_target(selected: int, len: int, delta: int) -> int {
    let t = selected + delta;
    if t < 0 {
        0
    } else if t > len - 1 {
        len - 1
    } else {
        t
    }
}

/// The reorder for moving the selected queue row by `delta`: `Some((from,
/// to))` when there is a selection and it actually moves, `None` otherwise.
pub fn queue_move_target(selected: Option<u32>, len: u32, delta: i32) -> (r: Option<(u32, u32)>)
    requires
        len <= i32::MAX,
    ensures
        r == match selected {
            Some(s) => if len > 0 && move_target(s as int, len as int, delta as int) != s {
                Some((s, move_target(s as int, len as int, delta as int) as u32))
            } else {
                None
            },
            None => None,
        },
{
    let s = match selected {
        Some(s) => s,
        None => return None,
    };
    if len == 0 {
        return None;
    }
    let t: i64 = (s as i64) + (delta as i64);
    let last: i64 = (len as i64) - 1;
    let to: i64 = if t < 0 {
        0
    } else if t > last {
        last
    } else {
        t
    };
    if to != s as i64 {
        Some((s, to as u32))
    } else {
        None
    }
}

/// A one-step keyboard move lands on the neighbouring row when there is
/// one, and never leaves the queue.
pub proof fn law_move_one_step(selected: int, len: int, delta: int)
    requires
        0 <= selected < len,
        delta == 1 || delta == -1,
    ensures
        0 <= move_target(selected, len, delta) < len,
        0 <= selected + delta < len ==> move_target(selected, len, delta) == selected + delta,
        !(0 <= selected + delta < len) ==> move_target(selected, len, delta) == selected,
{
}

/// The queue row to highlight for a playback snapshot: the engine's current
/// slot, or none once playback has ended.
pub open spec fn highlight_for(ended: bool, current_index: Option<usize>) -> Option<i64> {
    if ended {
        None
    } else {
        match current_index {
            Some(i) => Some(i as i64),
            None => None,
        }
    }
}

/// The new queue highlight when it changed since `shown`, else `None` (no
/// reload needed).
pub fn queue_highlight(shown: Option<i64>, ended: bool, current_index: Option<usize>) -> (r:
    Option<Option<i64>>)
    ensures
        r == if highlight_for(ended, current_index) != shown {
            Some(highlight_for(ended, current_index))
        } else {
            None
        },
{
    let want: Option<i64> = if ended {
        None
    } else {
        match current_index {
            Some(i) => {
                #[verifier::truncate]
                let w = i as i64;
                Some(w)
            },
            None => None,
        }
    };
    if want != shown {
        Some(want)
    } else {
        None
    }
}

/// Which leaf rows show the play glyph: `(is_track, playing_id)`. Only a
/// track that has not ended marks a row.
pub fn glyph_target(kind: Option<MediaKind>, ended: bool, track_id: Option<i64>) -> (r: (
    bool,
    Option<i64>,
))
    ensures
        r.0 == (kind == Some(MediaKind::Track) && !ended),
        r.1 == if r.0 {
            track_id
        } else {
            None
        },
{
    let is_track = kind == Some(MediaKind::Track) && !ended;
    (is_track, if is_track {
        track_id
    } else {
        None
    })
}

/// The panes whose selection constrains a cascade from pane `earliest`:
/// those up to `earliest` (or the last pane) that select some values.
/// Returns those panes' positions, in order, and the first pane to
/// recompute; `None` when there are no panes.
pub fn cascade_plan(values: &[Vec<String>], earliest: usize) -> (r: Option<(Vec<usize>, usize)>)
    ensures
        values@.len() == 0 <==> r is None,
        r matches Some((ps, first)) ==> {
            &&& first == (if earliest < values@.len() - 1 {
                earliest
            } else {
                (values@.len() - 1) as usize
            }) + 1
            &&& forall|k: int| 0 <= k < ps@.len() ==> (#[trigger] ps@[k]) < first
            &&& forall|k: int| 0 <= k < ps@.len() ==> values@[ps@[k] as int]@.len() > 0
            &&& forall|k: int, m: int| 0 <= k < m < ps@.len() ==> ps@[k] < ps@[m]
            &&& forall|i: int|
                0 <= i < first && values@[i]@.len() > 0 ==> ps@.contains(i as usize)
        },
{
    let n = values.len();
    if n == 0 {
        return None;
    }
    let last = if earliest < n - 1 {
        earliest
    } else {
        n - 1
    };
    let mut ps: Vec<usize> = Vec::new();
    let mut i: usize = 0;
    while i <= last
        invariant
            n == values@.len(),
            last < n,
            i <= last + 1,
            forall|k: int| 0 <= k < ps@.len() ==> (#[trigger] ps@[k]) < i,
            forall|k: int| 0 <= k < ps@.len() ==> values@[ps@[k] as int]@.len() > 0,
            forall|k: int, m: int| 0 <= k < m < ps@.len() ==> ps@[k] < ps@[m],
            forall|j: int| 0 <= j < i && values@[j]@.len() > 0 ==> ps@.contains(j as usize),
        decreases last + 1 - i,
    {
        let ghost before = ps@;
        if values[i].len() > 0 {
            ps.push(i);
            proof {
                assert(ps@[ps@.len() - 1] == i);
            }
        }
        proof {
            assert forall|j: int| 0 <= j < i + 1 && values@[j]@.len() > 0 implies ps@.contains(
                j as usize,
            ) by {
                if j == i {
                    assert(ps@[ps@.len() - 1] == i);
                } else {
                    assert(before.contains(j as usize));
                    let k = choose|k: int| 0 <= k < before.len() && before[k] == j as usize;
                    assert(ps@[k] == j as usize);
                }
            }
        }
        i += 1;
    }
    Some((ps, last + 1))
}

/// The parts of a playback snapshot the Now-bar refresh reads.
#[derive(Debug, Clone, Copy, PartialEq, Eq, Structural)]
pub struct Playback {
    /// The id of the loaded item, if any.
    pub track_id: Option<i64>,
    /// The engine's queue slot of the loaded item.
    pub current_index: Option<usize>,
    pub kind: Option<MediaKind>,
    pub paused: bool,
    pub ended: bool,
    pub buffering: bool,
    pub streaming: bool,
    pub chapter_count: u32,
    /// The live channel count of the output.
    pub channels: Option<i64>,
}

/// What the Now-bar refresh does with a snapshot.
#[derive(Debug, Clone, Copy)]
pub enum NowBarUpdate {
    /// Nothing is loaded and nothing was shown: leave the bar as it is.
    Unchanged,
    /// Playback ended or nothing is loaded: clear the bar, the drawer and
    /// the status line, and forget the shown item.
    Clear,
    /// Show the loaded item.
    Show(NowBarView),
}

/// The Now-bar's state for a loaded item.
#[derive(Debug, Clone, Copy)]
pub struct NowBarView {
    /// The item differs from the one shown (by id or by queue slot, since a
    /// track and an episode can share an id): re-read its metadata.
    pub item_changed: bool,
    /// The play button's icon: start while paused, pause while playing.
    pub play_icon: &'static str,
    /// Show the buffering spinner.
    pub buffering: bool,
    /// Show the streaming glyph.
    pub streaming: bool,
    /// Show the chapter-skip buttons (only for an item with chapters).
    pub chapter_nav: bool,
    /// Show the per-show podcast playback button (only for an episode).
    pub podcast_button: bool,
    /// The channel count for the status bar's technical line (only tracks
    /// report one).
    pub tech_channels: Option<i64>,
}

/// Whether the spectrum visualizer should capture: audio is actually
/// flowing.
pub open spec fn audio_flowing(p: Playback) -> bool {
    p.track_id is Some && !p.paused && !p.ended && !p.buffering
}

/// The decisions of one Now-bar refresh: whether the visualizer captures,
/// and what the bar shows. The caller records `p.track_id` and
/// `p.current_index` as shown after a `Show` with `item_changed`, and
/// forgets them after a `Clear`.
pub fn plan_now_bar(p: Playback, last_shown: Option<i64>, last_index: Option<usize>) -> (r: (
    bool,
    NowBarUpdate,
))
    ensures
        r.0 == audio_flowing(p),
        match r.1 {
            NowBarUpdate::Unchanged => (p.ended || p.track_id is None) && last_shown is None,
            NowBarUpdate::Clear => (p.ended || p.track_id is None) && last_shown is Some,
            NowBarUpdate::Show(v) => {
                &&& !p.ended
                &&& p.track_id is Some
                &&& v.item_changed == (last_shown != p.track_id || last_index != p.current_index)
                &&& v.play_icon@ == (if p.paused {
                    "media-playback-start-symbolic"@
                } else {
                    "media-playback-pause-symbolic"@
                })
                &&& v.buffering == p.buffering
                &&& v.streaming == p.streaming
                &&& v.chapter_nav == (p.chapter_count > 0)
                &&& v.podcast_button == (p.kind == Some(MediaKind::Episode))
                &&& v.tech_channels == (if p.kind == Some(MediaKind::Track) {
                    p.channels
                } else {
                    None
                })
            },
        },
{
    let flowing = p.track_id.is_some() && !p.paused && !p.ended && !p.buffering;
    if p.ended || p.track_id.is_none() {
        if last_shown.is_some() {
            return (flowing, NowBarUpdate::Clear);
        }
        return (flowing, NowBarUpdate::Unchanged);
    }
    let item_changed = last_shown != p.track_id || last_index != p.current_index;
    let is_track = p.kind == Some(MediaKind::Track);
    let view = NowBarView {
        item_changed,
        play_icon: if p.paused {
            "media-playback-start-symbolic"
        } else {
            "media-playback-pause-symbolic"
        },
        buffering: p.buffering,
        streaming: p.streaming,
        chapter_nav: p.chapter_count > 0,
        podcast_button: p.kind == Some(MediaKind::Episode),
        tech_channels: if is_track {
            p.channels
        } else {
            None
        },
    };
    (flowing, NowBarUpdate::Show(view))
}

} // verus!
