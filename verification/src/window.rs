//! The main window's pure helpers: the view-switch keys, the equalizer band
//! labels, the import-mode picker and the bulk-edit prefill.
use vstd::prelude::*;
use vstd::string::StringExecFns;

use crate::text::{dec, push_char, push_dec};

verus! {

/// Map an `Alt+N` view-switch key to the stack page name; `None` for an
/// out-of-range key.
pub fn view_page_name(n: u8) -> (r: Option<&'static str>)
    ensures
        match r {
            Some(name) => (n == 1 && name@ == "music"@) || (n == 2 && name@ == "podcasts"@) || (n
                == 3 && name@ == "audiobooks"@),
            None => n == 0 || n > 3,
        },
{
    match n {
        1 => Some("music"),
        2 => Some("podcasts"),
        3 => Some("audiobooks"),
        _ => None,
    }
}

/// A short EQ band-centre label: whole kilohertz with a `k` from 1000 Hz up
/// (`16000` becomes `16k`), else the hertz (`500`).
pub fn fmt_centre(centre: u32) -> (r: String)
    ensures
        r@ == if centre >= 1000 {
            dec((centre / 1000) as nat).push('k')
        } else {
            dec(centre as nat)
        },
{
    let mut s = String::new();
    if centre >= 1000 {
        push_dec(&mut s, (centre / 1000) as u64);
        push_char(&mut s, 'k');
    } else {
        push_dec(&mut s, centre as u64);
    }
    s
}

/// How an import brings files into the library.
#[derive(Debug, Clone, Copy, PartialEq, Eq, Structural)]
pub enum ImportMode {
    Copy,
    Move,
}

/// The picker index of an import mode (Copy = 0, Move = 1).
pub open spec fn mode_index(mode: ImportMode) -> u32 {
    match mode {
        ImportMode::Copy => 0,
        ImportMode::Move => 1,
    }
}

/// The import mode a picker index selects; anything but 1 reads as Copy.
pub open spec fn mode_at(index: u32) -> ImportMode {
    if index == 1 {
        ImportMode::Move
    } else {
        ImportMode::Copy
    }
}

/// The import-mode picker index (Copy = 0, Move = 1).
pub fn import_mode_index(mode: ImportMode) -> (r: u32)
    ensures
        r == mode_index(mode),
{
    match mode {
        ImportMode::Copy => 0,
        ImportMode::Move => 1,
    }
}

/// The import mode for a picker index; anything but 1 degrades to the safe
/// Copy default.
pub fn import_mode_from_index(index: u32) -> (r: ImportMode)
    ensures
        r == mode_at(index),
{
    match index {
        1 => ImportMode::Move,
        _ => ImportMode::Copy,
    }
}

/// The import-mode picker round-trips: reading back the index shown for a
/// mode gives that mode.
pub proof fn law_import_mode_round_trips(mode: ImportMode)
    ensures
        mode_at(mode_index(mode)) == mode,
{
}

/// The value every entry shares: the entries' common value, an empty
/// string for no entries, none when they differ.
pub open spec fn common_text(vals: Seq<Seq<char>>) -> Option<Seq<char>> {
    if vals.len() == 0 {
        Some(Seq::empty())
    } else if forall|i: int| 0 <= i < vals.len() ==> #[trigger] vals[i] == vals.last() {
        Some(vals.last())
    } else {
        None
    }
}

/// The value shared by every entry in `vals`, or `None` when they differ
/// (the bulk-edit "multiple values" state). An empty selection collapses to
/// a shared empty string.
pub fn common_value(vals: Vec<String>) -> (r: Option<String>)
    ensures
        match r {
            Some(v) => common_text(vals@.map_values(|s: String| s@)) == Some(v@),
            None => common_text(vals@.map_values(|s: String| s@)) is None,
        },
{
    let ghost vs = vals@.map_values(|s: String| s@);
    let n = vals.len();
    if n == 0 {
        return Some(String::new());
    }
    let last = n - 1;
    let mut i: usize = 0;
    while i < last
        invariant
            n == vals@.len(),
            last == n - 1,
            vs == vals@.map_values(|s: String| s@),
            i <= last,
            forall|j: int| 0 <= j < i ==> #[trigger] vs[j] == vs.last(),
        decreases last - i,
    {
        assert(vs[i as int] == vals@[i as int]@);
        if !(vals[i] == vals[last]) {
            assert(vs[i as int] != vs.last());
            return None;
        }
        i += 1;
    }
    Some(vals[last].clone())
}

/// Which sections a launch shows: Music when enabled, and also whenever
/// neither Podcasts nor Audiobooks is on, so the window is never empty.
pub fn show_music(music: bool, podcasts: bool, audiobooks: bool) -> (r: bool)
    ensures
        r == (music || (!podcasts && !audiobooks)),
{
    music || (!podcasts && !audiobooks)
}

} // verus!
