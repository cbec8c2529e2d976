//! The list items the facet panes, the podcast episode list and the
//! audiobook shelf render: plain data carriers and the text each shows.
use vstd::prelude::*;
use vstd::string::StringExecFns;

use crate::text::{
    clock, dec, dec_int, join, join_strings, push_char, push_clock, push_dec, push_int, span,
    span_text, trim_text, trimmed, views,
};

verus! {

// --- Facet row (a pane entry: a value and its track count) ---

/// A facet pane entry: a value with its track count, or the synthetic
/// `[All]` row carrying the number of distinct values.
#[derive(Debug, Clone)]
pub struct FacetRow {
    pub value: String,
    pub count: i64,
    pub is_all: bool,
    pub distinct: i64,
}

impl FacetRow {
    /// A normal value row.
    pub fn value_row(value: &str, count: i64) -> (r: Self)
        ensures
            r.value@ == value@,
            r.count == count,
            !r.is_all,
            r.distinct == 0,
    {
        FacetRow { value: String::from_str(value), count, is_all: false, distinct: 0 }
    }

    /// The synthetic top row: `distinct` distinct values, `total` tracks.
    pub fn all_row(distinct: i64, total: i64) -> (r: Self)
        ensures
            r.value@ == Seq::<char>::empty(),
            r.count == total,
            r.is_all,
            r.distinct == distinct,
    {
        FacetRow { value: String::new(), count: total, is_all: true, distinct }
    }

    pub fn value(&self) -> (r: String)
        ensures
            r@ == self.value@,
    {
        self.value.clone()
    }

    pub fn count(&self) -> (r: i64)
        ensures
            r == self.count,
    {
        self.count
    }

    pub fn is_all(&self) -> (r: bool)
        ensures
            r == self.is_all,
    {
        self.is_all
    }

    /// The text for the value column: the value, or `[All (N <plural>)]`.
    pub fn value_text(&self, plural: &str) -> (r: String)
        ensures
            r@ == if self.is_all {
                "[All ("@ + dec_int(self.distinct as int) + seq![' '] + plural@ + ")]"@
            } else {
                self.value@
            },
    {
        if self.is_all {
            let mut s = String::from_str("[All (");
            push_int(&mut s, self.distinct);
            push_char(&mut s, ' ');
            s.append(plural);
            s.append(")]");
            s
        } else {
            self.value()
        }
    }
}

/// A pane's effective constraint: the selected non-`[All]` values, in list
/// order; `[All]` selected (or nothing selected) means no constraint.
pub open spec fn constraint(rows: Seq<FacetRow>, selected: Seq<bool>) -> Seq<Seq<char>>
    decreases rows.len(),
{
    if rows.len() == 0 {
        Seq::empty()
    } else {
        let k = rows.len() - 1;
        let picked = k < selected.len() && selected[k];
        if exists|j: int| 0 <= j < rows.len() && j < selected.len() && selected[j] && rows[j].is_all {
            Seq::empty()
        } else if picked {
            constraint(rows.drop_last(), selected).push(rows[k].value@)
        } else {
            constraint(rows.drop_last(), selected)
        }
    }
}

/// The pane's effective constraint over its rows and their selection flags:
/// the selected non-`[All]` values. `[All]` selected (or nothing selected)
/// means no constraint (empty).
pub fn effective_values(rows: &[FacetRow], selected: &[bool]) -> (r: Vec<String>)
    ensures
        views(r@) == constraint(rows@, selected@),
{
    let n = rows.len();
    let mut values: Vec<String> = Vec::new();
    let mut i: usize = 0;
    while i < n
        invariant
            n == rows@.len(),
            i <= n,
            forall|j: int|
                0 <= j < i && j < selected@.len() && selected@[j] ==> !(#[trigger] rows@[j]).is_all,
            views(values@) == constraint(rows@.take(i as int), selected@),
        decreases n - i,
    {
        let picked = i < selected.len() && selected[i];
        assert(rows@.take(i + 1).drop_last() =~= rows@.take(i as int));
        if picked {
            if rows[i].is_all {
                proof {
                    lemma_constraint_all(rows@, selected@, i as int);
                }
                return Vec::new();
            }
            values.push(rows[i].value());
        }
        proof {
            let t = rows@.take(i + 1);
            assert(!exists|j: int|
                0 <= j < t.len() && j < selected@.len() && selected@[j] && t[j].is_all) by {
                if exists|j: int|
                    0 <= j < t.len() && j < selected@.len() && selected@[j] && t[j].is_all {
                    let j = choose|j: int|
                        0 <= j < t.len() && j < selected@.len() && selected@[j] && t[j].is_all;
                    assert(t[j] == rows@[j]);
                }
            }
        }
        assert(views(values@) =~= constraint(rows@.take(i + 1), selected@));
        i += 1;
    }
    assert(rows@.take(n as int) =~= rows@);
    values
}

proof fn lemma_constraint_all(rows: Seq<FacetRow>, selected: Seq<bool>, i: int)
    requires
        0 <= i < rows.len(),
        i < selected.len(),
        selected[i],
        rows[i].is_all,
    ensures
        constraint(rows, selected) == Seq::<Seq<char>>::empty(),
{
    assert(rows.len() > 0);
    assert(0 <= i < rows.len() && i < selected.len() && selected[i] && rows[i].is_all);
}

// --- Episode row (a podcast episode list entry) ---

/// An episode's played state.
#[derive(Debug, Clone, Copy, PartialEq, Eq, Structural)]
pub enum PlayedState {
    Unplayed,
    InProgress,
    PlayedFully,
    ArchivedUnlistened,
}

/// The UTC calendar date `YYYY-MM-DD` of a Unix timestamp (whole seconds),
/// as `chrono` renders it; none when the timestamp is outside `chrono`'s
/// range.
pub uninterp spec fn utc_ymd(secs: i64) -> Option<Seq<char>>;

/// Calls `chrono::DateTime::<Utc>::from_timestamp(secs, 0)` and renders the
/// date with `format("%Y-%m-%d")`. Its result is named by [`utc_ymd`] of the
/// argument: a function of the timestamp alone (UTC, no local time zone).
/// Nothing more is claimed of the calendar arithmetic here.
#[verifier::external_body]
pub(crate) fn date_of(secs: i64) -> (r: Option<String>)
    ensures
        match r {
            Some(t) => utc_ymd(secs) == Some(t@),
            None => utc_ymd(secs) is None,
        },
{
    match chrono::DateTime::from_timestamp(secs, 0) {
        Some(d) => Some(d.format("%Y-%m-%d").to_string()),
        None => None,
    }
}

/// A podcast episode list entry.
#[derive(Debug, Clone)]
pub struct EpisodeRow {
    pub id: i64,
    pub show_id: i64,
    pub show_title: String,
    pub title: String,
    pub description: Option<String>,
    /// The feed's publication time, Unix seconds.
    pub pub_date: Option<i64>,
    /// The feed's duration, whole seconds.
    pub duration: Option<u32>,
    pub played: PlayedState,
    pub starred: bool,
    pub in_queue: bool,
    pub audio_path: Option<String>,
    pub audio_url: Option<String>,
}

/// The optional text's characters, or nothing.
pub open spec fn or_empty(s: Option<String>) -> Seq<char> {
    match s {
        Some(t) => t@,
        None => Seq::empty(),
    }
}

pub(crate) fn text_or_empty(s: &Option<String>) -> (r: String)
    ensures
        r@ == or_empty(*s),
{
    match s {
        Some(t) => t.clone(),
        None => String::new(),
    }
}

pub(crate) fn copy_opt(s: &Option<String>) -> (r: Option<String>)
    ensures
        r == *s,
{
    match s {
        Some(t) => Some(t.clone()),
        None => None,
    }
}

/// `h:mm:ss` / `m:ss` of a positive duration, empty otherwise.
pub open spec fn duration_label(secs: int) -> Seq<char> {
    if secs <= 0 {
        Seq::empty()
    } else {
        span(secs as nat)
    }
}

/// The `YYYY-MM-DD` text of an optional publication time, or empty.
pub open spec fn date_label(pub_date: Option<i64>) -> Seq<char> {
    match pub_date {
        Some(secs) => match utc_ymd(secs) {
            Some(t) => t,
            None => Seq::empty(),
        },
        None => Seq::empty(),
    }
}

/// The duration text of an optional feed duration, or empty.
pub open spec fn episode_duration(duration: Option<u32>) -> Seq<char> {
    duration_label(
        match duration {
            Some(d) => d as int,
            None => 0,
        },
    )
}

impl EpisodeRow {
    pub fn id(&self) -> (r: i64)
        ensures
            r == self.id,
    {
        self.id
    }

    pub fn show_id(&self) -> (r: i64)
        ensures
            r == self.show_id,
    {
        self.show_id
    }

    pub fn title(&self) -> (r: String)
        ensures
            r@ == self.title@,
    {
        self.title.clone()
    }

    pub fn show_title(&self) -> (r: String)
        ensures
            r@ == self.show_title@,
    {
        self.show_title.clone()
    }

    /// The show notes, or empty.
    pub fn description(&self) -> (r: String)
        ensures
            r@ == or_empty(self.description),
    {
        text_or_empty(&self.description)
    }

    /// `YYYY-MM-DD`, or empty when the feed gave no date.
    pub fn date_text(&self) -> (r: String)
        ensures
            r@ == date_label(self.pub_date),
    {
        match self.pub_date {
            Some(secs) => match date_of(secs) {
                Some(t) => t,
                None => String::new(),
            },
            None => String::new(),
        }
    }

    /// `h:mm:ss` / `m:ss`, or empty when unknown.
    pub fn duration_text(&self) -> (r: String)
        ensures
            r@ == episode_duration(self.duration),
    {
        let secs: u64 = match self.duration {
            Some(d) => d as u64,
            None => 0,
        };
        if secs == 0 {
            return String::new();
        }
        span_text(secs)
    }

    /// A symbolic icon name for the played state.
    pub fn state_icon(&self) -> (r: &'static str)
        ensures
            r@ == match self.played {
                PlayedState::Unplayed => "media-record-symbolic"@,
                PlayedState::InProgress => "media-playback-start-symbolic"@,
                _ => "object-select-symbolic"@,
            },
    {
        match self.played {
            PlayedState::Unplayed => "media-record-symbolic",
            PlayedState::InProgress => "media-playback-start-symbolic",
            PlayedState::PlayedFully | PlayedState::ArchivedUnlistened => "object-select-symbolic",
        }
    }

    /// A human label for the state (tooltip / accessibility).
    pub fn state_label(&self) -> (r: &'static str)
        ensures
            r@ == match self.played {
                PlayedState::Unplayed => "Unplayed"@,
                PlayedState::InProgress => "In progress"@,
                PlayedState::PlayedFully => "Played"@,
                PlayedState::ArchivedUnlistened => "Archived"@,
            },
    {
        match self.played {
            PlayedState::Unplayed => "Unplayed",
            PlayedState::InProgress => "In progress",
            PlayedState::PlayedFully => "Played",
            PlayedState::ArchivedUnlistened => "Archived",
        }
    }

    pub fn played(&self) -> (r: PlayedState)
        ensures
            r == self.played,
    {
        self.played
    }

    pub fn starred(&self) -> (r: bool)
        ensures
            r == self.starred,
    {
        self.starred
    }

    pub fn in_queue(&self) -> (r: bool)
        ensures
            r == self.in_queue,
    {
        self.in_queue
    }

    /// The downloaded local file (relative to the library root), if any.
    pub fn audio_path(&self) -> (r: Option<String>)
        ensures
            r == self.audio_path,
    {
        copy_opt(&self.audio_path)
    }

    /// The remote enclosure URL (streamed when not downloaded), if any.
    pub fn audio_url(&self) -> (r: Option<String>)
        ensures
            r == self.audio_url,
    {
        copy_opt(&self.audio_url)
    }
}

/// `h:mm:ss` / `m:ss` of a chapter duration in whole seconds, or empty when
/// unknown.
pub fn chapter_duration(secs: Option<i64>) -> (r: String)
    ensures
        r@ == duration_label(
            match secs {
                Some(s) => s as int,
                None => 0,
            },
        ),
{
    let s: i64 = match secs {
        Some(v) => v,
        None => 0,
    };
    if s <= 0 {
        return String::new();
    }
    span_text(s as u64)
}

/// A chapter list row's title: the chapter's own title when it has a
/// non-empty one, else `Chapter N` (counting from one).
pub fn chapter_title(title: Option<&str>, index: usize) -> (r: String)
    requires
        index < usize::MAX,
    ensures
        r@ == match title {
            Some(t) => if t@.len() > 0 {
                t@
            } else {
                "Chapter "@ + crate::text::dec((index + 1) as nat)
            },
            None => "Chapter "@ + crate::text::dec((index + 1) as nat),
        },
{
    if let Some(t) = title {
        if !t.is_empty() {
            return String::from_str(t);
        }
    }
    let mut s = String::from_str("Chapter ");
    crate::text::push_dec(&mut s, (index + 1) as u64);
    s
}

/// A queued or playing item's chapter row: its start time (`m:ss`, whole
/// seconds), three spaces, then its title (`Chapter N` when untitled).
pub fn chapter_row_label(start_secs: u64, title: Option<&str>, index: usize) -> (r: String)
    requires
        index < usize::MAX,
    ensures
        r@ == clock(start_secs as nat) + "   "@ + match title {
            Some(t) => if t@.len() > 0 {
                t@
            } else {
                "Chapter "@ + dec((index + 1) as nat)
            },
            None => "Chapter "@ + dec((index + 1) as nat),
        },
{
    let mut s = String::new();
    push_clock(&mut s, start_secs);
    s.append("   ");
    s.append(chapter_title(title, index).as_str());
    s
}

/// A book chapter's label: its number right-aligned in two places, a dot,
/// two spaces, then its title, `Chapter N` only when the book gives none.
pub fn book_chapter_label(title: Option<&str>, idx: u32) -> (r: String)
    ensures
        r@ == (if idx + 1 < 10 {
            " "@
        } else {
            Seq::empty()
        }) + dec((idx + 1) as nat) + ".  "@ + match title {
            Some(t) => t@,
            None => "Chapter "@ + dec((idx + 1) as nat),
        },
{
    let n = idx as u64 + 1;
    let mut s = String::new();
    if n < 10 {
        s.append(" ");
    }
    push_dec(&mut s, n);
    s.append(".  ");
    match title {
        Some(t) => s.append(t),
        None => {
            s.append("Chapter ");
            push_dec(&mut s, n);
        },
    }
    s
}

/// A leaf row's duration, `m:ss` of the duration rounded to the nearest
/// second (minutes are not rolled into hours); empty when the duration is
/// unknown or not positive (`rounded` is then absent).
pub fn track_duration_text(rounded: Option<u64>) -> (r: String)
    ensures
        r@ == match rounded {
            Some(t) => clock(t as nat),
            None => Seq::empty(),
        },
{
    match rounded {
        Some(t) => {
            let mut s = String::new();
            push_clock(&mut s, t);
            s
        },
        None => String::new(),
    }
}

// --- Book row (an audiobook shelf entry) ---

/// A book's derived listening state.
#[derive(Debug, Clone, Copy, PartialEq, Eq, Structural)]
pub enum BookState {
    New,
    InProgress,
    Finished,
}

/// An audiobook shelf entry.
#[derive(Debug, Clone)]
pub struct BookRow {
    pub id: i64,
    pub title: String,
    pub subtitle: Option<String>,
    pub author_display: Option<String>,
    pub narrator_display: Option<String>,
    pub series_name: Option<String>,
    /// The series sequence, already rendered minimally (`1`, `1.5`).
    pub series_sequence: Option<String>,
    pub year: Option<i32>,
    pub cover_path: Option<String>,
    pub accent_rgb: Option<u32>,
    pub starred: bool,
    pub rating: u8,
    pub state: BookState,
}

/// "Series #1.5" / "Series" / empty.
pub open spec fn series_label(name: Option<String>, sequence: Option<String>) -> Seq<char> {
    match name {
        Some(s) => match sequence {
            Some(n) => s@ + " #"@ + n@,
            None => s@,
        },
        None => Seq::empty(),
    }
}

/// The present parts of a book's meta line: author, "Read by" narrator,
/// series, year.
pub open spec fn meta_parts(b: BookRow) -> Seq<Seq<char>> {
    let author = or_empty(b.author_display);
    let narrator = or_empty(b.narrator_display);
    let series = series_label(b.series_name, b.series_sequence);
    (if author.len() > 0 {
        seq![author]
    } else {
        Seq::empty()
    }) + (if narrator.len() > 0 {
        seq!["Read by "@ + narrator]
    } else {
        Seq::empty()
    }) + (if series.len() > 0 {
        seq![series]
    } else {
        Seq::empty()
    }) + match b.year {
        Some(y) => seq![dec_int(y as int)],
        None => Seq::empty(),
    }
}

impl BookRow {
    pub fn id(&self) -> (r: i64)
        ensures
            r == self.id,
    {
        self.id
    }

    pub fn title(&self) -> (r: String)
        ensures
            r@ == self.title@,
    {
        self.title.clone()
    }

    pub fn subtitle(&self) -> (r: Option<String>)
        ensures
            r == self.subtitle,
    {
        copy_opt(&self.subtitle)
    }

    /// The author credit, or empty.
    pub fn author_display(&self) -> (r: String)
        ensures
            r@ == or_empty(self.author_display),
    {
        text_or_empty(&self.author_display)
    }

    /// The narrator credit, or empty.
    pub fn narrator_display(&self) -> (r: String)
        ensures
            r@ == or_empty(self.narrator_display),
    {
        text_or_empty(&self.narrator_display)
    }

    /// "Series #1.5" / "Series" / empty.
    pub fn series_text(&self) -> (r: String)
        ensures
            r@ == series_label(self.series_name, self.series_sequence),
    {
        match &self.series_name {
            Some(s) => match &self.series_sequence {
                Some(n) => {
                    let mut t = s.clone();
                    t.append(" #");
                    t.append(n.as_str());
                    t
                },
                None => s.clone(),
            },
            None => String::new(),
        }
    }

    pub fn year(&self) -> (r: Option<i32>)
        ensures
            r == self.year,
    {
        self.year
    }

    /// The cover file, relative to the library root, if any.
    pub fn cover_path(&self) -> (r: Option<String>)
        ensures
            r == self.cover_path,
    {
        copy_opt(&self.cover_path)
    }

    /// The packed accent (`0x00RRGGBB`), if a cover gave one.
    pub fn accent_rgb(&self) -> (r: Option<u32>)
        ensures
            r == self.accent_rgb,
    {
        self.accent_rgb
    }

    pub fn starred(&self) -> (r: bool)
        ensures
            r == self.starred,
    {
        self.starred
    }

    pub fn rating(&self) -> (r: u8)
        ensures
            r == self.rating,
    {
        self.rating
    }

    /// A human label for the derived state.
    pub fn state_label(&self) -> (r: &'static str)
        ensures
            r@ == match self.state {
                BookState::New => "New"@,
                BookState::InProgress => "In progress"@,
                BookState::Finished => "Finished"@,
            },
    {
        match self.state {
            BookState::New => "New",
            BookState::InProgress => "In progress",
            BookState::Finished => "Finished",
        }
    }

    /// A one-line meta string for the detail/grid subtitle: author, then
    /// narrator ("Read by …"), then series, then year, the present parts
    /// joined by " · ".
    pub fn meta_line(&self) -> (r: String)
        ensures
            r@ == join(meta_parts(*self), " · "@),
    {
        let mut parts: Vec<String> = Vec::new();
        let author = self.author_display();
        if !author.as_str().is_empty() {
            parts.push(author);
        }
        let narrator = self.narrator_display();
        if !narrator.as_str().is_empty() {
            let mut t = String::from_str("Read by ");
            t.append(narrator.as_str());
            parts.push(t);
        }
        let series = self.series_text();
        if !series.as_str().is_empty() {
            parts.push(series);
        }
        if let Some(y) = self.year {
            let mut t = String::new();
            push_int(&mut t, y as i64);
            parts.push(t);
        }
        assert(views(parts@) =~= meta_parts(*self));
        join_strings(&parts, " · ")
    }
}

/// What an empty audiobook shelf says, as its icon, title and description:
/// a filtered miss says so; a fresh library points at the import command.
pub fn shelf_empty_copy(query: &str) -> (r: (&'static str, &'static str, &'static str))
    ensures
        r == (if trimmed(query@).len() > 0 {
            ("system-search-symbolic", "No matches", "No books match the current filter.")
        } else {
            (
                "audio-x-generic-symbolic",
                "No audiobooks yet",
                "Import a book from a terminal to start your shelf:\nconservatory-cli audiobook import <library.db> <book folder> <library root>",
            )
        }),
{
    if !trim_text(query).as_str().is_empty() {
        ("system-search-symbolic", "No matches", "No books match the current filter.")
    } else {
        (
            "audio-x-generic-symbolic",
            "No audiobooks yet",
            "Import a book from a terminal to start your shelf:\nconservatory-cli audiobook import <library.db> <book folder> <library root>",
        )
    }
}

} // verus!
