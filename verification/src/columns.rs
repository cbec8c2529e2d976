//! The browse leaf's column catalog: what each `[browse].columns` token
//! builds. The widget code turns a spec into a column; an unknown token is
//! skipped.
use vstd::prelude::*;

use crate::text::same_text;

verus! {

/// What a column shows.
#[derive(Debug, Clone, Copy, PartialEq, Eq, Structural)]
pub enum ColumnKind {
    /// The album cover thumbnail.
    Cover,
    /// The play-status glyph.
    Glyph,
    /// A text field of the track.
    Text,
    /// The star rating.
    Rating,
}

/// How a column's text is aligned.
#[derive(Debug, Clone, Copy, PartialEq, Eq, Structural)]
pub enum Align {
    Start,
    End,
}

/// The track field a column sorts by.
#[derive(Debug, Clone, Copy, PartialEq, Eq, Structural)]
pub enum SortBy {
    Artist,
    Album,
    Genre,
    Title,
    Duration,
    Year,
    TrackNo,
    Format,
    Bitrate,
    PlayCount,
    Added,
    LastPlayed,
    Rating,
}

/// A leaf column: its kind, header title, whether it takes spare width,
/// its text alignment, whether its text is monospace, the edit key of an
/// inline-editable column, its sort field, whether the user can resize it,
/// and its fixed width in pixels.
#[derive(Debug, Clone, Copy)]
pub struct ColumnSpec {
    pub kind: ColumnKind,
    pub title: &'static str,
    pub expand: bool,
    pub align: Align,
    pub mono: bool,
    pub edit_key: Option<&'static str>,
    pub sort: Option<SortBy>,
    pub resizable: bool,
    pub width: Option<u32>,
}

/// An expanding, editable text column.
pub open spec fn wide_text(title: &'static str, key: &'static str, sort: SortBy) -> ColumnSpec {
    ColumnSpec {
        kind: ColumnKind::Text,
        title,
        expand: true,
        align: Align::Start,
        mono: false,
        edit_key: Some(key),
        sort: Some(sort),
        resizable: true,
        width: None,
    }
}

/// A fixed-width, monospace, read-only text column.
pub open spec fn narrow_text(title: &'static str, align: Align, sort: SortBy, width: u32) -> ColumnSpec {
    ColumnSpec {
        kind: ColumnKind::Text,
        title,
        expand: false,
        align,
        mono: true,
        edit_key: None,
        sort: Some(sort),
        resizable: true,
        width: Some(width),
    }
}

/// A column with no text: the cover, the glyph or the rating.
pub open spec fn plain(kind: ColumnKind, title: &'static str, sort: Option<SortBy>, width: u32) -> ColumnSpec {
    ColumnSpec {
        kind,
        title,
        expand: false,
        align: Align::Start,
        mono: false,
        edit_key: None,
        sort,
        resizable: false,
        width: Some(width),
    }
}

/// The column a catalog token builds, if the token is known.
pub open spec fn column_for(id: Seq<char>) -> Option<ColumnSpec> {
    if id == "cover"@ {
        Some(plain(ColumnKind::Cover, "", None, 32))
    } else if id == "glyph"@ {
        Some(plain(ColumnKind::Glyph, "", None, 28))
    } else if id == "artist"@ {
        Some(wide_text("Artist", "artist", SortBy::Artist))
    } else if id == "album"@ {
        Some(wide_text("Album", "album", SortBy::Album))
    } else if id == "genre"@ {
        Some(wide_text("Genre", "genre", SortBy::Genre))
    } else if id == "title"@ {
        Some(wide_text("Title", "title", SortBy::Title))
    } else if id == "duration"@ {
        Some(narrow_text("Duration", Align::End, SortBy::Duration, 80))
    } else if id == "year"@ {
        Some(narrow_text("Year", Align::End, SortBy::Year, 64))
    } else if id == "trackno"@ {
        Some(narrow_text("#", Align::End, SortBy::TrackNo, 48))
    } else if id == "format"@ {
        Some(narrow_text("Format", Align::Start, SortBy::Format, 72))
    } else if id == "bitrate"@ {
        Some(narrow_text("Bitrate", Align::End, SortBy::Bitrate, 72))
    } else if id == "playcount"@ {
        Some(narrow_text("Plays", Align::End, SortBy::PlayCount, 64))
    } else if id == "added"@ {
        Some(narrow_text("Added", Align::Start, SortBy::Added, 108))
    } else if id == "lastplayed"@ {
        Some(narrow_text("Last Played", Align::Start, SortBy::LastPlayed, 108))
    } else if id == "rating"@ {
        Some(plain(ColumnKind::Rating, "Rating", Some(SortBy::Rating), 96))
    } else {
        None
    }
}

/// The column spec for a catalog token, or `None` for an unknown token
/// (skipped, so a stale config never breaks the leaf). The numeric and date
/// columns are fixed-width and monospace; artist, album, genre and title
/// expand and edit inline.
pub fn column_spec(id: &str) -> (r: Option<ColumnSpec>)
    ensures
        r == column_for(id@),
{
    if same_text(id, "cover") {
        Some(ColumnSpec { kind: ColumnKind::Cover, title: "", expand: false, align: Align::Start, mono: false, edit_key: None, sort: None, resizable: false, width: Some(32) })
    } else if same_text(id, "glyph") {
        Some(ColumnSpec { kind: ColumnKind::Glyph, title: "", expand: false, align: Align::Start, mono: false, edit_key: None, sort: None, resizable: false, width: Some(28) })
    } else if same_text(id, "artist") {
        Some(wide("Artist", "artist", SortBy::Artist))
    } else if same_text(id, "album") {
        Some(wide("Album", "album", SortBy::Album))
    } else if same_text(id, "genre") {
        Some(wide("Genre", "genre", SortBy::Genre))
    } else if same_text(id, "title") {
        Some(wide("Title", "title", SortBy::Title))
    } else if same_text(id, "duration") {
        Some(narrow("Duration", Align::End, SortBy::Duration, 80))
    } else if same_text(id, "year") {
        Some(narrow("Year", Align::End, SortBy::Year, 64))
    } else if same_text(id, "trackno") {
        Some(narrow("#", Align::End, SortBy::TrackNo, 48))
    } else if same_text(id, "format") {
        Some(narrow("Format", Align::Start, SortBy::Format, 72))
    } else if same_text(id, "bitrate") {
        Some(narrow("Bitrate", Align::End, SortBy::Bitrate, 72))
    } else if same_text(id, "playcount") {
        Some(narrow("Plays", Align::End, SortBy::PlayCount, 64))
    } else if same_text(id, "added") {
        Some(narrow("Added", Align::Start, SortBy::Added, 108))
    } else if same_text(id, "lastplayed") {
        Some(narrow("Last Played", Align::Start, SortBy::LastPlayed, 108))
    } else if same_text(id, "rating") {
        Some(ColumnSpec { kind: ColumnKind::Rating, title: "Rating", expand: false, align: Align::Start, mono: false, edit_key: None, sort: Some(SortBy::Rating), resizable: false, width: Some(96) })
    } else {
        None
    }
}

fn wide(title: &'static str, key: &'static str, sort: SortBy) -> (r: ColumnSpec)
    ensures
        r == wide_text(title, key, sort),
{
    ColumnSpec { kind: ColumnKind::Text, title, expand: true, align: Align::Start, mono: false, edit_key: Some(key), sort: Some(sort), resizable: true, width: None }
}

fn narrow(title: &'static str, align: Align, sort: SortBy, width: u32) -> (r: ColumnSpec)
    ensures
        r == narrow_text(title, align, sort, width),
{
    ColumnSpec { kind: ColumnKind::Text, title, expand: false, align, mono: true, edit_key: None, sort: Some(sort), resizable: true, width: Some(width) }
}

} // verus!
