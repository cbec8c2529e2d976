//! Metadata field projections: the `(label, value)` rows the track
//! properties inspector renders, and the helpers they are built from.
use vstd::prelude::*;
use vstd::string::StringExecFns;

use crate::objects::{copy_opt, date_of, text_or_empty, utc_ymd};
use crate::playqueue::fmt_secs;
use crate::text::{clock, dec, dec_int, dec_text, int_text, push_char, same_text};

verus! {

/// A `(label, value)` row as character sequences.
pub open spec fn row_view(r: (String, String)) -> (Seq<char>, Seq<char>) {
    (r.0@, r.1@)
}

/// The character views of a list of rows.
pub open spec fn rows_view(rows: Seq<(String, String)>) -> Seq<(Seq<char>, Seq<char>)> {
    rows.map_values(|r: (String, String)| row_view(r))
}

/// The labels whose values read better in a monospace face: paths and
/// opaque ids.
pub open spec fn tech_label(label: Seq<char>) -> bool {
    ||| label == "Location"@
    ||| label == "File"@
    ||| label == "MB recording"@
    ||| label == "MB release"@
}

/// Whether a projected row holds a filesystem path or an opaque id, i.e. a
/// value that reads better in a monospace face.
pub fn is_tech_field(label: &str) -> (r: bool)
    ensures
        r == tech_label(label@),
{
    same_text(label, "Location") || same_text(label, "File") || same_text(label, "MB recording")
        || same_text(label, "MB release")
}

/// Push a non-empty `(label, value)` onto `out`; empty values are skipped so
/// absent fields do not render blank rows.
pub fn push(out: &mut Vec<(String, String)>, label: &str, value: String)
    ensures
        rows_view(final(out)@) == rows_view(old(out)@) + (if value@.len() > 0 {
            seq![(label@, value@)]
        } else {
            Seq::empty()
        }),
{
    if !value.as_str().is_empty() {
        out.push((String::from_str(label), value));
    }
    assert(rows_view(final(out)@) =~= rows_view(old(out)@) + (if value@.len() > 0 {
        seq![(label@, value@)]
    } else {
        Seq::empty()
    }));
}

/// An optional string as an optional character sequence.
pub open spec fn opt_view(v: Option<String>) -> Option<Seq<char>> {
    match v {
        Some(s) => Some(s@),
        None => None,
    }
}

/// The value a selection shares: the common value when every entry agrees
/// (absent when they agree on absence), `"multiple values"` when they
/// differ, absent for an empty selection.
pub open spec fn shared_value(values: Seq<Option<Seq<char>>>) -> Option<Seq<char>> {
    if values.len() == 0 {
        None
    } else if forall|i: int| 0 <= i < values.len() ==> #[trigger] values[i] == values[0] {
        values[0]
    } else {
        Some("multiple values"@)
    }
}

fn same_opt(a: &Option<String>, b: &Option<String>) -> (r: bool)
    ensures
        r == (opt_view(*a) == opt_view(*b)),
{
    match (a, b) {
        (Some(x), Some(y)) => same_text(x.as_str(), y.as_str()),
        (None, None) => true,
        _ => false,
    }
}

/// The shared value across a selection, or `"multiple values"` when they
/// differ. All-absent agrees on absence (the caller skips the row); mixed
/// absent/present is a difference.
pub fn commons(values: Vec<Option<String>>) -> (r: Option<String>)
    ensures
        opt_view(r) == shared_value(values@.map_values(|v: Option<String>| opt_view(v))),
{
    let ghost vs = values@.map_values(|v: Option<String>| opt_view(v));
    let n = values.len();
    if n == 0 {
        return None;
    }
    let mut i: usize = 1;
    while i < n
        invariant
            n == values@.len(),
            1 <= i <= n,
            vs == values@.map_values(|v: Option<String>| opt_view(v)),
            forall|j: int| 0 <= j < i ==> #[trigger] vs[j] == vs[0],
        decreases n - i,
    {
        if !same_opt(&values[i], &values[0]) {
            assert(vs[i as int] != vs[0]);
            return Some(String::from_str("multiple values"));
        }
        i += 1;
    }
    let mut values = values;
    let first = values.swap_remove(0);
    first
}

/// One credit of a track: its role token and the credited name.
#[derive(Debug, Clone)]
pub struct CreditRow {
    pub role: String,
    pub name: String,
}

/// The credits grouped by role: consecutive credits of the same role
/// collapse into one row whose names are joined by `, `, in read order.
pub open spec fn credit_groups(cs: Seq<(Seq<char>, Seq<char>)>) -> Seq<(Seq<char>, Seq<char>)>
    decreases cs.len(),
{
    if cs.len() == 0 {
        Seq::empty()
    } else {
        let r = credit_groups(cs.drop_last());
        let c = cs.last();
        if r.len() > 0 && r.last().0 == c.0 {
            r.update(r.len() - 1, (c.0, r.last().1 + ", "@ + c.1))
        } else {
            r.push(c)
        }
    }
}

/// The credit rows as `(role, name)` character sequences.
pub open spec fn credits_view(cs: Seq<CreditRow>) -> Seq<(Seq<char>, Seq<char>)> {
    cs.map_values(|c: CreditRow| (c.role@, c.name@))
}

/// The credits section of the inspector: one row per role run, names joined
/// in the read's role-then-sort order. Empty when the track has none.
pub fn credit_fields(credits: &[CreditRow]) -> (r: Vec<(String, String)>)
    ensures
        rows_view(r@) == credit_groups(credits_view(credits@)),
{
    let ghost cv = credits_view(credits@);
    let mut out: Vec<(String, String)> = Vec::new();
    let mut role = String::new();
    let mut names = String::new();
    let mut open = false;
    let n = credits.len();
    let mut i: usize = 0;
    while i < n
        invariant
            n == credits@.len(),
            i <= n,
            cv == credits_view(credits@),
            open <==> i > 0,
            open ==> rows_view(out@).push((role@, names@)) == credit_groups(cv.take(i as int)),
            !open ==> out@.len() == 0,
        decreases n - i,
    {
        let c = &credits[i];
        assert(cv.take(i + 1).drop_last() =~= cv.take(i as int));
        assert(cv.take(i + 1).last() == (c.role@, c.name@));
        let ghost prev = credit_groups(cv.take(i as int));
        let ghost out0 = rows_view(out@);
        let ghost names0 = names@;
        if open && role == c.role {
            names.append(", ");
            names.append(c.name.as_str());
            proof {
                assert(prev == out0.push((role@, names0)));
                assert(prev.last() == (role@, names0));
                assert(rows_view(out@).push((role@, names@)) =~= prev.update(
                    prev.len() - 1,
                    (c.role@, prev.last().1 + ", "@ + c.name@),
                ));
            }
        } else {
            if open {
                let done = (role, names);
                out.push(done);
                proof {
                    assert(rows_view(out@) =~= out0.push(row_view(done)));
                }
            }
            role = c.role.clone();
            names = c.name.clone();
            open = true;
            proof {
                assert(rows_view(out@) =~= prev);
            }
        }
        assert(rows_view(out@).push((role@, names@)) =~= credit_groups(cv.take(i + 1)));
        i += 1;
    }
    if open {
        out.push((role, names));
    }
    assert(cv.take(n as int) =~= cv);
    assert(rows_view(out@) =~= credit_groups(cv));
    out
}


// --- The track properties inspector ---

/// A track as the properties inspector reads it.
#[derive(Debug, Clone)]
pub struct TrackInfo {
    pub title: String,
    pub track_no: Option<i64>,
    pub disc_no: Option<i64>,
    /// The duration in whole seconds (truncated, negatives as 0), when known.
    pub duration_secs: Option<u64>,
    pub format: Option<String>,
    /// Bits per second.
    pub bitrate: Option<i64>,
    /// Samples per second.
    pub sample_rate: Option<i64>,
    /// The sample rate in kHz to one decimal place (`44.1`).
    pub sample_rate_khz: String,
    /// The track gain in dB, signed, to two decimal places (`-6.50`).
    pub replaygain_track: Option<String>,
    /// The album gain in dB, signed, to two decimal places.
    pub replaygain_album: Option<String>,
    /// Stars, 0 for unrated.
    pub rating: u8,
    pub play_count: u32,
    /// When it was last played, in seconds since the Unix epoch.
    pub last_played: Option<i64>,
    /// When it was added, in seconds since the Unix epoch.
    pub added_at: Option<i64>,
    /// The file's path relative to the library root.
    pub file_path: String,
    pub musicbrainz_recording_id: Option<String>,
}

/// The album context of a track as the inspector reads it.
#[derive(Debug, Clone)]
pub struct AlbumInfo {
    pub title: String,
    pub year: Option<i32>,
    pub shelf_genre: Option<String>,
    pub musicbrainz_release_id: Option<String>,
    pub cover_path: Option<String>,
}

/// `rows` with `(label, value)` appended, unless the value is empty.
pub open spec fn with_row(
    rows: Seq<(Seq<char>, Seq<char>)>,
    label: Seq<char>,
    value: Seq<char>,
) -> Seq<(Seq<char>, Seq<char>)> {
    rows + (if value.len() > 0 {
        seq![(label, value)]
    } else {
        Seq::empty()
    })
}

/// An optional text's characters, or nothing.
pub open spec fn str_or_empty(v: Option<&str>) -> Seq<char> {
    match v {
        Some(s) => s@,
        None => Seq::empty(),
    }
}

/// An optional character sequence, or nothing.
pub open spec fn seq_or_empty(v: Option<Seq<char>>) -> Seq<char> {
    match v {
        Some(s) => s,
        None => Seq::empty(),
    }
}

/// `n` stars.
pub open spec fn stars(n: nat) -> Seq<char> {
    Seq::new(n, |i: int| '\u{2605}')
}

/// The name of the final component of a path (`std::path::Path::file_name`,
/// read losslessly as text); absent when the path ends in `..` or has no
/// component.
pub uninterp spec fn path_file_name(path: Seq<char>) -> Option<Seq<char>>;

/// Calls `std::path::Path::new(path).file_name()` and converts the name with
/// `to_string_lossy`. Its result is named by [`path_file_name`] of the path:
/// a function of the path's text alone on a given target. On Unix targets `/`
/// separates components; on Windows `\` does too. Nothing more is claimed of
/// how the path is split.
#[verifier::external_body]
fn file_name_of(path: &str) -> (r: Option<String>)
    ensures
        opt_view(r) == path_file_name(path@),
{
    match std::path::Path::new(path).file_name() {
        Some(n) => Some(n.to_string_lossy().into_owned()),
        None => None,
    }
}

/// The album title, when there is an album.
pub open spec fn album_cell(album: Option<&AlbumInfo>) -> Option<Seq<char>> {
    match album {
        Some(a) => Some(a.title@),
        None => None,
    }
}

/// The album year, when known.
pub open spec fn year_cell(album: Option<&AlbumInfo>) -> Option<Seq<char>> {
    match album {
        Some(a) => match a.year {
            Some(y) => Some(dec_int(y as int)),
            None => None,
        },
        None => None,
    }
}

/// The album's shelf genre, when known.
pub open spec fn genre_cell(album: Option<&AlbumInfo>) -> Option<Seq<char>> {
    match album {
        Some(a) => opt_view(a.shelf_genre),
        None => None,
    }
}

/// The album's MusicBrainz release id, when known.
pub open spec fn release_cell(album: Option<&AlbumInfo>) -> Option<Seq<char>> {
    match album {
        Some(a) => opt_view(a.musicbrainz_release_id),
        None => None,
    }
}

/// The file name of the album's cover, when it has one.
pub open spec fn cover_cell(album: Option<&AlbumInfo>) -> Option<Seq<char>> {
    match album {
        Some(a) => match a.cover_path {
            Some(p) => path_file_name(p@),
            None => None,
        },
        None => None,
    }
}

/// `N kbps` of a known, positive bitrate.
pub open spec fn bitrate_cell(t: &TrackInfo) -> Option<Seq<char>> {
    match t.bitrate {
        Some(b) => if b > 0 {
            Some(dec((b / 1000) as nat) + " kbps"@)
        } else {
            None
        },
        None => None,
    }
}

/// `N.N kHz` of a known, positive sample rate.
pub open spec fn sample_rate_cell(t: &TrackInfo) -> Option<Seq<char>> {
    match t.sample_rate {
        Some(r) => if r > 0 {
            Some(t.sample_rate_khz@ + " kHz"@)
        } else {
            None
        },
        None => None,
    }
}

/// The ReplayGain readout: the track and album gains that are known.
pub open spec fn gain_cell(t: &TrackInfo) -> Option<Seq<char>> {
    match (t.replaygain_track, t.replaygain_album) {
        (Some(a), Some(b)) => Some(a@ + " dB track / "@ + b@ + " dB album"@),
        (Some(a), None) => Some(a@ + " dB track"@),
        (None, Some(b)) => Some(b@ + " dB album"@),
        (None, None) => None,
    }
}

/// The rating as stars, when rated.
pub open spec fn rating_cell(t: &TrackInfo) -> Option<Seq<char>> {
    if t.rating > 0 {
        Some(stars(t.rating as nat))
    } else {
        None
    }
}

/// The UTC calendar date of a known timestamp.
pub open spec fn date_cell(secs: Option<i64>) -> Option<Seq<char>> {
    match secs {
        Some(s) => utc_ymd(s),
        None => None,
    }
}

/// `N (disc D)` or `N`, when the track number is known.
pub open spec fn track_number_text(t: &TrackInfo) -> Seq<char> {
    match (t.track_no, t.disc_no) {
        (Some(n), Some(d)) => dec_int(n as int) + " (disc "@ + dec_int(d as int) + ")"@,
        (Some(n), None) => dec_int(n as int),
        _ => Seq::empty(),
    }
}

/// The property rows of one track: each `(label, value)` in this order,
/// skipping those whose value is empty. The cover row reads `none` when
/// there is no cover file name.
pub open spec fn inspector_rows(
    t: &TrackInfo,
    album: Option<&AlbumInfo>,
    artist: Option<&str>,
    file_size: Option<&str>,
) -> Seq<(Seq<char>, Seq<char>)> {
    let r = with_row(Seq::empty(), "Title"@, t.title@);
    let r = with_row(r, "Artist"@, str_or_empty(artist));
    let r = with_row(r, "Album"@, seq_or_empty(album_cell(album)));
    let r = with_row(r, "Year"@, seq_or_empty(year_cell(album)));
    let r = with_row(r, "Genre"@, seq_or_empty(genre_cell(album)));
    let r = with_row(r, "Track"@, track_number_text(t));
    let r = with_row(
        r,
        "Duration"@,
        match t.duration_secs {
            Some(d) => clock(d as nat),
            None => Seq::empty(),
        },
    );
    let r = with_row(r, "Format"@, seq_or_empty(opt_view(t.format)));
    let r = with_row(r, "Bitrate"@, seq_or_empty(bitrate_cell(t)));
    let r = with_row(r, "Sample rate"@, seq_or_empty(sample_rate_cell(t)));
    let r = with_row(r, "File size"@, str_or_empty(file_size));
    let r = with_row(r, "ReplayGain"@, seq_or_empty(gain_cell(t)));
    let r = with_row(r, "Rating"@, seq_or_empty(rating_cell(t)));
    let r = with_row(
        r,
        "Plays"@,
        if t.play_count > 0 {
            dec(t.play_count as nat)
        } else {
            Seq::empty()
        },
    );
    let r = with_row(r, "Last played"@, seq_or_empty(date_cell(t.last_played)));
    let r = with_row(r, "Added"@, seq_or_empty(date_cell(t.added_at)));
    let r = with_row(r, "Location"@, t.file_path@);
    let r = with_row(r, "MB recording"@, seq_or_empty(opt_view(t.musicbrainz_recording_id)));
    let r = with_row(r, "MB release"@, seq_or_empty(release_cell(album)));
    with_row(
        r,
        "Cover"@,
        match cover_cell(album) {
            Some(n) => n,
            None => "none"@,
        },
    )
}

proof fn lemma_with_row_keeps(
    r: Seq<(Seq<char>, Seq<char>)>,
    label: Seq<char>,
    value: Seq<char>,
    x: (Seq<char>, Seq<char>),
)
    ensures
        r.contains(x) ==> with_row(r, label, value).contains(x),
        value.len() > 0 ==> with_row(r, label, value).contains((label, value)),
{
    let w = with_row(r, label, value);
    if r.contains(x) {
        let k = choose|k: int| 0 <= k < r.len() && r[k] == x;
        assert(w[k] == x);
    }
    if value.len() > 0 {
        assert(w[r.len() as int] == (label, value));
    }
}

/// With both numbers known, the inspector's Track row reads the track
/// number first and the disc number inside the disc marker: `N (disc D)`.
pub proof fn law_track_row_reads_track_then_disc(
    t: &TrackInfo,
    album: Option<&AlbumInfo>,
    artist: Option<&str>,
    file_size: Option<&str>,
    n: i64,
    d: i64,
)
    requires
        t.track_no == Some(n),
        t.disc_no == Some(d),
    ensures
        inspector_rows(t, album, artist, file_size).contains(
            ("Track"@, dec_int(n as int) + " (disc "@ + dec_int(d as int) + ")"@),
        ),
{
    let v = dec_int(n as int) + " (disc "@ + dec_int(d as int) + ")"@;
    let x = ("Track"@, v);
    assert(v.len() > 0);
    let r = with_row(Seq::empty(), "Title"@, t.title@);
    let r = with_row(r, "Artist"@, str_or_empty(artist));
    let r = with_row(r, "Album"@, seq_or_empty(album_cell(album)));
    let r = with_row(r, "Year"@, seq_or_empty(year_cell(album)));
    let r = with_row(r, "Genre"@, seq_or_empty(genre_cell(album)));
    lemma_with_row_keeps(r, "Track"@, track_number_text(t), x);
    let r = with_row(r, "Track"@, track_number_text(t));
    let dur = match t.duration_secs {
        Some(ds) => clock(ds as nat),
        None => Seq::empty(),
    };
    lemma_with_row_keeps(r, "Duration"@, dur, x);
    let r = with_row(r, "Duration"@, dur);
    lemma_with_row_keeps(r, "Format"@, seq_or_empty(opt_view(t.format)), x);
    let r = with_row(r, "Format"@, seq_or_empty(opt_view(t.format)));
    lemma_with_row_keeps(r, "Bitrate"@, seq_or_empty(bitrate_cell(t)), x);
    let r = with_row(r, "Bitrate"@, seq_or_empty(bitrate_cell(t)));
    lemma_with_row_keeps(r, "Sample rate"@, seq_or_empty(sample_rate_cell(t)), x);
    let r = with_row(r, "Sample rate"@, seq_or_empty(sample_rate_cell(t)));
    lemma_with_row_keeps(r, "File size"@, str_or_empty(file_size), x);
    let r = with_row(r, "File size"@, str_or_empty(file_size));
    lemma_with_row_keeps(r, "ReplayGain"@, seq_or_empty(gain_cell(t)), x);
    let r = with_row(r, "ReplayGain"@, seq_or_empty(gain_cell(t)));
    lemma_with_row_keeps(r, "Rating"@, seq_or_empty(rating_cell(t)), x);
    let r = with_row(r, "Rating"@, seq_or_empty(rating_cell(t)));
    let plays = if t.play_count > 0 {
        dec(t.play_count as nat)
    } else {
        Seq::empty()
    };
    lemma_with_row_keeps(r, "Plays"@, plays, x);
    let r = with_row(r, "Plays"@, plays);
    lemma_with_row_keeps(r, "Last played"@, seq_or_empty(date_cell(t.last_played)), x);
    let r = with_row(r, "Last played"@, seq_or_empty(date_cell(t.last_played)));
    lemma_with_row_keeps(r, "Added"@, seq_or_empty(date_cell(t.added_at)), x);
    let r = with_row(r, "Added"@, seq_or_empty(date_cell(t.added_at)));
    lemma_with_row_keeps(r, "Location"@, t.file_path@, x);
    let r = with_row(r, "Location"@, t.file_path@);
    lemma_with_row_keeps(r, "MB recording"@, seq_or_empty(opt_view(t.musicbrainz_recording_id)), x);
    let r = with_row(r, "MB recording"@, seq_or_empty(opt_view(t.musicbrainz_recording_id)));
    lemma_with_row_keeps(r, "MB release"@, seq_or_empty(release_cell(album)), x);
    let r = with_row(r, "MB release"@, seq_or_empty(release_cell(album)));
    let cover = match cover_cell(album) {
        Some(c) => c,
        None => "none"@,
    };
    lemma_with_row_keeps(r, "Cover"@, cover, x);
}

fn some_text(o: Option<String>) -> (r: String)
    ensures
        r@ == seq_or_empty(opt_view(o)),
{
    match o {
        Some(t) => t,
        None => String::new(),
    }
}

fn str_text(o: Option<&str>) -> (r: String)
    ensures
        r@ == str_or_empty(o),
{
    match o {
        Some(t) => String::from_str(t),
        None => String::new(),
    }
}

fn stars_text(n: u8) -> (r: String)
    ensures
        r@ == stars(n as nat),
{
    let mut s = String::new();
    let mut i: u8 = 0;
    while i < n
        invariant
            i <= n,
            s@ == stars(i as nat),
        decreases n - i,
    {
        push_char(&mut s, '\u{2605}');
        i += 1;
        assert(s@ =~= stars(i as nat));
    }
    s
}

fn album_title(album: Option<&AlbumInfo>) -> (r: Option<String>)
    ensures
        opt_view(r) == album_cell(album),
{
    match album {
        Some(a) => Some(a.title.clone()),
        None => None,
    }
}

fn album_year(album: Option<&AlbumInfo>) -> (r: Option<String>)
    ensures
        opt_view(r) == year_cell(album),
{
    match album {
        Some(a) => match a.year {
            Some(y) => Some(int_text(y as i64)),
            None => None,
        },
        None => None,
    }
}

fn album_genre(album: Option<&AlbumInfo>) -> (r: Option<String>)
    ensures
        opt_view(r) == genre_cell(album),
{
    match album {
        Some(a) => copy_opt(&a.shelf_genre),
        None => None,
    }
}

fn album_release(album: Option<&AlbumInfo>) -> (r: Option<String>)
    ensures
        opt_view(r) == release_cell(album),
{
    match album {
        Some(a) => copy_opt(&a.musicbrainz_release_id),
        None => None,
    }
}

fn album_cover(album: Option<&AlbumInfo>) -> (r: Option<String>)
    ensures
        opt_view(r) == cover_cell(album),
{
    match album {
        Some(a) => match &a.cover_path {
            Some(p) => file_name_of(p.as_str()),
            None => None,
        },
        None => None,
    }
}

fn track_bitrate(t: &TrackInfo) -> (r: Option<String>)
    ensures
        opt_view(r) == bitrate_cell(t),
{
    match t.bitrate {
        Some(b) => if b > 0 {
            let mut s = dec_text((b / 1000) as u64);
            s.append(" kbps");
            Some(s)
        } else {
            None
        },
        None => None,
    }
}

fn track_sample_rate(t: &TrackInfo) -> (r: Option<String>)
    ensures
        opt_view(r) == sample_rate_cell(t),
{
    match t.sample_rate {
        Some(sr) => if sr > 0 {
            let mut s = t.sample_rate_khz.clone();
            s.append(" kHz");
            Some(s)
        } else {
            None
        },
        None => None,
    }
}

fn track_gain(t: &TrackInfo) -> (r: Option<String>)
    ensures
        opt_view(r) == gain_cell(t),
{
    match (&t.replaygain_track, &t.replaygain_album) {
        (Some(a), Some(b)) => {
            let mut s = a.clone();
            s.append(" dB track / ");
            s.append(b.as_str());
            s.append(" dB album");
            Some(s)
        },
        (Some(a), None) => {
            let mut s = a.clone();
            s.append(" dB track");
            Some(s)
        },
        (None, Some(b)) => {
            let mut s = b.clone();
            s.append(" dB album");
            Some(s)
        },
        (None, None) => None,
    }
}

fn track_rating(t: &TrackInfo) -> (r: Option<String>)
    ensures
        opt_view(r) == rating_cell(t),
{
    if t.rating > 0 {
        Some(stars_text(t.rating))
    } else {
        None
    }
}

fn date_text(secs: Option<i64>) -> (r: Option<String>)
    ensures
        opt_view(r) == date_cell(secs),
{
    match secs {
        Some(s) => date_of(s),
        None => None,
    }
}

fn track_number(t: &TrackInfo) -> (r: String)
    ensures
        r@ == track_number_text(t),
{
    match (t.track_no, t.disc_no) {
        (Some(n), Some(d)) => {
            let mut s = int_text(n);
            s.append(" (disc ");
            s.append(int_text(d).as_str());
            s.append(")");
            s
        },
        (Some(n), None) => int_text(n),
        _ => String::new(),
    }
}

/// The property rows for the selected track, with its album context and
/// the resolved artist name; `file_size` is the on-disk size already
/// rendered for display. Rows with no value are left out.
#[verifier::rlimit(40)]
pub fn inspector_fields(
    track: &TrackInfo,
    album: Option<&AlbumInfo>,
    artist: Option<&str>,
    file_size: Option<&str>,
) -> (r: Vec<(String, String)>)
    ensures
        rows_view(r@) == inspector_rows(track, album, artist, file_size),
{
    let t = track;
    let mut out: Vec<(String, String)> = Vec::new();
    push(&mut out, "Title", t.title.clone());
    push(&mut out, "Artist", str_text(artist));
    push(&mut out, "Album", some_text(album_title(album)));
    push(&mut out, "Year", some_text(album_year(album)));
    push(&mut out, "Genre", some_text(album_genre(album)));
    push(&mut out, "Track", track_number(t));
    let duration = match t.duration_secs {
        Some(d) => fmt_secs(d),
        None => String::new(),
    };
    push(&mut out, "Duration", duration);
    push(&mut out, "Format", text_or_empty(&t.format));
    push(&mut out, "Bitrate", some_text(track_bitrate(t)));
    push(&mut out, "Sample rate", some_text(track_sample_rate(t)));
    push(&mut out, "File size", str_text(file_size));
    push(&mut out, "ReplayGain", some_text(track_gain(t)));
    push(&mut out, "Rating", some_text(track_rating(t)));
    let plays = if t.play_count > 0 {
        dec_text(t.play_count as u64)
    } else {
        String::new()
    };
    push(&mut out, "Plays", plays);
    push(&mut out, "Last played", some_text(date_text(t.last_played)));
    push(&mut out, "Added", some_text(date_text(t.added_at)));
    push(&mut out, "Location", t.file_path.clone());
    push(&mut out, "MB recording", text_or_empty(&t.musicbrainz_recording_id));
    push(&mut out, "MB release", some_text(album_release(album)));
    let cover = match album_cover(album) {
        Some(n) => n,
        None => String::from_str("none"),
    };
    push(&mut out, "Cover", cover);
    out
}


/// One row of a multi-selection: the track, its album and its resolved
/// artist name.
pub type Selected<'a> = (&'a TrackInfo, Option<&'a AlbumInfo>, Option<&'a str>);

/// The fields the aggregate inspector collapses across a selection.
#[derive(Debug, Clone, Copy, PartialEq, Eq, Structural)]
pub enum Column {
    Artist,
    Album,
    Year,
    Genre,
    Format,
    Bitrate,
    SampleRate,
    ReplayGain,
    Rating,
    LastPlayed,
    Added,
    Cover,
}

/// The value one selected row shows in a column, when it has one.
pub open spec fn cell(row: Selected, k: Column) -> Option<Seq<char>> {
    match k {
        Column::Artist => match row.2 {
            Some(a) => Some(a@),
            None => None,
        },
        Column::Album => album_cell(row.1),
        Column::Year => year_cell(row.1),
        Column::Genre => genre_cell(row.1),
        Column::Format => opt_view(row.0.format),
        Column::Bitrate => bitrate_cell(row.0),
        Column::SampleRate => sample_rate_cell(row.0),
        Column::ReplayGain => gain_cell(row.0),
        Column::Rating => rating_cell(row.0),
        Column::LastPlayed => date_cell(row.0.last_played),
        Column::Added => date_cell(row.0.added_at),
        Column::Cover => cover_cell(row.1),
    }
}

/// A column's values down a selection, in order.
pub open spec fn column(rows: Seq<Selected>, k: Column) -> Seq<Option<Seq<char>>> {
    rows.map_values(|x: Selected| cell(x, k))
}

/// What a selection shows in a column: the shared value, `multiple values`
/// when the rows differ, nothing when none has one.
pub open spec fn shown(rows: Seq<Selected>, k: Column) -> Seq<char> {
    seq_or_empty(shared_value(column(rows, k)))
}

/// The summed play counts of a selection.
pub open spec fn total_plays(rows: Seq<Selected>) -> nat
    decreases rows.len(),
{
    if rows.len() == 0 {
        0
    } else {
        total_plays(rows.drop_last()) + (rows.last().0.play_count as nat)
    }
}

/// The aggregate property rows over a multi-selection: shared values (or
/// `multiple values`), and sums for duration, file size and plays; per-track
/// identity (title, numbers, location) is left out. Rows with no value are
/// skipped.
pub open spec fn aggregate_rows(
    rows: Seq<Selected>,
    total_duration: Option<u64>,
    total_size: Option<&str>,
) -> Seq<
    (Seq<char>, Seq<char>),
> {
    let r = with_row(Seq::empty(), "Artist"@, shown(rows, Column::Artist));
    let r = with_row(r, "Album"@, shown(rows, Column::Album));
    let r = with_row(r, "Year"@, shown(rows, Column::Year));
    let r = with_row(r, "Genre"@, shown(rows, Column::Genre));
    let r = with_row(
        r,
        "Duration"@,
        match total_duration {
            Some(t) => clock(t as nat),
            None => Seq::empty(),
        },
    );
    let r = with_row(r, "Format"@, shown(rows, Column::Format));
    let r = with_row(r, "Bitrate"@, shown(rows, Column::Bitrate));
    let r = with_row(r, "Sample rate"@, shown(rows, Column::SampleRate));
    let r = with_row(r, "File size"@, str_or_empty(total_size));
    let r = with_row(r, "ReplayGain"@, shown(rows, Column::ReplayGain));
    let r = with_row(r, "Rating"@, shown(rows, Column::Rating));
    let r = with_row(
        r,
        "Plays"@,
        if total_plays(rows) > 0 {
            dec(total_plays(rows))
        } else {
            Seq::empty()
        },
    );
    let r = with_row(r, "Last played"@, shown(rows, Column::LastPlayed));
    let r = with_row(r, "Added"@, shown(rows, Column::Added));
    with_row(r, "Cover"@, shown(rows, Column::Cover))
}

fn cell_of(row: &Selected, k: Column) -> (r: Option<String>)
    ensures
        opt_view(r) == cell(*row, k),
{
    match k {
        Column::Artist => match row.2 {
            Some(a) => Some(String::from_str(a)),
            None => None,
        },
        Column::Album => album_title(row.1),
        Column::Year => album_year(row.1),
        Column::Genre => album_genre(row.1),
        Column::Format => copy_opt(&row.0.format),
        Column::Bitrate => track_bitrate(row.0),
        Column::SampleRate => track_sample_rate(row.0),
        Column::ReplayGain => track_gain(row.0),
        Column::Rating => track_rating(row.0),
        Column::LastPlayed => date_text(row.0.last_played),
        Column::Added => date_text(row.0.added_at),
        Column::Cover => album_cover(row.1),
    }
}

fn shown_text(rows: &[Selected], k: Column) -> (r: String)
    ensures
        r@ == shown(rows@, k),
{
    let mut vals: Vec<Option<String>> = Vec::new();
    let n = rows.len();
    let mut i: usize = 0;
    while i < n
        invariant
            n == rows@.len(),
            i <= n,
            vals@.map_values(|v: Option<String>| opt_view(v)) == column(rows@.take(i as int), k),
        decreases n - i,
    {
        let v = cell_of(&rows[i], k);
        let ghost before = vals@;
        let ghost gv = opt_view(v);
        vals.push(v);
        assert(vals@ == before.push(v));
        assert(column(rows@.take(i + 1), k) =~= column(rows@.take(i as int), k).push(gv));
        assert(vals@.map_values(|v: Option<String>| opt_view(v)) =~= before.map_values(
            |v: Option<String>| opt_view(v),
        ).push(gv));
        i += 1;
    }
    assert(rows@.take(n as int) =~= rows@);
    some_text(commons(vals))
}

proof fn lemma_total_plays_prefix(rows: Seq<Selected>, k: int)
    requires
        0 <= k <= rows.len(),
    ensures
        total_plays(rows.take(k)) <= total_plays(rows),
    decreases rows.len(),
{
    if k < rows.len() {
        assert(rows.drop_last().take(k) =~= rows.take(k));
        lemma_total_plays_prefix(rows.drop_last(), k);
    } else {
        assert(rows.take(k) =~= rows);
    }
}

fn sum_plays(rows: &[Selected]) -> (r: u32)
    requires
        total_plays(rows@) <= u32::MAX,
    ensures
        r == total_plays(rows@),
{
    let n = rows.len();
    let mut total: u32 = 0;
    let mut i: usize = 0;
    while i < n
        invariant
            n == rows@.len(),
            i <= n,
            total == total_plays(rows@.take(i as int)),
            total_plays(rows@) <= u32::MAX,
        decreases n - i,
    {
        assert(rows@.take(i + 1).drop_last() =~= rows@.take(i as int));
        proof {
            lemma_total_plays_prefix(rows@, i + 1);
        }
        total = total + rows[i].0.play_count;
        i += 1;
    }
    assert(rows@.take(n as int) =~= rows@);
    total
}

/// The aggregate property rows over a multi-selection: the shared value of
/// each field, or `multiple values` where the rows differ, with sums only
/// where a sum is meaningful (duration, file size, plays). Per-track
/// identity (title, track and disc numbers, location) does not aggregate and
/// is left out. `total_duration` is the selection's summed duration in
/// whole seconds (the sum truncated), absent when the sum is not positive;
/// `total_size` is the summed on-disk size already rendered for display.
#[verifier::rlimit(40)]
pub fn inspector_aggregate(
    rows: &[Selected],
    total_duration: Option<u64>,
    total_size: Option<&str>,
) -> (r: Vec<
    (String, String),
>)
    requires
        total_plays(rows@) <= u32::MAX,
    ensures
        rows_view(r@) == aggregate_rows(rows@, total_duration, total_size),
{
    let mut out: Vec<(String, String)> = Vec::new();
    push(&mut out, "Artist", shown_text(rows, Column::Artist));
    push(&mut out, "Album", shown_text(rows, Column::Album));
    push(&mut out, "Year", shown_text(rows, Column::Year));
    push(&mut out, "Genre", shown_text(rows, Column::Genre));
    let duration = match total_duration {
        Some(t) => fmt_secs(t),
        None => String::new(),
    };
    push(&mut out, "Duration", duration);
    push(&mut out, "Format", shown_text(rows, Column::Format));
    push(&mut out, "Bitrate", shown_text(rows, Column::Bitrate));
    push(&mut out, "Sample rate", shown_text(rows, Column::SampleRate));
    push(&mut out, "File size", str_text(total_size));
    push(&mut out, "ReplayGain", shown_text(rows, Column::ReplayGain));
    push(&mut out, "Rating", shown_text(rows, Column::Rating));
    let plays = sum_plays(rows);
    let plays_text = if plays > 0 {
        dec_text(plays as u64)
    } else {
        String::new()
    };
    push(&mut out, "Plays", plays_text);
    push(&mut out, "Last played", shown_text(rows, Column::LastPlayed));
    push(&mut out, "Added", shown_text(rows, Column::Added));
    push(&mut out, "Cover", shown_text(rows, Column::Cover));
    out
}

} // verus!
