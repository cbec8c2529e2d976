//! The owned application stylesheet: the app-owned remainder over the shared
//! base sheet, carrying only what Conservatory deliberately does differently.
//! The look is flat, square, hard 1px borders, denser spacing than the GNOME
//! HIG; custom properties are deliberately not used (one fixed palette), so
//! the hexes are spliced into the template by token replacement instead.
//!
//! Deliberate exceptions to "flat" live here: the lifted album/book cover
//! cards keep their radius and drop shadow, a selected row lifts with an
//! accent edge, and a checked button is lit (lift + accent text + underline),
//! not painted. Typography: exactly three `font-family` rules (Inter body,
//! Fraunces headers, IBM Plex Mono technical).
use vstd::prelude::*;
use vstd::string::StringExecFns;

use crate::text::chars_of;

verus! {

/// The app-owned remainder. `%TOKEN%`s are replaced with the palette's hexes
/// by [`sheet`]; no other substitution happens, so plain CSS braces are safe.
pub const TEMPLATE: &'static str = "\
/* --- Conservatory overrides over the base sheet --- */
/* A selected row LIFTS and gets an accent edge; it is not washed in red.
   alpha(dragonRed, 0.35) over the dark view reads as maroon, and because a
   selection persists (the facet panes always have an [All] row selected, the
   podcast triage always has a list selected) that wash was permanent chrome
   rather than a highlight. The 2px inset edge keeps the accent as a signature
   and reads better against the Columns-UI density this browse surface copies. */
row:selected { background-color: %BG_RAISED%; color: %FG%; box-shadow: inset 2px 0 0 %ACCENT%; }
.navigation-sidebar { background-color: %BG_VIEW%; }
.navigation-sidebar > row { padding: 4px 8px; border-radius: 0; }
columnview > header { background-color: %BG_VIEW%; border-bottom: 1px solid %GRID%; }
/* A checked button is LIT, not PAINTED. dragonRed is a syntax accent: spread
   across a persistent surface like the Music/Podcasts/Audiobooks tab bar it
   stops reading as Kanagawa and starts reading as a pink highlighter, and
   docs/theme.md is explicit that the accent tints highlights only and does not
   recolour the window. So the surface lifts to dragonBlack4 and the accent
   arrives as text plus a 2px underline, which is far more legible about which
   tab is active than a slab of colour was. */
button:active { background-color: %BG_RAISED%; color: %FG%; border-color: %GRID%; }
button:checked {
  background-color: %BG_RAISED%;
  color: %ACCENT%;
  border-color: %GRID%;
  box-shadow: inset 0 -2px 0 %ACCENT%;
}
/* Insensitive controls must read as such: without this the flat sheet leaves
   a disabled button visually identical to a live one. */
entry:disabled, spinbutton:disabled, dropdown:disabled, switch:disabled, check:disabled, scale:disabled { opacity: 0.55; }
/* Icon-only buttons (headerbar / toolbars) read as flat like the rest of the
   chrome: a hard 1px border around every gear/list glyph is what made the top
   bar look boxy. GTK tags icon-only buttons `.image-button`; they de-box here
   and only fill on hover, keeping the flat identity. */
button.flat, button.circular, button.image-button { background-color: transparent; border-color: transparent; }
button.flat:hover, button.circular:hover, button.image-button:hover { background-color: %GRID%; }
button.circular { border-radius: 0; }
button.pill { padding: 6px 18px; background-color: %BG_CARD%; border-color: %FG_DIM%; }
button.pill:hover { background-color: %GRID%; }
modelbutton:hover { background-color: %BG_RAISED%; color: %FG%; }
.osd { background-color: alpha(%BG_WINDOW%, 0.80); color: %FG%; border-radius: 0; }
switch { background-color: %GRID%; border: 1px solid %GRID%; border-radius: 0; }
switch:checked { background-color: %ACCENT%; border-color: %ACCENT%; }
switch > slider { background-color: %FG%; border: 1px solid %GRID%; border-radius: 0; min-width: 18px; min-height: 18px; }
check { background-color: %BG_VIEW%; border: 1px solid %GRID%; border-radius: 0; }
check:checked { background-color: %ACCENT%; color: %ON_ACCENT%; border-color: %ACCENT%; }
scale > trough { background-color: %GRID%; border-radius: 0; }
scale > trough > highlight { background-color: %ACCENT%; border-radius: 0; }
scale > trough > slider { background-color: %FG%; border: 1px solid %GRID%; border-radius: 0; box-shadow: none; }
scale > marks-after, scale > marks-before { color: %FG_DIM%; }
/* --- Typography (Phase 13d): the only three font rules --- */
window, popover, dropdown, tooltip { font-family: 'Inter', sans-serif; }
.title-1, .title-2, .title-3, .title-4, .large-title, .heading { font-family: 'Fraunces', serif; }
.tech { font-family: 'IBM Plex Mono', monospace; }
/* --- App-owned rules (migrated from the old main.rs sheet) --- */
columnview.data-table > listview > row > cell { padding-top: 1px; padding-bottom: 1px; }
columnview.data-table > listview > row { transition: background-color 150ms ease; }
/* Scannability option (the post-0.3.0 follow-on, config `[browse].row_style`):
   a faint line between track rows or a subtle even-row tint, both quieter than
   the pre-0.3.9 grid the density pass removed, and both off by default. The
   zebra rule precedes the hover rule below so hover keeps winning on a hovered
   stripe. */
columnview.row-lines > listview > row { border-bottom: 1px solid alpha(%GRID%, 0.55); }
columnview.zebra-rows > listview > row:nth-child(even) { background-color: alpha(%FG%, 0.032); }
columnview.data-table > listview > row:hover { background: alpha(currentColor, 0.04); }
/* Facet-pane rows match the track list's tightened density (the post-0.3.0
   follow-on): the leaf row box is the 24px cover + 1px cell padding, so the
   pane rows pin to the same height instead of the label's natural one. */
columnview.facet-pane > listview > row { min-height: 26px; }
/* Column headers read as quiet labels, not buttons (the deadbeef/foobar look):
   dimmed, slightly smaller, a touch of tracking. */
columnview > header > button { padding-top: 2px; padding-bottom: 2px; min-height: 0; border-width: 0; background-color: transparent; color: %FG_DIM%; font-size: 0.92em; letter-spacing: 0.02em; transition: background-color 150ms ease; }
columnview > header > button:hover { background: alpha(currentColor, 0.08); }
.rating-stars { color: %WARN%; }  /* dragonYellow: gold reads as a rating; a column of red stars shouted */
.filter-warn text { background-color: alpha(%WARN%, 0.20); }
/* Empty-state call-to-action buttons render in the house idiom as a roomier
   bordered button rather than a rounded capsule. */
.status-bar { padding: 2px 12px; border-top: 1px solid %GRID%; }
.now-bar { padding: 6px 12px; border-top: 1px solid %GRID%; }
.now-bar-cover { border-radius: 6px; box-shadow: 0 1px 5px rgba(0,0,0,0.40); background: alpha(currentColor, 0.06); }
.queue-row { padding: 4px 8px; border-radius: 0; }
.queue-row.playing { background: alpha(%ACCENT%, 0.16); }
.queue-list { border-left: 1px solid %GRID%; }
.chapter-row { padding: 3px 6px; border-radius: 0; transition: background-color 150ms ease; }
.chapter-row:hover { background: alpha(currentColor, 0.06); }
.chapter-row.current-chapter { background: alpha(%ACCENT%, 0.16); font-weight: bold; }
.sleep-menu-row { transition: background-color 150ms ease; }
.sleep-menu-row:hover { background: alpha(currentColor, 0.08); }
.book-tile { padding: 8px; border-radius: 0; }
.book-tile:selected { background: alpha(%ACCENT%, 0.18); }
.cover-art { border-radius: 10px; box-shadow: 0 1px 3px rgba(0,0,0,0.30), 0 4px 14px rgba(0,0,0,0.28); background: alpha(currentColor, 0.05); }
.cover-thumb { border-radius: 4px; background: alpha(currentColor, 0.06); }
.book-cover { border-radius: 8px; box-shadow: 0 1px 3px rgba(0,0,0,0.30), 0 4px 12px rgba(0,0,0,0.26); background: alpha(currentColor, 0.06); }
.inspector-cover { border-radius: 10px; box-shadow: 0 1px 3px rgba(0,0,0,0.30), 0 6px 18px rgba(0,0,0,0.30); background: alpha(currentColor, 0.06); }
.now-playing-cover { border-radius: 8px; box-shadow: 0 1px 3px rgba(0,0,0,0.30), 0 6px 18px rgba(0,0,0,0.30); background: alpha(currentColor, 0.06); }
.now-playing-drawer { border-top: 1px solid %GRID%; }
/* Stage 3 (19b-ii). Built to be left open, so it stays quiet: a deeper shadow
   under the hero cover to seat it, a framed visualizer, and lyrics that sit back
   until their line comes round. */
.now-playing-full { background-color: %BG_WINDOW%; }
.now-playing-cover-hero { border-radius: 12px; box-shadow: 0 2px 6px rgba(0,0,0,0.34), 0 14px 40px rgba(0,0,0,0.38); }
.now-playing-vis { border: 1px solid %GRID%; border-radius: 6px; background: alpha(currentColor, 0.03); }
.lyric-line { color: alpha(%FG%, 0.42); padding: 3px 0; font-size: 1.05em; }
/* The lit line is the one thing on the page that moves, so it earns full
   contrast and a little weight; everything else recedes behind it. */
.lyric-line-active { color: %FG%; font-weight: 700; }
.lyric-plain { color: alpha(%FG%, 0.72); }
.now-playing-info { background-color: alpha(%BG_WINDOW%, 0.72); border-radius: 0; padding: 8px 14px; }
.spectrum { background: alpha(currentColor, 0.03); }
.toast { background-color: %BG_CARD%; color: %FG%; border: 1px solid %GRID%; border-radius: 0; padding: 6px 12px; }
";

/// The Kanagawa Dragon palette with Conservatory's accent override
/// (dragonRed), as `(%TOKEN%, hex)` character sequences.
pub open spec fn dragon() -> Seq<(Seq<char>, Seq<char>)> {
    seq![
        ("%BG_WINDOW%"@, "#181616"@),
        ("%BG_VIEW%"@, "#0d0c0c"@),
        ("%BG_CARD%"@, "#1d1c19"@),
        ("%BG_RAISED%"@, "#282727"@),
        ("%GRID%"@, "#393836"@),
        ("%FG%"@, "#c5c9c5"@),
        ("%FG_DIM%"@, "#a6a69c"@),
        ("%WARN%"@, "#c4b28a"@),
        ("%ACCENT%"@, "#c4746e"@),
        ("%ON_ACCENT%"@, "#12120f"@),
    ]
}

/// The Kanagawa Dragon palette with Conservatory's accent override
/// (dragonRed), as `(%TOKEN%, hex)` pairs.
pub fn palette() -> (r: Vec<(&'static str, &'static str)>)
    ensures
        token_views(r@) == dragon(),
{
    let mut p: Vec<(&'static str, &'static str)> = Vec::new();
    p.push(("%BG_WINDOW%", "#181616"));
    p.push(("%BG_VIEW%", "#0d0c0c"));
    p.push(("%BG_CARD%", "#1d1c19"));
    p.push(("%BG_RAISED%", "#282727"));
    p.push(("%GRID%", "#393836"));
    p.push(("%FG%", "#c5c9c5"));
    p.push(("%FG_DIM%", "#a6a69c"));
    p.push(("%WARN%", "#c4b28a"));
    p.push(("%ACCENT%", "#c4746e"));
    p.push(("%ON_ACCENT%", "#12120f"));
    assert(token_views(p@) =~= dragon());
    p
}

/// Whether `key` (non-empty) is a prefix of `t`.
pub open spec fn starts_with(t: Seq<char>, key: Seq<char>) -> bool {
    &&& key.len() > 0
    &&& key.len() <= t.len()
    &&& t.take(key.len() as int) == key
}

/// The first token, from position `k` on, whose key starts `t`.
pub open spec fn token_from(t: Seq<char>, toks: Seq<(Seq<char>, Seq<char>)>, k: int) -> Option<int>
    decreases toks.len() - k,
{
    if k < 0 || k >= toks.len() {
        None
    } else if starts_with(t, toks[k].0) {
        Some(k)
    } else {
        token_from(t, toks, k + 1)
    }
}

/// The first token whose key starts `t`.
pub open spec fn token_at(t: Seq<char>, toks: Seq<(Seq<char>, Seq<char>)>) -> Option<int> {
    token_from(t, toks, 0)
}

proof fn lemma_token_from(t: Seq<char>, toks: Seq<(Seq<char>, Seq<char>)>, k: int)
    requires
        0 <= k,
    ensures
        match token_from(t, toks, k) {
            Some(j) => k <= j < toks.len() && starts_with(t, toks[j].0) && forall|m: int|
                k <= m < j ==> !starts_with(t, #[trigger] toks[m].0),
            None => forall|m: int| k <= m < toks.len() ==> !starts_with(t, #[trigger] toks[m].0),
        },
    decreases toks.len() - k,
{
    if k < toks.len() {
        lemma_token_from(t, toks, k + 1);
    }
}

/// Token replacement: left to right, a position that starts a token's key
/// is replaced, key and all, by the token's value; any other character is
/// kept.
pub open spec fn expand(t: Seq<char>, toks: Seq<(Seq<char>, Seq<char>)>) -> Seq<char>
    decreases t.len(),
{
    if t.len() == 0 {
        Seq::empty()
    } else {
        match token_at(t, toks) {
            Some(k) => if 0 <= k < toks.len() && starts_with(t, toks[k].0) {
                toks[k].1 + expand(t.skip(toks[k].0.len() as int), toks)
            } else {
                Seq::empty()
            },
            None => seq![t[0]] + expand(t.skip(1), toks),
        }
    }
}

/// The palette's `(key, value)` pairs as character sequences.
pub open spec fn token_views(p: Seq<(&str, &str)>) -> Seq<(Seq<char>, Seq<char>)> {
    p.map_values(|e: (&str, &str)| (e.0@, e.1@))
}

fn key_matches(t: &Vec<char>, i: usize, key: &Vec<char>) -> (r: bool)
    requires
        i <= t@.len(),
    ensures
        r == starts_with(t@.skip(i as int), key@),
{
    let n = t.len();
    let m = key.len();
    if m == 0 || m > n - i {
        return false;
    }
    let mut j: usize = 0;
    while j < m
        invariant
            n == t@.len(),
            m == key@.len(),
            i + m <= n,
            j <= m,
            forall|q: int| 0 <= q < j ==> t@[i + q] == key@[q],
        decreases m - j,
    {
        if t[i + j] != key[j] {
            assert(t@.skip(i as int).take(m as int)[j as int] != key@[j as int]);
            return false;
        }
        j += 1;
    }
    assert(t@.skip(i as int).take(m as int) =~= key@);
    true
}

/// The first key that starts position `i` of `t`.
fn find_key(t: &Vec<char>, i: usize, keys: &Vec<Vec<char>>) -> (r: Option<usize>)
    requires
        i <= t@.len(),
    ensures
        match r {
            Some(k) => k < keys@.len() && starts_with(t@.skip(i as int), keys@[k as int]@)
                && forall|m: int| 0 <= m < k ==> !starts_with(t@.skip(i as int), #[trigger] keys@[m]@),
            None => forall|m: int|
                0 <= m < keys@.len() ==> !starts_with(t@.skip(i as int), #[trigger] keys@[m]@),
        },
{
    let nk = keys.len();
    let mut k: usize = 0;
    while k < nk
        invariant
            nk == keys@.len(),
            i <= t@.len(),
            k <= nk,
            forall|m: int| 0 <= m < k ==> !starts_with(t@.skip(i as int), #[trigger] keys@[m]@),
        decreases nk - k,
    {
        if key_matches(t, i, &keys[k]) {
            return Some(k);
        }
        k += 1;
    }
    None
}

/// Replace every `%TOKEN%` of `template` by its value in `tokens` (left to
/// right, the first listed token whose key starts a position wins).
pub fn replace_tokens(template: &str, tokens: &[(&str, &str)]) -> (r: String)
    ensures
        r@ == expand(template@, token_views(tokens@)),
{
    let ghost toks = token_views(tokens@);
    let t = chars_of(template);
    let mut keys: Vec<Vec<char>> = Vec::new();
    let nt = tokens.len();
    let mut a: usize = 0;
    while a < nt
        invariant
            nt == tokens@.len(),
            a <= nt,
            keys@.len() == a,
            forall|q: int| 0 <= q < a ==> (#[trigger] keys@[q])@ == tokens@[q].0@,
        decreases nt - a,
    {
        keys.push(chars_of(tokens[a].0));
        a += 1;
    }
    let mut out = String::new();
    let n = t.len();
    assert(t@.skip(0) =~= t@);
    let mut i: usize = 0;
    while i < n
        invariant
            n == t@.len(),
            t@ == template@,
            i <= n,
            nt == tokens@.len(),
            keys@.len() == nt,
            toks == token_views(tokens@),
            forall|q: int| 0 <= q < nt ==> (#[trigger] keys@[q])@ == tokens@[q].0@,
            out@ + expand(t@.skip(i as int), toks) == expand(t@, toks),
        decreases n - i,
    {
        let ghost rest = t@.skip(i as int);
        let found = find_key(&t, i, &keys);
        proof {
            lemma_token_from(rest, toks, 0);
            assert forall|m: int| 0 <= m < nt implies #[trigger] toks[m].0 == keys@[m]@ by {
                assert(toks[m] == (tokens@[m].0@, tokens@[m].1@));
            }
        }
        if let Some(k) = found {
            proof {
                assert(toks[k as int] == (tokens@[k as int].0@, tokens@[k as int].1@));
                assert(starts_with(rest, toks[k as int].0));
                match token_at(rest, toks) {
                    Some(j) => {
                        assert(j == k);
                    },
                    None => {},
                }
                assert(rest.skip(keys@[k as int]@.len() as int) =~= t@.skip(
                    i + keys@[k as int]@.len(),
                ));
            }
            out.append(tokens[k].1);
            i = i + keys[k].len();
        } else {
            proof {
                assert(token_at(rest, toks) is None);
                assert(rest[0] == t@[i as int]);
                assert(rest.skip(1) =~= t@.skip(i + 1));
            }
            crate::text::push_char(&mut out, t[i]);
            i = i + 1;
        }
    }
    assert(t@.skip(n as int) =~= Seq::<char>::empty());
    assert(out@ =~= expand(t@, toks));
    out
}

/// The full app-owned sheet: the template with every `%TOKEN%` replaced by
/// its baked Dragon hex.
pub fn sheet() -> (r: String)
    ensures
        r@ == expand(TEMPLATE@, dragon()),
{
    let p = palette();
    replace_tokens(TEMPLATE, p.as_slice())
}

/// A template that the scan reads cleanly: every `%` the scan stops at
/// starts some token's key.
pub open spec fn well_tokened(t: Seq<char>, toks: Seq<(Seq<char>, Seq<char>)>) -> bool
    decreases t.len(),
{
    if t.len() == 0 {
        true
    } else {
        match token_at(t, toks) {
            Some(k) => if 0 <= k < toks.len() && starts_with(t, toks[k].0) {
                well_tokened(t.skip(toks[k].0.len() as int), toks)
            } else {
                false
            },
            None => t[0] != '%' && well_tokened(t.skip(1), toks),
        }
    }
}

/// No `%` survives replacement: when every `%` the scan stops at starts a
/// token and no value holds a `%`, the sheet holds no `%` (a leftover token
/// would ship literally into the CSS parser).
pub proof fn law_no_token_survives(t: Seq<char>, toks: Seq<(Seq<char>, Seq<char>)>)
    requires
        well_tokened(t, toks),
        forall|k: int| 0 <= k < toks.len() ==> !(#[trigger] toks[k].1).contains('%'),
    ensures
        !expand(t, toks).contains('%'),
    decreases t.len(),
{
    if t.len() > 0 {
        match token_at(t, toks) {
            Some(k) => {
                let rest = t.skip(toks[k].0.len() as int);
                law_no_token_survives(rest, toks);
                let e = toks[k].1 + expand(rest, toks);
                if e.contains('%') {
                    let j = choose|j: int| 0 <= j < e.len() && e[j] == '%';
                    if j < toks[k].1.len() {
                        assert(toks[k].1[j] == '%');
                    } else {
                        assert(expand(rest, toks)[j - toks[k].1.len()] == '%');
                    }
                }
            },
            None => {
                let rest = t.skip(1);
                law_no_token_survives(rest, toks);
                let e = seq![t[0]] + expand(rest, toks);
                if e.contains('%') {
                    let j = choose|j: int| 0 <= j < e.len() && e[j] == '%';
                    if j > 0 {
                        assert(expand(rest, toks)[j - 1] == '%');
                    }
                }
            },
        }
    }
}

} // verus!
