//! The status bar footer and the leaf play-status glyph: the playing track's
//! technical line on the left, the view's count and total playtime on the
//! right, and the glyph that marks the currently playing row.
use vstd::prelude::*;
use vstd::string::StringExecFns;

use crate::text::{
    dec, digit, join, join_strings, lemma_dec_digits, pad2, pad3, push_char, push_dec, push_pad2,
    push_pad3, to_upper, uppercase, views,
};

verus! {

/// `n` with a `,` between each group of three digits counted from the right.
pub open spec fn grouped(n: nat) -> Seq<char>
    decreases n,
{
    if n < 1000 {
        dec(n)
    } else {
        grouped(n / 1000) + seq![','] + pad3(n % 1000)
    }
}

fn push_grouped(s: &mut String, n: u64)
    ensures
        final(s)@ == old(s)@ + grouped(n as nat),
    decreases n,
{
    if n < 1000 {
        push_dec(s, n);
    } else {
        push_grouped(s, n / 1000);
        push_char(s, ',');
        push_pad3(s, n % 1000);
        assert(final(s)@ =~= old(s)@ + grouped(n as nat));
    }
}

/// Group an integer with thousands separators: `1203` becomes `"1,203"`.
pub fn group_thousands(n: usize) -> (r: String)
    ensures
        r@ == grouped(n as nat),
{
    let mut s = String::new();
    push_grouped(&mut s, n as u64);
    assert(s@ =~= grouped(n as nat));
    s
}

/// The characters of `s` other than `,`, in order.
pub open spec fn without_commas(s: Seq<char>) -> Seq<char>
    decreases s.len(),
{
    if s.len() == 0 {
        s
    } else if s.last() == ',' {
        without_commas(s.drop_last())
    } else {
        without_commas(s.drop_last()).push(s.last())
    }
}

proof fn lemma_without_commas_add(a: Seq<char>, b: Seq<char>)
    ensures
        without_commas(a + b) == without_commas(a) + without_commas(b),
    decreases b.len(),
{
    if b.len() == 0 {
        assert(a + b =~= a);
        assert(without_commas(a) + without_commas(b) =~= without_commas(a));
    } else {
        lemma_without_commas_add(a, b.drop_last());
        assert((a + b).drop_last() =~= a + b.drop_last());
        assert((a + b).last() == b.last());
        if b.last() == ',' {
        } else {
            assert(without_commas(a + b) =~= without_commas(a) + without_commas(b));
        }
    }
}

proof fn lemma_without_commas_keeps(s: Seq<char>)
    requires
        forall|i: int| 0 <= i < s.len() ==> #[trigger] s[i] != ',',
    ensures
        without_commas(s) == s,
    decreases s.len(),
{
    if s.len() > 0 {
        lemma_without_commas_keeps(s.drop_last());
        assert(s.drop_last().push(s.last()) =~= s);
    }
}

proof fn lemma_no_commas_in_digits(n: nat)
    ensures
        without_commas(dec(n)) == dec(n),
{
    lemma_dec_digits(n);
    lemma_without_commas_keeps(dec(n));
}

proof fn lemma_dec_split_thousands(n: nat)
    requires
        n >= 1000,
    ensures
        dec(n) == dec(n / 1000) + pad3(n % 1000),
{
    let a = n / 10;
    let b = n / 100;
    let c = n / 1000;
    assert(a / 10 == b) by (nonlinear_arith)
        requires
            a == n / 10,
            b == n / 100,
    ;
    assert(b / 10 == c) by (nonlinear_arith)
        requires
            b == n / 100,
            c == n / 1000,
    ;
    let r = n % 1000;
    assert(r / 100 == b % 10 && (r / 10) % 10 == a % 10 && r % 10 == n % 10) by (nonlinear_arith)
        requires
            r == n % 1000,
            a == n / 10,
            b == n / 100,
    ;
    assert(dec(n) == dec(a).push(digit(n % 10)));
    assert(dec(a) == dec(b).push(digit(a % 10)));
    assert(dec(b) == dec(c).push(digit(b % 10)));
    if r < 10 {
        assert(pad3(r) =~= seq![digit(b % 10), digit(a % 10), digit(n % 10)]);
    } else if r < 100 {
        assert(dec(r) == dec(r / 10).push(digit(r % 10)));
        assert(pad3(r) =~= seq![digit(b % 10), digit(a % 10), digit(n % 10)]);
    } else {
        assert(dec(r) == dec(r / 10).push(digit(r % 10)));
        assert((r / 10) / 10 == r / 100) by (nonlinear_arith);
        assert(dec(r / 10) == dec(r / 100).push(digit((r / 10) % 10)));
        assert(pad3(r) =~= seq![digit(b % 10), digit(a % 10), digit(n % 10)]);
    }
    assert(dec(n) =~= dec(c) + pad3(r));
}

/// Grouping only inserts separators: with the commas taken out, the grouped
/// rendering of `n` is its plain decimal rendering.
pub proof fn law_grouping_keeps_the_digits(n: nat)
    ensures
        without_commas(grouped(n)) == dec(n),
    decreases n,
{
    if n < 1000 {
        lemma_no_commas_in_digits(n);
    } else {
        law_grouping_keeps_the_digits(n / 1000);
        lemma_no_commas_in_digits(n % 1000);
        lemma_dec_split_thousands(n);
        let g = grouped(n / 1000);
        let p = pad3(n % 1000);
        lemma_without_commas_add(g + seq![','], p);
        lemma_without_commas_add(g, seq![',']);
        assert(without_commas(seq![',']) =~= Seq::<char>::empty()) by {
            let c = seq![','];
            assert(c.drop_last() =~= Seq::<char>::empty());
            assert(c.last() == ',');
            assert(without_commas(c.drop_last()) =~= Seq::<char>::empty());
        }
        lemma_dec_digits(n % 1000);
        assert forall|i: int| 0 <= i < p.len() implies #[trigger] p[i] != ',' by {
            let d = dec(n % 1000);
            if n % 1000 < 10 {
                if i >= 2 {
                    assert(p[i] == d[i - 2]);
                }
            } else if n % 1000 < 100 {
                if i >= 1 {
                    assert(p[i] == d[i - 1]);
                }
            }
        }
        lemma_without_commas_keeps(p);
        assert(without_commas(grouped(n)) =~= dec(n / 1000) + p);
    }
}

/// The coarse playtime: `m:ss`, `h:mm:ss`, or `Nd h:mm:ss` past a day.
pub open spec fn playtime(t: nat) -> Seq<char> {
    let d = t / 86400;
    let h = (t % 86400) / 3600;
    let m = (t % 3600) / 60;
    let s = t % 60;
    if d > 0 {
        dec(d) + seq!['d', ' '] + dec(h) + seq![':'] + pad2(m) + seq![':'] + pad2(s)
    } else if h > 0 {
        dec(h) + seq![':'] + pad2(m) + seq![':'] + pad2(s)
    } else {
        dec(m) + seq![':'] + pad2(s)
    }
}

/// Past a day the playtime leads with the whole days: `Nd ` with
/// `N = t / 86400`, so no whole day of playtime is dropped; below a day no
/// day count is shown.
pub proof fn law_playtime_keeps_the_days(t: nat)
    ensures
        t >= 86400 ==> playtime(t).take(dec(t / 86400).len() + 2int) == dec(t / 86400) + seq!['d', ' '],
        t < 86400 ==> !playtime(t).contains('d'),
{
    let d = t / 86400;
    if t >= 86400 {
        let lead = dec(d) + seq!['d', ' '];
        let h = (t % 86400) / 3600;
        let m = (t % 3600) / 60;
        let s = t % 60;
        let rest = dec(h) + seq![':'] + pad2(m) + seq![':'] + pad2(s);
        assert(playtime(t) =~= lead + rest);
        assert((lead + rest).take(lead.len() as int) =~= lead);
    } else {
        let h = (t % 86400) / 3600;
        let m = (t % 3600) / 60;
        let s = t % 60;
        lemma_dec_digits(h);
        lemma_dec_digits(m);
        lemma_dec_digits(s);
        lemma_dec_digits(h);
        let x = playtime(t);
        if x.contains('d') {
            let i = choose|i: int| 0 <= i < x.len() && x[i] == 'd';
            lemma_pad2_digits(m);
            lemma_pad2_digits(s);
            if h > 0 {
                assert(x =~= dec(h) + seq![':'] + pad2(m) + seq![':'] + pad2(s));
            } else {
                assert(x =~= dec(m) + seq![':'] + pad2(s));
            }
        }
    }
}

proof fn lemma_pad2_digits(n: nat)
    ensures
        forall|i: int| 0 <= i < pad2(n).len() ==> '0' <= #[trigger] pad2(n)[i] <= '9',
{
    lemma_dec_digits(n);
    if n < 10 {
        assert forall|i: int| 0 <= i < pad2(n).len() implies '0' <= #[trigger] pad2(n)[i] <= '9' by {
            if i > 0 {
                assert(pad2(n)[i] == dec(n)[i - 1]);
            }
        }
    }
}

/// A coarse playtime of `total` whole seconds: `m:ss`, `h:mm:ss`, or
/// `Nd h:mm:ss` past a day (the footer's "total playtime").
pub fn format_playtime(total: u64) -> (r: String)
    ensures
        r@ == playtime(total as nat),
{
    let d = total / 86_400;
    let h = (total % 86_400) / 3_600;
    let m = (total % 3_600) / 60;
    let sec = total % 60;
    let mut s = String::new();
    if d > 0 {
        push_dec(&mut s, d);
        push_char(&mut s, 'd');
        push_char(&mut s, ' ');
        push_dec(&mut s, h);
        push_char(&mut s, ':');
        push_pad2(&mut s, m);
        push_char(&mut s, ':');
        push_pad2(&mut s, sec);
    } else if h > 0 {
        push_dec(&mut s, h);
        push_char(&mut s, ':');
        push_pad2(&mut s, m);
        push_char(&mut s, ':');
        push_pad2(&mut s, sec);
    } else {
        push_dec(&mut s, m);
        push_char(&mut s, ':');
        push_pad2(&mut s, sec);
    }
    assert(s@ =~= playtime(total as nat));
    s
}

/// The right-hand footer label: the count (grouped), its noun, and the
/// total playtime.
pub open spec fn aggregate_text(count: nat, total: nat, selected: bool) -> Seq<char> {
    let noun = if selected {
        "selected"@
    } else if count == 1 {
        "track"@
    } else {
        "tracks"@
    };
    grouped(count) + seq![' '] + noun + " · "@ + playtime(total)
}

/// The right-hand footer label for `count` rows totalling `total_secs` whole
/// seconds. With `selected` rows (two or more) it reports the selection;
/// otherwise the whole view.
pub fn aggregate_label(count: usize, total_secs: u64, selected: bool) -> (r: String)
    ensures
        r@ == aggregate_text(count as nat, total_secs as nat, selected),
{
    let mut s = group_thousands(count);
    push_char(&mut s, ' ');
    if selected {
        s.append("selected");
    } else if count == 1 {
        s.append("track");
    } else {
        s.append("tracks");
    }
    s.append(" · ");
    let t = format_playtime(total_secs);
    s.append(t.as_str());
    s
}

/// The format part of the technical line: the upper-cased format name, when
/// one is known and non-empty.
pub open spec fn format_part(format: Option<&str>) -> Seq<Seq<char>> {
    match format {
        Some(f) => if f@.len() > 0 {
            seq![uppercase(f@)]
        } else {
            Seq::empty()
        },
        None => Seq::empty(),
    }
}

/// A numeric part of the technical line: `value` followed by `unit`, when
/// the value is known and positive.
pub open spec fn count_part(value: Option<int>, unit: Seq<char>) -> Seq<Seq<char>> {
    match value {
        Some(v) => if v > 0 {
            seq![dec(v as nat) + unit]
        } else {
            Seq::empty()
        },
        None => Seq::empty(),
    }
}

/// An optional count as a mathematical integer.
pub open spec fn wide32(v: Option<i32>) -> Option<int> {
    match v {
        Some(x) => Some(x as int),
        None => None,
    }
}

/// An optional count as a mathematical integer.
pub open spec fn wide64(v: Option<i64>) -> Option<int> {
    match v {
        Some(x) => Some(x as int),
        None => None,
    }
}

/// The known parts of the technical line, in display order.
pub open spec fn tech_parts(
    format: Option<&str>,
    sample_rate: Option<i32>,
    channels: Option<i64>,
    bitrate: Option<i32>,
) -> Seq<Seq<char>> {
    format_part(format) + count_part(wide32(sample_rate), " Hz"@) + count_part(
        wide64(channels),
        "ch"@,
    ) + count_part(wide32(bitrate), " kbps"@)
}

fn push_count_part(parts: &mut Vec<String>, value: Option<i64>, unit: &str)
    ensures
        views(final(parts)@) == views(old(parts)@) + count_part(
            wide64(value),
            unit@,
        ),
{
    if let Some(v) = value {
        if v > 0 {
            let mut t = String::new();
            push_dec(&mut t, v as u64);
            t.append(unit);
            parts.push(t);
            assert(views(final(parts)@) =~= views(old(parts)@) + count_part(
                wide64(value),
                unit@,
            ));
            return;
        }
    }
    assert(views(final(parts)@) =~= views(old(parts)@) + count_part(
        wide64(value),
        unit@,
    ));
}

/// The left-hand footer line: the playing track's technical readout, skipping
/// any field that is unknown. Empty when nothing is known.
pub fn tech_line(
    format: Option<&str>,
    sample_rate: Option<i32>,
    channels: Option<i64>,
    bitrate: Option<i32>,
) -> (r: String)
    ensures
        r@ == join(tech_parts(format, sample_rate, channels, bitrate), " · "@),
{
    let mut parts: Vec<String> = Vec::new();
    if let Some(f) = format {
        if !f.is_empty() {
            parts.push(to_upper(f));
        }
    }
    assert(views(parts@) =~= format_part(format));
    let sr: Option<i64> = match sample_rate {
        Some(v) => Some(v as i64),
        None => None,
    };
    assert(wide64(sr) == wide32(sample_rate));
    push_count_part(&mut parts, sr, " Hz");
    push_count_part(&mut parts, channels, "ch");
    let br: Option<i64> = match bitrate {
        Some(v) => Some(v as i64),
        None => None,
    };
    assert(wide64(br) == wide32(bitrate));
    push_count_part(&mut parts, br, " kbps");
    assert(views(parts@) =~= tech_parts(format, sample_rate, channels, bitrate));
    join_strings(&parts, " · ")
}

/// The play-status state of a leaf row: `0` none, `1` playing, `2` paused. A
/// row is the current track only when the playing item is a track and its id
/// matches.
pub fn play_state(row_id: i64, playing_id: Option<i64>, is_track: bool, paused: bool) -> (r: u8)
    ensures
        r == (if is_track && playing_id == Some(row_id) {
            if paused {
                2u8
            } else {
                1u8
            }
        } else {
            0u8
        }),
{
    if is_track && playing_id == Some(row_id) {
        if paused {
            2
        } else {
            1
        }
    } else {
        0
    }
}

/// The symbolic icon name for a play-status state, or none for an inactive
/// row.
pub open spec fn glyph_name(state: u8) -> Option<Seq<char>> {
    if state == 1 {
        Some("media-playback-start-symbolic"@)
    } else if state == 2 {
        Some("media-playback-pause-symbolic"@)
    } else {
        None
    }
}

/// The symbolic icon for a play-status state, or `None` (no glyph) for an
/// inactive row.
pub fn play_glyph(state: u8) -> (r: Option<&'static str>)
    ensures
        match r {
            Some(g) => glyph_name(state) == Some(g@),
            None => glyph_name(state) is None,
        },
{
    match state {
        1 => Some("media-playback-start-symbolic"),
        2 => Some("media-playback-pause-symbolic"),
        _ => None,
    }
}

/// The leaf-list position of the playing track: the first row whose id
/// matches, in display order (as a `u32`, the list model's index type), or
/// `None` when the playing track is not in the view.
pub fn current_row_index(model_ids: &[i64], playing_id: i64) -> (r: Option<u32>)
    ensures
        match r {
            Some(p) => exists|k: int|
                0 <= k < model_ids@.len() && model_ids@[k] == playing_id && p == k as u32
                    && forall|j: int| 0 <= j < k ==> model_ids@[j] != playing_id,
            None => !model_ids@.contains(playing_id),
        },
{
    let n = model_ids.len();
    let mut i: usize = 0;
    while i < n
        invariant
            n == model_ids@.len(),
            i <= n,
            forall|j: int| 0 <= j < i ==> model_ids@[j] != playing_id,
        decreases n - i,
    {
        if model_ids[i] == playing_id {
            #[verifier::truncate]
            let p = i as u32;
            return Some(p);
        }
        i += 1;
    }
    None
}

} // verus!
