//! The smart playlist fallback. A smart playlist whose query the storage
//! layer cannot run (a regular expression, a fuzzy match) is evaluated row by
//! row; the matching rows are then put in the playlist's order here, best
//! effort, and cut to its limit.
use vstd::prelude::*;

use crate::text::{chars_of, i64_value, lowercase, parse_i64, to_lower, trim_text, trimmed};

verus! {

/// How a smart playlist is ordered.
#[derive(Debug, Clone, Copy, PartialEq, Eq, Structural)]
pub enum PlaylistOrder {
    Added,
    LastPlayed,
    Rating,
    Title,
    Artist,
}

/// A track matched by a smart playlist's query, as the fallback order
/// reads it.
#[derive(Debug)]
pub struct SearchRow {
    pub track_id: i64,
    /// When the track was added, in seconds since the Unix epoch.
    pub added: Option<i64>,
    pub rating: i64,
    pub title: String,
    pub artist: Option<String>,
}

/// Whether `a` is later than `b`; an unknown time is earlier than any
/// known one.
pub open spec fn later(a: Option<i64>, b: Option<i64>) -> bool {
    match (a, b) {
        (Some(x), Some(y)) => x > y,
        (Some(_), None) => true,
        _ => false,
    }
}

/// Lexicographic order on characters by code point: `a` sorts strictly
/// before `b`.
pub open spec fn text_before(a: Seq<char>, b: Seq<char>) -> bool
    decreases a.len(),
{
    if b.len() == 0 {
        false
    } else if a.len() == 0 {
        true
    } else if a[0] != b[0] {
        (a[0] as u32) < (b[0] as u32)
    } else {
        text_before(a.drop_first(), b.drop_first())
    }
}

/// The artist's name, or nothing when unknown.
pub open spec fn artist_text(r: SearchRow) -> Seq<char> {
    match r.artist {
        Some(a) => a@,
        None => Seq::empty(),
    }
}

/// The text a row is ordered by under `order`: the lower-cased title or
/// artist (empty for the other orders).
pub open spec fn sort_text(r: SearchRow, order: PlaylistOrder) -> Seq<char> {
    match order {
        PlaylistOrder::Title => lowercase(r.title@),
        PlaylistOrder::Artist => lowercase(artist_text(r)),
        _ => Seq::empty(),
    }
}

/// Whether `a` sorts strictly before `b` under `order`: newest added first
/// (ties by track id) for Added, and for LastPlayed too, since a matched row
/// carries no play time; highest rated first (ties newest added first) for
/// Rating; the lower-cased title or artist for Title and Artist.
pub open spec fn before(a: SearchRow, b: SearchRow, order: PlaylistOrder) -> bool {
    match order {
        PlaylistOrder::Added | PlaylistOrder::LastPlayed => later(a.added, b.added) || (a.added
            == b.added && a.track_id < b.track_id),
        PlaylistOrder::Rating => a.rating > b.rating || (a.rating == b.rating && later(
            a.added,
            b.added,
        )),
        _ => text_before(sort_text(a, order), sort_text(b, order)),
    }
}

/// Where a stable insertion puts `x` into the ordered `s`: before the first
/// row it sorts strictly before, else at the end.
pub open spec fn insert_pos(s: Seq<SearchRow>, x: SearchRow, order: PlaylistOrder) -> int
    decreases s.len(),
{
    if s.len() == 0 {
        0
    } else if before(x, s[0], order) {
        0
    } else {
        1 + insert_pos(s.drop_first(), x, order)
    }
}

/// The rows in `order`, stably: rows that tie keep their relative order.
pub open spec fn ordered(rows: Seq<SearchRow>, order: PlaylistOrder) -> Seq<SearchRow>
    decreases rows.len(),
{
    if rows.len() == 0 {
        Seq::empty()
    } else {
        let s = ordered(rows.drop_last(), order);
        s.insert(insert_pos(s, rows.last(), order), rows.last())
    }
}

/// Whether no row of `s` sorts strictly before an earlier one.
pub open spec fn is_ordered(s: Seq<SearchRow>, order: PlaylistOrder) -> bool {
    forall|i: int, j: int| 0 <= i < j < s.len() ==> !before(#[trigger] s[j], #[trigger] s[i], order)
}

/// Text order is lexicographic by code point: a text sorts strictly before
/// each of its proper extensions, and two texts that first differ at
/// position `k` are ordered by their characters there.
pub proof fn law_text_order_is_lexicographic(p: Seq<char>, q: Seq<char>, a: Seq<char>, b: Seq<char>, k: int)
    ensures
        q.len() > 0 ==> text_before(p, p + q),
        !text_before(p + q, p),
        (0 <= k < a.len() && k < b.len() && a.take(k) == b.take(k) && a[k] != b[k]) ==> (
        text_before(a, b) <==> (a[k] as u32) < (b[k] as u32)),
{
    lemma_text_before_extension(p, q);
    if 0 <= k < a.len() && k < b.len() && a.take(k) == b.take(k) && a[k] != b[k] {
        lemma_text_before_first_difference(a, b, k);
    }
}

proof fn lemma_text_before_extension(p: Seq<char>, q: Seq<char>)
    ensures
        q.len() > 0 ==> text_before(p, p + q),
        !text_before(p + q, p),
    decreases p.len(),
{
    if p.len() > 0 {
        assert((p + q)[0] == p[0]);
        assert((p + q).drop_first() =~= p.drop_first() + q);
        lemma_text_before_extension(p.drop_first(), q);
    } else {
        assert(p + q =~= q);
    }
}

proof fn lemma_text_before_first_difference(a: Seq<char>, b: Seq<char>, k: int)
    requires
        0 <= k < a.len(),
        k < b.len(),
        a.take(k) == b.take(k),
        a[k] != b[k],
    ensures
        text_before(a, b) <==> (a[k] as u32) < (b[k] as u32),
    decreases k,
{
    if k > 0 {
        assert(a.take(k)[0] == a[0] && b.take(k)[0] == b[0]);
        assert(a.drop_first().take(k - 1) =~= a.take(k).drop_first());
        assert(b.drop_first().take(k - 1) =~= b.take(k).drop_first());
        lemma_text_before_first_difference(a.drop_first(), b.drop_first(), k - 1);
    }
}

proof fn lemma_text_before_irreflexive(a: Seq<char>)
    ensures
        !text_before(a, a),
    decreases a.len(),
{
    if a.len() > 0 {
        lemma_text_before_irreflexive(a.drop_first());
    }
}

proof fn lemma_text_before_transitive(a: Seq<char>, b: Seq<char>, c: Seq<char>)
    requires
        text_before(a, b),
        text_before(b, c),
    ensures
        text_before(a, c),
    decreases a.len(),
{
    if a.len() > 0 && b.len() > 0 && c.len() > 0 && a[0] == b[0] && b[0] == c[0] {
        lemma_text_before_transitive(a.drop_first(), b.drop_first(), c.drop_first());
    }
}

proof fn lemma_before_irreflexive(a: SearchRow, order: PlaylistOrder)
    ensures
        !before(a, a, order),
{
    lemma_text_before_irreflexive(sort_text(a, order));
}

proof fn lemma_before_transitive(a: SearchRow, b: SearchRow, c: SearchRow, order: PlaylistOrder)
    requires
        before(a, b, order),
        before(b, c, order),
    ensures
        before(a, c, order),
{
    match order {
        PlaylistOrder::Title | PlaylistOrder::Artist => {
            lemma_text_before_transitive(
                sort_text(a, order),
                sort_text(b, order),
                sort_text(c, order),
            );
        },
        _ => {},
    }
}

proof fn lemma_insert_pos(s: Seq<SearchRow>, x: SearchRow, order: PlaylistOrder, q: int)
    requires
        0 <= q <= s.len(),
        forall|t: int| 0 <= t < q ==> !before(x, #[trigger] s[t], order),
        q == s.len() || before(x, s[q], order),
    ensures
        insert_pos(s, x, order) == q,
    decreases q,
{
    if q > 0 {
        assert forall|t: int| 0 <= t < q - 1 implies !before(
            x,
            #[trigger] s.drop_first()[t],
            order,
        ) by {
            assert(s.drop_first()[t] == s[t + 1]);
        }
        lemma_insert_pos(s.drop_first(), x, order, q - 1);
    }
}

proof fn lemma_insert_pos_bounds(s: Seq<SearchRow>, x: SearchRow, order: PlaylistOrder)
    ensures
        0 <= insert_pos(s, x, order) <= s.len(),
        forall|t: int| 0 <= t < insert_pos(s, x, order) ==> !before(x, #[trigger] s[t], order),
        insert_pos(s, x, order) < s.len() ==> before(x, s[insert_pos(s, x, order)], order),
    decreases s.len(),
{
    if s.len() > 0 && !before(x, s[0], order) {
        lemma_insert_pos_bounds(s.drop_first(), x, order);
        assert forall|t: int| 0 <= t < insert_pos(s, x, order) implies !before(
            x,
            #[trigger] s[t],
            order,
        ) by {
            if t > 0 {
                assert(s[t] == s.drop_first()[t - 1]);
            }
        }
    }
}

/// The ordered rows are a rearrangement of the rows: nothing is added,
/// dropped or repeated.
pub proof fn law_order_keeps_the_rows(rows: Seq<SearchRow>, order: PlaylistOrder)
    ensures
        ordered(rows, order).to_multiset() == rows.to_multiset(),
    decreases rows.len(),
{
    if rows.len() > 0 {
        let d = rows.drop_last();
        let x = rows.last();
        let s = ordered(d, order);
        law_order_keeps_the_rows(d, order);
        lemma_insert_pos_bounds(s, x, order);
        vstd::seq_lib::to_multiset_insert(s, insert_pos(s, x, order), x);
        vstd::seq_lib::to_multiset_build(d, x);
        assert(d.push(x) =~= rows);
        assert(ordered(rows, order) == s.insert(insert_pos(s, x, order), x));
    } else {
        assert(rows =~= Seq::<SearchRow>::empty());
    }
}

/// The ordered rows are in order: no row sorts strictly before one ahead of
/// it.
pub proof fn law_order_is_sorted(rows: Seq<SearchRow>, order: PlaylistOrder)
    ensures
        is_ordered(ordered(rows, order), order),
    decreases rows.len(),
{
    if rows.len() > 0 {
        let s = ordered(rows.drop_last(), order);
        let x = rows.last();
        law_order_is_sorted(rows.drop_last(), order);
        lemma_insert_pos_bounds(s, x, order);
        let p = insert_pos(s, x, order);
        let r = s.insert(p, x);
        assert(r == ordered(rows, order));
        assert forall|i: int, j: int| 0 <= i < j < r.len() implies !before(
            #[trigger] r[j],
            #[trigger] r[i],
            order,
        ) by {
            if j < p {
                assert(r[i] == s[i] && r[j] == s[j]);
            } else if j == p {
                assert(r[i] == s[i]);
            } else if i == p {
                assert(r[j] == s[j - 1]);
                if before(s[j - 1], x, order) {
                    lemma_before_transitive(s[j - 1], x, s[p], order);
                    if j - 1 == p {
                        lemma_before_irreflexive(s[p], order);
                    }
                }
            } else if i < p {
                assert(r[i] == s[i] && r[j] == s[j - 1]);
            } else {
                assert(r[i] == s[i - 1] && r[j] == s[j - 1]);
            }
        }
    }
}

/// Ordering rows that are already in order leaves them as they are: rows
/// that tie are never reordered.
pub proof fn law_sorted_rows_stay_put(rows: Seq<SearchRow>, order: PlaylistOrder)
    requires
        is_ordered(rows, order),
    ensures
        ordered(rows, order) == rows,
    decreases rows.len(),
{
    if rows.len() > 0 {
        let d = rows.drop_last();
        assert(is_ordered(d, order)) by {
            assert forall|i: int, j: int| 0 <= i < j < d.len() implies !before(
                #[trigger] d[j],
                #[trigger] d[i],
                order,
            ) by {
                assert(d[j] == rows[j] && d[i] == rows[i]);
            }
        }
        law_sorted_rows_stay_put(d, order);
        assert forall|t: int| 0 <= t < d.len() implies !before(rows.last(), #[trigger] d[t], order) by {
            assert(d[t] == rows[t]);
            assert(rows.last() == rows[rows.len() - 1]);
        }
        lemma_insert_pos(d, rows.last(), order, d.len() as int);
        assert(d.insert(d.len() as int, rows.last()) =~= rows);
    }
}

fn text_lt(a: &Vec<char>, b: &Vec<char>) -> (r: bool)
    ensures
        r == text_before(a@, b@),
{
    let mut i: usize = 0;
    assert(a@.skip(0) =~= a@ && b@.skip(0) =~= b@);
    while i < a.len() && i < b.len()
        invariant
            i <= a@.len(),
            i <= b@.len(),
            text_before(a@, b@) == text_before(a@.skip(i as int), b@.skip(i as int)),
        decreases a.len() - i,
    {
        let x = a[i];
        let y = b[i];
        assert(a@.skip(i as int)[0] == x && b@.skip(i as int)[0] == y);
        if x != y {
            return (x as u32) < (y as u32);
        }
        assert(a@.skip(i as int).drop_first() =~= a@.skip(i + 1));
        assert(b@.skip(i as int).drop_first() =~= b@.skip(i + 1));
        i += 1;
    }
    i < b.len()
}

fn key_of(r: &SearchRow, order: PlaylistOrder) -> (k: Vec<char>)
    ensures
        k@ == sort_text(*r, order),
{
    match order {
        PlaylistOrder::Title => chars_of(to_lower(r.title.as_str()).as_str()),
        PlaylistOrder::Artist => match &r.artist {
            Some(a) => chars_of(to_lower(a.as_str()).as_str()),
            None => {
                let none = String::new();
                chars_of(to_lower(none.as_str()).as_str())
            },
        },
        _ => Vec::new(),
    }
}

fn later_than(a: Option<i64>, b: Option<i64>) -> (r: bool)
    ensures
        r == later(a, b),
{
    match (a, b) {
        (Some(x), Some(y)) => x > y,
        (Some(_), None) => true,
        _ => false,
    }
}

fn precedes(a: &SearchRow, ka: &Vec<char>, b: &SearchRow, kb: &Vec<char>, order: PlaylistOrder) -> (r:
    bool)
    requires
        ka@ == sort_text(*a, order),
        kb@ == sort_text(*b, order),
    ensures
        r == before(*a, *b, order),
{
    match order {
        PlaylistOrder::Added | PlaylistOrder::LastPlayed => later_than(a.added, b.added) || (
        a.added == b.added && a.track_id < b.track_id),
        PlaylistOrder::Rating => a.rating > b.rating || (a.rating == b.rating && later_than(
            a.added,
            b.added,
        )),
        _ => text_lt(ka, kb),
    }
}

fn copy_row(r: &SearchRow) -> (c: SearchRow)
    ensures
        c == *r,
{
    SearchRow {
        track_id: r.track_id,
        added: r.added,
        rating: r.rating,
        title: r.title.clone(),
        artist: match &r.artist {
            Some(a) => Some(a.clone()),
            None => None,
        },
    }
}

/// The rows at the given positions, in that order.
pub open spec fn picked(rows: Seq<SearchRow>, idx: Seq<usize>) -> Seq<SearchRow> {
    idx.map_values(|k: usize| rows[k as int])
}

/// Best-effort order for the fallback: newest added first for Added (and
/// for LastPlayed, which a matched row cannot tell apart), highest rated
/// first for Rating, case-insensitively by title or artist for Title and
/// Artist. The sort is stable: rows that tie keep their order.
pub fn sort_search_rows(rows: &mut Vec<SearchRow>, order: PlaylistOrder)
    ensures
        final(rows)@ == ordered(old(rows)@, order),
{
    let n = rows.len();
    let mut keys: Vec<Vec<char>> = Vec::new();
    let mut k: usize = 0;
    while k < n
        invariant
            n == rows@.len(),
            k <= n,
            keys@.len() == k,
            forall|t: int| 0 <= t < k ==> #[trigger] keys@[t]@ == sort_text(rows@[t], order),
        decreases n - k,
    {
        keys.push(key_of(&rows[k], order));
        k += 1;
    }
    let mut idx: Vec<usize> = Vec::new();
    let mut i: usize = 0;
    while i < n
        invariant
            n == rows@.len(),
            n == keys@.len(),
            i <= n,
            idx@.len() == i,
            forall|t: int| 0 <= t < n ==> #[trigger] keys@[t]@ == sort_text(rows@[t], order),
            forall|t: int| 0 <= t < idx@.len() ==> #[trigger] idx@[t] < n,
            picked(rows@, idx@) == ordered(rows@.take(i as int), order),
        decreases n - i,
    {
        let ghost s = picked(rows@, idx@);
        let mut q: usize = 0;
        while q < idx.len() && !precedes(&rows[i], &keys[i], &rows[idx[q]], &keys[idx[q]], order)
            invariant
                n == rows@.len(),
                n == keys@.len(),
                i < n,
                q <= idx@.len(),
                s == picked(rows@, idx@),
                forall|t: int| 0 <= t < n ==> #[trigger] keys@[t]@ == sort_text(rows@[t], order),
                forall|t: int| 0 <= t < idx@.len() ==> #[trigger] idx@[t] < n,
                forall|t: int| 0 <= t < q ==> !before(rows@[i as int], #[trigger] s[t], order),
            decreases idx.len() - q,
        {
            q += 1;
        }
        proof {
            assert(rows@.take(i + 1).drop_last() =~= rows@.take(i as int));
            assert(rows@.take(i + 1).last() == rows@[i as int]);
            lemma_insert_pos(s, rows@[i as int], order, q as int);
        }
        idx.insert(q, i);
        assert(picked(rows@, idx@) =~= s.insert(q as int, rows@[i as int]));
        i += 1;
    }
    assert(rows@.take(n as int) =~= rows@);
    let mut sorted: Vec<SearchRow> = Vec::new();
    let mut j: usize = 0;
    while j < n
        invariant
            n == rows@.len(),
            idx@.len() == n,
            j <= n,
            forall|t: int| 0 <= t < idx@.len() ==> #[trigger] idx@[t] < n,
            sorted@ == picked(rows@, idx@).take(j as int),
        decreases n - j,
    {
        sorted.push(copy_row(&rows[idx[j]]));
        assert(sorted@ =~= picked(rows@, idx@).take(j + 1));
        j += 1;
    }
    assert(picked(rows@, idx@).take(n as int) =~= picked(rows@, idx@));
    *rows = sorted;
}

/// The first `limit` ids when the limit is a non-negative count, else all.
pub open spec fn limited(ids: Seq<i64>, limit: Option<i64>) -> Seq<i64> {
    match limit {
        Some(n) => if n >= 0 && n < ids.len() {
            ids.take(n as int)
        } else {
            ids
        },
        None => ids,
    }
}

/// The track ids of the fallback's ordered rows, cut to the playlist's
/// limit (a negative limit means none).
pub fn limited_ids(rows: &[SearchRow], limit: Option<i64>) -> (r: Vec<i64>)
    ensures
        r@ == limited(rows@.map_values(|x: SearchRow| x.track_id), limit),
{
    let ghost all = rows@.map_values(|x: SearchRow| x.track_id);
    let n = rows.len();
    let cut: usize = match limit {
        Some(l) => if l >= 0 && (l as u64) < (n as u64) {
            l as usize
        } else {
            n
        },
        None => n,
    };
    let mut ids: Vec<i64> = Vec::new();
    let mut i: usize = 0;
    while i < cut
        invariant
            n == rows@.len(),
            cut <= n,
            i <= cut,
            all == rows@.map_values(|x: SearchRow| x.track_id),
            ids@ == all.take(i as int),
        decreases cut - i,
    {
        ids.push(rows[i].track_id);
        assert(ids@ =~= all.take(i + 1));
        i += 1;
    }
    assert(all.take(n as int) =~= all);
    ids
}

/// The fallback's playlist: the matched rows put in the playlist's order,
/// their track ids cut to its limit.
pub fn fallback_ids(rows: Vec<SearchRow>, order: PlaylistOrder, limit: Option<i64>) -> (r: Vec<i64>)
    ensures
        r@ == limited(ordered(rows@, order).map_values(|x: SearchRow| x.track_id), limit),
{
    let mut rows = rows;
    sort_search_rows(&mut rows, order);
    limited_ids(rows.as_slice(), limit)
}

/// The order a smart-playlist dialog's order picker selects: 1 Rating,
/// 2 Last played, 3 Title, 4 Artist, anything else Added.
pub open spec fn order_at(index: u32) -> PlaylistOrder {
    if index == 1 {
        PlaylistOrder::Rating
    } else if index == 2 {
        PlaylistOrder::LastPlayed
    } else if index == 3 {
        PlaylistOrder::Title
    } else if index == 4 {
        PlaylistOrder::Artist
    } else {
        PlaylistOrder::Added
    }
}

/// A new smart playlist as the dialog describes it.
#[derive(Debug)]
pub struct SmartPlaylistDraft {
    pub name: String,
    pub query: String,
    pub limit: Option<i64>,
    pub order: PlaylistOrder,
}

/// The limit a limit entry sets: a positive whole number, else none.
pub open spec fn limit_of(text: Seq<char>) -> Option<i64> {
    match i64_value(trimmed(text)) {
        Some(n) => if n > 0 {
            Some(n)
        } else {
            None
        },
        None => None,
    }
}

/// Read the new-smart-playlist dialog: the trimmed name and query (both
/// required; nothing is created without them), the limit when the entry
/// holds a positive whole number, and the picked order.
pub fn smart_playlist_form(name: &str, query: &str, limit: &str, order_index: u32) -> (r: Option<
    SmartPlaylistDraft,
>)
    ensures
        r is None <==> (trimmed(name@).len() == 0 || trimmed(query@).len() == 0),
        r matches Some(d) ==> {
            &&& d.name@ == trimmed(name@)
            &&& d.query@ == trimmed(query@)
            &&& d.limit == limit_of(limit@)
            &&& d.order == order_at(order_index)
        },
{
    let name = trim_text(name);
    let query = trim_text(query);
    if name.as_str().is_empty() || query.as_str().is_empty() {
        return None;
    }
    let limit = match parse_i64(trim_text(limit).as_str()) {
        Some(n) => if n > 0 {
            Some(n)
        } else {
            None
        },
        None => None,
    };
    let order = match order_index {
        1 => PlaylistOrder::Rating,
        2 => PlaylistOrder::LastPlayed,
        3 => PlaylistOrder::Title,
        4 => PlaylistOrder::Artist,
        _ => PlaylistOrder::Added,
    };
    Some(SmartPlaylistDraft { name, query, limit, order })
}

} // verus!
