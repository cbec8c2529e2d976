//! Building a play queue from the browse list, and the drag-and-drop reorder
//! position of the queue drawer.
//!
//! Double-clicking a track plays the visible leaf list from that row: the
//! caller hands the ordered track ids, the activated index and the ids of the
//! track rows it batch-read, and gets back which rows to queue, in display
//! order, plus the start index, adjusted for any track that vanished between
//! the read and the build.
use std::collections::HashMap;

use vstd::prelude::*;
use vstd::string::StringExecFns;

use crate::media::MediaKind;
use crate::text::{chars_of, clock, push_char, push_clock};

verus! {

broadcast use vstd::std_specs::hash::group_hash_axioms;

/// The last position of `x` in `s`, if any.
pub open spec fn last_index_of(s: Seq<i64>, x: i64) -> Option<int>
    decreases s.len(),
{
    if s.len() == 0 {
        None
    } else if s.last() == x {
        Some(s.len() - 1)
    } else {
        last_index_of(s.drop_last(), x)
    }
}

/// The first position of `x` in `s`, if any.
pub open spec fn first_index_of(s: Seq<i64>, x: i64) -> Option<int>
    decreases s.len(),
{
    if s.len() == 0 {
        None
    } else {
        match first_index_of(s.drop_last(), x) {
            Some(i) => Some(i),
            None => if s.last() == x {
                Some(s.len() - 1)
            } else {
                None
            },
        }
    }
}

/// For each id of `ordered` that some row carries, in display order, the
/// row that carries it (the last such row, as a map keyed by id keeps the
/// last row it was given).
pub open spec fn queue_rows(ordered: Seq<i64>, row_ids: Seq<i64>) -> Seq<int>
    decreases ordered.len(),
{
    if ordered.len() == 0 {
        Seq::empty()
    } else {
        let rest = queue_rows(ordered.drop_last(), row_ids);
        match last_index_of(row_ids, ordered.last()) {
            Some(i) => rest.push(i),
            None => rest,
        }
    }
}

/// The ids the queued rows carry, in queue order.
pub open spec fn queued_ids(rows: Seq<int>, row_ids: Seq<i64>) -> Seq<i64> {
    rows.map_values(|i: int| row_ids[i])
}

/// The start of the queue: the item of the activated id, else the first.
pub open spec fn start_of(ids: Seq<i64>, activated: Option<i64>) -> int {
    match activated {
        Some(id) => match first_index_of(ids, id) {
            Some(p) => p,
            None => 0,
        },
        None => 0,
    }
}

/// The element of `s` at `i`, when `i` is in range.
pub open spec fn at(s: Seq<i64>, i: int) -> Option<i64> {
    if 0 <= i < s.len() {
        Some(s[i])
    } else {
        None
    }
}

proof fn lemma_last_index_in_range(s: Seq<i64>, x: i64)
    ensures
        match last_index_of(s, x) {
            Some(i) => 0 <= i < s.len() && s[i] == x,
            None => !s.contains(x),
        },
    decreases s.len(),
{
    if s.len() > 0 {
        lemma_last_index_in_range(s.drop_last(), x);
        if s.last() != x {
            if s.contains(x) {
                let k = choose|k: int| 0 <= k < s.len() && s[k] == x;
                assert(s.drop_last()[k] == x);
            }
        }
    }
}

proof fn lemma_first_index_in_range(s: Seq<i64>, x: i64)
    ensures
        match first_index_of(s, x) {
            Some(i) => 0 <= i < s.len() && s[i] == x && forall|j: int| 0 <= j < i ==> s[j] != x,
            None => !s.contains(x),
        },
    decreases s.len(),
{
    if s.len() > 0 {
        let d = s.drop_last();
        lemma_first_index_in_range(d, x);
        match first_index_of(d, x) {
            Some(i) => {
                assert forall|j: int| 0 <= j < i implies s[j] != x by {
                    assert(d[j] == s[j]);
                }
            },
            None => {
                assert forall|j: int| 0 <= j < s.len() - 1 implies s[j] != x by {
                    assert(d[j] == s[j]);
                    if s[j] == x {
                        assert(d.contains(x));
                    }
                }
                if s.contains(x) {
                    let k = choose|k: int| 0 <= k < s.len() && s[k] == x;
                    assert(k == s.len() - 1);
                }
            },
        }
    }
}

proof fn lemma_queue_rows_in_range(ordered: Seq<i64>, row_ids: Seq<i64>)
    ensures
        forall|k: int|
            0 <= k < queue_rows(ordered, row_ids).len() ==> 0 <= #[trigger] queue_rows(
                ordered,
                row_ids,
            )[k] < row_ids.len(),
        queue_rows(ordered, row_ids).len() <= ordered.len(),
    decreases ordered.len(),
{
    if ordered.len() > 0 {
        lemma_queue_rows_in_range(ordered.drop_last(), row_ids);
        lemma_last_index_in_range(row_ids, ordered.last());
    }
}

proof fn lemma_last_index_take(s: Seq<i64>, i: int, x: i64)
    requires
        0 <= i < s.len(),
    ensures
        last_index_of(s.take(i + 1), x) == (if s[i] == x {
            Some(i)
        } else {
            last_index_of(s.take(i), x)
        }),
{
    assert(s.take(i + 1).drop_last() =~= s.take(i));
}

/// The first queue position whose row carries `id`.
fn first_queued(items: &Vec<usize>, row_ids: &[i64], id: i64) -> (r: Option<usize>)
    requires
        forall|t: int| 0 <= t < items@.len() ==> (#[trigger] items@[t]) < row_ids@.len(),
    ensures
        match r {
            Some(p) => first_index_of(
                queued_ids(items@.map_values(|i: usize| i as int), row_ids@),
                id,
            ) == Some(p as int),
            None => first_index_of(
                queued_ids(items@.map_values(|i: usize| i as int), row_ids@),
                id,
            ) is None,
        },
{
    let ghost qids = queued_ids(items@.map_values(|i: usize| i as int), row_ids@);
    proof {
        lemma_first_index_in_range(qids, id);
    }
    let q = items.len();
    let mut k: usize = 0;
    while k < q
        invariant
            q == items@.len(),
            k <= q,
            qids == queued_ids(items@.map_values(|i: usize| i as int), row_ids@),
            forall|t: int| 0 <= t < q ==> (#[trigger] items@[t]) < row_ids@.len(),
            forall|t: int| 0 <= t < k ==> #[trigger] qids[t] != id,
        decreases q - k,
    {
        assert(qids[k as int] == row_ids@[items@[k as int] as int]);
        if row_ids[items[k]] == id {
            proof {
                assert(qids[k as int] == id);
                lemma_first_index_in_range(qids, id);
                match first_index_of(qids, id) {
                    Some(f) => {
                        assert(qids[f] == id);
                        assert(f >= k);
                        assert(!(f > k));
                    },
                    None => {
                        assert(qids.contains(id));
                    },
                }
            }
            return Some(k);
        }
        k += 1;
    }
    proof {
        if first_index_of(qids, id) is Some {
            let f = first_index_of(qids, id)->0;
            assert(qids[f] == id);
        }
    }
    None
}

/// Build the play queue from the visible list: which of the fetched rows to
/// queue, in the display order of `ordered_ids`, and the start index.
///
/// `ordered_ids` is the leaf in display order; `activated` is the row the user
/// double-clicked; `row_ids` are the ids of the rows fetched for those ids (any
/// order, some may be missing). Each returned number is a position in
/// `row_ids`; ids with no row are skipped. The start points at the activated
/// track's item, or 0 if it vanished.
pub fn queue_positions(ordered_ids: &[i64], activated: usize, row_ids: &[i64]) -> (r: (
    Vec<usize>,
    usize,
))
    ensures
        r.0@.map_values(|i: usize| i as int) == queue_rows(ordered_ids@, row_ids@),
        r.1 == start_of(
            queued_ids(queue_rows(ordered_ids@, row_ids@), row_ids@),
            at(ordered_ids@, activated as int),
        ),
        r.0@.len() > 0 ==> r.1 < r.0@.len(),
{
    let mut by_id: HashMap<i64, usize> = HashMap::new();
    let m = row_ids.len();
    let mut i: usize = 0;
    while i < m
        invariant
            m == row_ids@.len(),
            i <= m,
            forall|x: i64| #[trigger]
                by_id@.contains_key(x) <==> last_index_of(row_ids@.take(i as int), x) is Some,
            forall|x: i64|
                #[trigger] by_id@.contains_key(x) ==> by_id@[x] as int == last_index_of(
                    row_ids@.take(i as int),
                    x,
                )->0,
        decreases m - i,
    {
        by_id.insert(row_ids[i], i);
        proof {
            assert forall|x: i64| #[trigger]
                by_id@.contains_key(x) <==> last_index_of(
                    row_ids@.take(i + 1),
                    x,
                ) is Some by {
                lemma_last_index_take(row_ids@, i as int, x);
            }
            assert forall|x: i64| #[trigger]
                by_id@.contains_key(x) implies by_id@[x] as int == last_index_of(
                    row_ids@.take(i + 1),
                    x,
                )->0 by {
                lemma_last_index_take(row_ids@, i as int, x);
            }
        }
        i += 1;
    }
    assert(row_ids@.take(m as int) =~= row_ids@);

    let ghost rows_spec = queue_rows(ordered_ids@, row_ids@);
    let mut items: Vec<usize> = Vec::new();
    let n = ordered_ids.len();
    let mut j: usize = 0;
    while j < n
        invariant
            n == ordered_ids@.len(),
            j <= n,
            forall|x: i64| #[trigger]
                by_id@.contains_key(x) <==> last_index_of(row_ids@, x) is Some,
            forall|x: i64|
                #[trigger] by_id@.contains_key(x) ==> by_id@[x] as int == last_index_of(
                    row_ids@,
                    x,
                )->0,
            items@.map_values(|i: usize| i as int) == queue_rows(
                ordered_ids@.take(j as int),
                row_ids@,
            ),
        decreases n - j,
    {
        let id = ordered_ids[j];
        assert(ordered_ids@.take(j + 1).drop_last() =~= ordered_ids@.take(j as int));
        let ghost before = items@;
        match by_id.get(&id) {
            Some(k) => {
                items.push(*k);
                assert(items@.map_values(|i: usize| i as int) =~= before.map_values(
                    |i: usize| i as int,
                ).push(*k as int));
            },
            None => {},
        }
        j += 1;
    }
    assert(ordered_ids@.take(n as int) =~= ordered_ids@);
    proof {
        lemma_queue_rows_in_range(ordered_ids@, row_ids@);
    }

    let activated_id: Option<i64> = if activated < n {
        Some(ordered_ids[activated])
    } else {
        None
    };
    proof {
        assert forall|t: int| 0 <= t < items@.len() implies (#[trigger] items@[t]) < row_ids@.len() by {
            assert(items@.map_values(|i: usize| i as int)[t] == items@[t] as int);
        }
    }
    let start: usize = match activated_id {
        Some(aid) => match first_queued(&items, row_ids, aid) {
            Some(p) => p,
            None => 0,
        },
        None => 0,
    };
    proof {
        let qids = queued_ids(rows_spec, row_ids@);
        assert(qids.len() == items@.len());
        if let Some(aid) = activated_id {
            lemma_first_index_in_range(qids, aid);
        }
    }
    (items, start)
}

/// A queued episode's playable source: a downloaded file (relative to the
/// library root) or a stream URL.
#[derive(Debug, Clone)]
pub struct EpisodeSource {
    pub id: i64,
    pub audio_path: Option<String>,
    pub audio_url: Option<String>,
}

/// Where a queued episode plays from.
#[derive(Debug, Clone)]
pub enum EpisodeOrigin {
    /// The downloaded file, relative to the library root.
    Local(String),
    /// The enclosure URL, streamed as-is.
    Stream(String),
}

/// One playable episode of a queue.
#[derive(Debug, Clone)]
pub struct EpisodeItem {
    pub id: i64,
    pub origin: EpisodeOrigin,
}

/// An episode item as plain values: its id, whether it plays a local file,
/// and the path or URL it plays.
pub open spec fn item_view(item: EpisodeItem) -> (i64, bool, Seq<char>) {
    match item.origin {
        EpisodeOrigin::Local(p) => (item.id, true, p@),
        EpisodeOrigin::Stream(u) => (item.id, false, u@),
    }
}

/// What an episode plays from: its local file when it has one, else its URL,
/// else nothing.
pub open spec fn episode_pick(e: EpisodeSource) -> Option<(i64, bool, Seq<char>)> {
    match e.audio_path {
        Some(p) => Some((e.id, true, p@)),
        None => match e.audio_url {
            Some(u) => Some((e.id, false, u@)),
            None => None,
        },
    }
}

/// The playable episodes of `ordered`, in order; episodes with no source are
/// skipped.
pub open spec fn episode_items(ordered: Seq<EpisodeSource>) -> Seq<(i64, bool, Seq<char>)>
    decreases ordered.len(),
{
    if ordered.len() == 0 {
        Seq::empty()
    } else {
        let rest = episode_items(ordered.drop_last());
        match episode_pick(ordered.last()) {
            Some(v) => rest.push(v),
            None => rest,
        }
    }
}

/// The ids of a list of episode items.
pub open spec fn item_ids(items: Seq<(i64, bool, Seq<char>)>) -> Seq<i64> {
    items.map_values(|v: (i64, bool, Seq<char>)| v.0)
}

fn clone_text(s: &String) -> (r: String)
    ensures
        r@ == s@,
{
    s.clone()
}

/// Build a play queue from a list of episodes. Each episode plays its
/// downloaded file when present, else its stream URL; episodes with neither
/// are skipped, and the start re-indexes past any skip, pointing at the
/// activated episode (or 0).
pub fn episode_sources(ordered: &[EpisodeSource], activated: usize) -> (r: (
    Vec<EpisodeItem>,
    usize,
))
    ensures
        r.0@.map_values(|it: EpisodeItem| item_view(it)) == episode_items(ordered@),
        r.1 == start_of(
            item_ids(episode_items(ordered@)),
            if activated < ordered@.len() {
                Some(ordered@[activated as int].id)
            } else {
                None
            },
        ),
        r.0@.len() > 0 ==> r.1 < r.0@.len(),
{
    let n = ordered.len();
    let mut items: Vec<EpisodeItem> = Vec::new();
    let mut i: usize = 0;
    while i < n
        invariant
            n == ordered@.len(),
            i <= n,
            items@.map_values(|it: EpisodeItem| item_view(it)) == episode_items(
                ordered@.take(i as int),
            ),
        decreases n - i,
    {
        let e = &ordered[i];
        assert(ordered@.take(i + 1).drop_last() =~= ordered@.take(i as int));
        assert(ordered@.take(i + 1).last() == *e);
        let ghost before = items@;
        match &e.audio_path {
            Some(p) => {
                items.push(EpisodeItem { id: e.id, origin: EpisodeOrigin::Local(clone_text(p)) });
            },
            None => match &e.audio_url {
                Some(u) => {
                    items.push(
                        EpisodeItem { id: e.id, origin: EpisodeOrigin::Stream(clone_text(u)) },
                    );
                },
                None => {},
            },
        }
        assert(items@.map_values(|it: EpisodeItem| item_view(it)) =~= episode_items(
            ordered@.take(i + 1),
        ));
        i += 1;
    }
    assert(ordered@.take(n as int) =~= ordered@);
    let ghost ids = item_ids(episode_items(ordered@));
    assert(ids.len() == items@.len());
    assert forall|t: int| 0 <= t < items@.len() implies #[trigger] ids[t] == items@[t].id by {
        assert(items@.map_values(|it: EpisodeItem| item_view(it))[t] == item_view(items@[t]));
    }
    let mut start: usize = 0;
    if activated < n {
        let aid = ordered[activated].id;
        proof {
            lemma_first_index_in_range(ids, aid);
        }
        let q = items.len();
        let mut k: usize = 0;
        while k < q
            invariant
                q == items@.len(),
                ids.len() == q,
                k <= q,
                n == ordered@.len(),
                activated < n,
                aid == ordered@[activated as int].id,
                items@.map_values(|it: EpisodeItem| item_view(it)) == episode_items(ordered@),
                ids == item_ids(episode_items(ordered@)),
                forall|t: int| 0 <= t < q ==> #[trigger] ids[t] == items@[t].id,
                forall|t: int| 0 <= t < k ==> #[trigger] ids[t] != aid,
                start == 0,
            decreases q - k,
        {
            if items[k].id == aid {
                proof {
                    assert(ids[k as int] == aid);
                    lemma_first_index_in_range(ids, aid);
                    match first_index_of(ids, aid) {
                        Some(f) => {
                            assert(ids[f] == aid);
                            assert(f == k);
                        },
                        None => {
                            assert(ids.contains(aid));
                        },
                    }
                }
                return (items, k);
            }
            k += 1;
        }
        proof {
            lemma_first_index_in_range(ids, aid);
            if first_index_of(ids, aid) is Some {
                let f = first_index_of(ids, aid)->0;
                assert(ids[f] == aid);
            }
        }
    }
    (items, start)
}

/// A relative path joined onto a root the way `Path::join` does with `/`
/// separators: an absolute path (starting with `/`) replaces the root;
/// otherwise a `/` goes between them unless the root is empty or already
/// ends with one.
pub open spec fn joined(root: Seq<char>, rel: Seq<char>) -> Seq<char> {
    if rel.len() > 0 && rel[0] == '/' {
        rel
    } else if root.len() == 0 || root.last() == '/' {
        root + rel
    } else {
        root + seq!['/'] + rel
    }
}

/// Join a library-relative path onto the library root (`root/rel`); an
/// absolute path stands as it is.
pub fn join_root(root: &str, rel: &str) -> (r: String)
    ensures
        r@ == joined(root@, rel@),
{
    let rc = chars_of(rel);
    if rc.len() > 0 && rc[0] == '/' {
        return String::from_str(rel);
    }
    let oc = chars_of(root);
    let mut s = String::from_str(root);
    if !(oc.len() == 0 || oc[oc.len() - 1] == '/') {
        push_char(&mut s, '/');
    }
    s.append(rel);
    proof {
        if oc@.len() > 0 {
            assert(oc@.last() == oc@[oc@.len() - 1]);
        }
    }
    s
}

/// A playable item of the queue: its id (a track id, or an episode id), the
/// absolute file path or stream URL it plays, and its kind.
#[derive(Debug, Clone)]
pub struct PlayItem {
    pub id: i64,
    pub source: String,
    pub kind: MediaKind,
}

/// A play item as plain values.
pub open spec fn play_view(it: PlayItem) -> (i64, Seq<char>, MediaKind) {
    (it.id, it.source@, it.kind)
}

/// The ids of fetched track rows.
pub open spec fn row_ids_of(rows: Seq<(i64, String)>) -> Seq<i64> {
    rows.map_values(|r: (i64, String)| r.0)
}

/// The track items for the queued row positions: each row's id, its file
/// joined onto the root, and the track kind.
pub open spec fn track_items(rows: Seq<(i64, String)>, positions: Seq<int>, root: Seq<char>) -> Seq<
    (i64, Seq<char>, MediaKind),
> {
    positions.map_values(|p: int| (rows[p].0, joined(root, rows[p].1@), MediaKind::Track))
}

/// Build a play queue from the browse list: `ordered_ids` is the leaf in
/// display order, `activated` the row the user double-clicked, `rows` the
/// `(id, file path relative to the library root)` of the tracks fetched for
/// those ids (any order, some may be missing). Each queued item plays its
/// file joined onto `root`, in display order; ids with no row are skipped.
/// The start points at the activated track's item, or 0 if it vanished.
pub fn build_play_queue(ordered_ids: &[i64], activated: usize, rows: &[(i64, String)], root: &str) -> (r: (
    Vec<PlayItem>,
    usize,
))
    ensures
        r.0@.map_values(|it: PlayItem| play_view(it)) == track_items(
            rows@,
            queue_rows(ordered_ids@, row_ids_of(rows@)),
            root@,
        ),
        r.1 == start_of(
            queued_ids(queue_rows(ordered_ids@, row_ids_of(rows@)), row_ids_of(rows@)),
            at(ordered_ids@, activated as int),
        ),
        r.0@.len() > 0 ==> r.1 < r.0@.len(),
{
    let mut ids: Vec<i64> = Vec::new();
    let m = rows.len();
    let mut k: usize = 0;
    while k < m
        invariant
            m == rows@.len(),
            k <= m,
            ids@ == row_ids_of(rows@).take(k as int),
        decreases m - k,
    {
        ids.push(rows[k].0);
        assert(ids@ =~= row_ids_of(rows@).take(k + 1));
        k += 1;
    }
    assert(ids@ =~= row_ids_of(rows@));
    let (pos, start) = queue_positions(ordered_ids, activated, &ids);
    proof {
        lemma_queue_rows_in_range(ordered_ids@, ids@);
    }
    let ghost qr = queue_rows(ordered_ids@, ids@);
    let n = pos.len();
    let mut items: Vec<PlayItem> = Vec::new();
    let mut j: usize = 0;
    while j < n
        invariant
            n == pos@.len(),
            j <= n,
            m == rows@.len(),
            pos@.map_values(|i: usize| i as int) == qr,
            forall|t: int| 0 <= t < qr.len() ==> 0 <= #[trigger] qr[t] < m,
            items@.map_values(|it: PlayItem| play_view(it)) == track_items(
                rows@,
                qr.take(j as int),
                root@,
            ),
        decreases n - j,
    {
        let p = pos[j];
        assert(qr[j as int] == p as int);
        let it = PlayItem { id: rows[p].0, source: join_root(root, rows[p].1.as_str()), kind: MediaKind::Track };
        let ghost before = items@;
        items.push(it);
        assert(qr.take(j + 1) =~= qr.take(j as int).push(p as int));
        assert(items@.map_values(|it: PlayItem| play_view(it)) =~= before.map_values(
            |it: PlayItem| play_view(it),
        ).push(play_view(it)));
        assert(items@.map_values(|it: PlayItem| play_view(it)) =~= track_items(
            rows@,
            qr.take(j + 1),
            root@,
        ));
        j += 1;
    }
    assert(qr.take(n as int) =~= qr);
    (items, start)
}

/// What a queued episode plays: its file joined onto the root when it is
/// downloaded, else its stream URL.
pub open spec fn episode_play(root: Seq<char>, v: (i64, bool, Seq<char>)) -> (i64, Seq<char>, MediaKind) {
    (v.0, if v.1 { joined(root, v.2) } else { v.2 }, MediaKind::Episode)
}

/// Build a play queue from a list of episodes. Each episode plays its
/// downloaded file (joined onto `root`) when present, else its stream URL;
/// episodes with neither are skipped, and the start re-indexes past any skip,
/// pointing at the activated episode (or 0).
pub fn build_episode_queue(ordered: &[EpisodeSource], activated: usize, root: &str) -> (r: (
    Vec<PlayItem>,
    usize,
))
    ensures
        r.0@.map_values(|it: PlayItem| play_view(it)) == episode_items(ordered@).map_values(
            |v: (i64, bool, Seq<char>)| episode_play(root@, v),
        ),
        r.1 == start_of(
            item_ids(episode_items(ordered@)),
            if activated < ordered@.len() {
                Some(ordered@[activated as int].id)
            } else {
                None
            },
        ),
        r.0@.len() > 0 ==> r.1 < r.0@.len(),
{
    let (srcs, start) = episode_sources(ordered, activated);
    let ghost ev = episode_items(ordered@);
    let n = srcs.len();
    let mut items: Vec<PlayItem> = Vec::new();
    let mut j: usize = 0;
    while j < n
        invariant
            n == srcs@.len(),
            j <= n,
            srcs@.map_values(|it: EpisodeItem| item_view(it)) == ev,
            items@.map_values(|it: PlayItem| play_view(it)) == ev.take(j as int).map_values(
                |v: (i64, bool, Seq<char>)| episode_play(root@, v),
            ),
        decreases n - j,
    {
        let e = &srcs[j];
        assert(ev[j as int] == item_view(*e));
        let it = match &e.origin {
            EpisodeOrigin::Local(p) => PlayItem { id: e.id, source: join_root(root, p.as_str()), kind: MediaKind::Episode },
            EpisodeOrigin::Stream(u) => PlayItem { id: e.id, source: clone_text(u), kind: MediaKind::Episode },
        };
        let ghost before = items@;
        items.push(it);
        assert(ev.take(j + 1) =~= ev.take(j as int).push(ev[j as int]));
        assert(items@.map_values(|it: PlayItem| play_view(it)) =~= before.map_values(
            |it: PlayItem| play_view(it),
        ).push(play_view(it)));
        assert(items@.map_values(|it: PlayItem| play_view(it)) =~= ev.take(j + 1).map_values(
            |v: (i64, bool, Seq<char>)| episode_play(root@, v),
        ));
        j += 1;
    }
    assert(ev.take(n as int) =~= ev);
    (items, start)
}

/// Which side of the drop-target row the dragged row lands on (from the cursor
/// Y against the row's mid-height).
#[derive(Debug, Clone, Copy, PartialEq, Eq, Structural)]
pub enum DropBias {
    Above,
    Below,
}

/// The final position of the item at `from` dropped onto the row at `dest`
/// with `bias`, in a queue of `count` items, for a reorder that removes the
/// item at `from` and then inserts it at the result; clamped into range.
pub open spec fn drop_target(from: int, dest: int, bias: DropBias, count: int) -> int {
    let after_removal = if from < dest {
        dest - 1
    } else {
        dest
    };
    let to = match bias {
        DropBias::Above => after_removal,
        DropBias::Below => after_removal + 1,
    };
    let last = if count > 0 {
        count - 1
    } else {
        0
    };
    if to < last {
        to
    } else {
        last
    }
}

/// The final queue position for a drag-and-drop reorder: the item at `from`
/// dropped onto the row at `dest` with `bias`, in a queue of `count` items. The
/// result is the `to` of a reorder that removes the item at `from` then inserts
/// it at `to`, clamped into range.
pub fn drop_target_position(from: usize, dest: usize, bias: DropBias, count: usize) -> (r: usize)
    requires
        bias == DropBias::Below && from >= dest ==> dest < usize::MAX,
    ensures
        r == drop_target(from as int, dest as int, bias, count as int),
{
    let dest_prime = if from < dest {
        dest - 1
    } else {
        dest
    };
    let to = match bias {
        DropBias::Above => dest_prime,
        DropBias::Below => dest_prime + 1,
    };
    let last = if count > 0 {
        count - 1
    } else {
        0
    };
    if to < last {
        to
    } else {
        last
    }
}

/// The queue after the reorder that removes the item at `from` and inserts it
/// at `to`.
pub open spec fn moved<A>(q: Seq<A>, from: int, to: int) -> Seq<A> {
    q.remove(from).insert(to, q[from])
}

/// Dropping one queue item onto another lands it right beside its target:
/// just before the target row when dropped above it, just after when dropped
/// below it, with the result always a valid position.
pub proof fn law_drop_lands_beside_target<A>(q: Seq<A>, from: int, dest: int, bias: DropBias)
    requires
        0 <= from < q.len(),
        0 <= dest < q.len(),
        from != dest,
    ensures
        ({
            let to = drop_target(from, dest, bias, q.len() as int);
            let r = moved(q, from, to);
            &&& 0 <= to < q.len()
            &&& r.len() == q.len()
            &&& r[to] == q[from]
            &&& bias == DropBias::Above ==> to + 1 < q.len() && r[to + 1] == q[dest]
            &&& bias == DropBias::Below ==> to >= 1 && r[to - 1] == q[dest]
        }),
{
    let to = drop_target(from, dest, bias, q.len() as int);
    let rm = q.remove(from);
    let r = moved(q, from, to);
    assert(0 <= to < q.len());
    assert(r[to] == q[from]);
    if from < dest {
        assert(rm[dest - 1] == q[dest]);
        if bias == DropBias::Above {
            assert(r[to + 1] == rm[to]);
        } else {
            assert(r[to - 1] == rm[to - 1]);
        }
    } else {
        assert(rm[dest] == q[dest]);
        if bias == DropBias::Above {
            assert(r[to + 1] == rm[to]);
        } else {
            assert(r[to - 1] == rm[to - 1]);
        }
    }
}

/// Format `total` whole seconds as `m:ss` (e.g. `3:07`).
pub fn fmt_secs(total: u64) -> (r: String)
    ensures
        r@ == clock(total as nat),
{
    let mut s = String::new();
    push_clock(&mut s, total);
    assert(s@ =~= clock(total as nat));
    s
}

/// `position / duration` for the Now-bar, e.g. `1:12 / 3:40`, in whole
/// seconds; an unknown duration shows just the position.
pub fn fmt_position(position: u64, duration: Option<u64>) -> (r: String)
    ensures
        r@ == match duration {
            Some(d) => clock(position as nat) + " / "@ + clock(d as nat),
            None => clock(position as nat),
        },
{
    let mut s = fmt_secs(position);
    if let Some(d) = duration {
        s.append(" / ");
        push_clock(&mut s, d);
    }
    s
}

} // verus!
