//! Filter-bar narrowing: the facet panes pick the browse set, the search
//! grammar picks which of its tracks match, and the leaf shows the
//! intersection in the browse order (the grammar only removes rows). The
//! grammar's evaluation belongs to the search layer; this joins its answer
//! to the browse set.
use std::collections::HashSet;

use vstd::prelude::*;
use vstd::string::StringExecFns;

use crate::text::{join, join_strings, trim_text, trimmed, views};

verus! {

broadcast use vstd::std_specs::hash::group_hash_axioms;

/// The positions of `ids` whose id is in `matched`, in order.
pub open spec fn kept_positions(ids: Seq<i64>, matched: Set<i64>) -> Seq<int>
    decreases ids.len(),
{
    if ids.len() == 0 {
        Seq::empty()
    } else {
        let r = kept_positions(ids.drop_last(), matched);
        if matched.contains(ids.last()) {
            r.push(ids.len() - 1)
        } else {
            r
        }
    }
}

/// The rows a filter-bar query leaves of the browse set: all of them for a
/// blank query, else those whose id matched.
pub open spec fn narrowed(ids: Seq<i64>, query: Seq<char>, matched: Set<i64>) -> Seq<int> {
    if trimmed(query).len() == 0 {
        Seq::new(ids.len(), |i: int| i)
    } else {
        kept_positions(ids, matched)
    }
}

/// Narrow the browse set (`leaf_ids`, in browse order) by the filter-bar
/// `query`, given the ids the query matched: the positions of the rows to
/// show, in browse order. A blank query shows the whole browse set.
pub fn narrow_leaf(leaf_ids: &[i64], query: &str, matched: &[i64]) -> (r: Vec<usize>)
    ensures
        r@.map_values(|p: usize| p as int) == narrowed(leaf_ids@, query@, matched@.to_set()),
{
    let n = leaf_ids.len();
    let mut out: Vec<usize> = Vec::new();
    if trim_text(query).as_str().is_empty() {
        let mut i: usize = 0;
        while i < n
            invariant
                i <= n,
                out@.map_values(|p: usize| p as int) == Seq::new(i as nat, |k: int| k),
            decreases n - i,
        {
            let ghost before = out@;
            out.push(i);
            assert(out@ == before.push(i));
            assert(out@.map_values(|p: usize| p as int) =~= before.map_values(|p: usize| p as int).push(
                i as int,
            ));
            assert(out@.map_values(|p: usize| p as int) =~= Seq::new((i + 1) as nat, |k: int| k));
            i += 1;
        }
        return out;
    }
    let mut set: HashSet<i64> = HashSet::new();
    let m = matched.len();
    let mut j: usize = 0;
    while j < m
        invariant
            m == matched@.len(),
            j <= m,
            set@ == matched@.take(j as int).to_set(),
        decreases m - j,
    {
        set.insert(matched[j]);
        assert(matched@.take(j + 1) =~= matched@.take(j as int) + seq![matched@[j as int]]);
        proof {
            Seq::<i64>::lemma_to_set_insert_commutes(matched@.take(j as int), matched@[j as int]);
        }
        assert(set@ =~= matched@.take(j + 1).to_set());
        j += 1;
    }
    assert(matched@.take(m as int) =~= matched@);
    let mut i: usize = 0;
    while i < n
        invariant
            n == leaf_ids@.len(),
            i <= n,
            set@ == matched@.to_set(),
            out@.map_values(|p: usize| p as int) == kept_positions(
                leaf_ids@.take(i as int),
                matched@.to_set(),
            ),
        decreases n - i,
    {
        assert(leaf_ids@.take(i + 1).drop_last() =~= leaf_ids@.take(i as int));
        assert(leaf_ids@.take(i + 1).last() == leaf_ids@[i as int]);
        if set.contains(&leaf_ids[i]) {
            let ghost before = out@;
            out.push(i);
            assert(out@ == before.push(i));
            assert(out@.map_values(|p: usize| p as int) =~= kept_positions(
                leaf_ids@.take(i as int),
                matched@.to_set(),
            ).push(i as int));
        }
        i += 1;
    }
    assert(leaf_ids@.take(n as int) =~= leaf_ids@);
    out
}

/// Narrowing only removes rows: the kept positions rise strictly, and every
/// kept row's id is one the query matched.
pub proof fn law_narrowing_keeps_browse_order(ids: Seq<i64>, matched: Set<i64>)
    ensures
        forall|a: int, b: int|
            0 <= a < b < kept_positions(ids, matched).len() ==> #[trigger] kept_positions(
                ids,
                matched,
            )[a] < #[trigger] kept_positions(ids, matched)[b],
        forall|a: int|
            0 <= a < kept_positions(ids, matched).len() ==> {
                let p = #[trigger] kept_positions(ids, matched)[a];
                0 <= p < ids.len() && matched.contains(ids[p])
            },
    decreases ids.len(),
{
    if ids.len() > 0 {
        law_narrowing_keeps_browse_order(ids.drop_last(), matched);
        let r = kept_positions(ids.drop_last(), matched);
        assert forall|a: int| 0 <= a < r.len() implies #[trigger] r[a] < ids.len() - 1 && ids[r[a]]
            == ids.drop_last()[r[a]] by {}
    }
}

/// The filter bar's tooltip while the query is clean: the grammar at a
/// glance.
pub const FILTER_GRAMMAR_TIP: &'static str = "Search grammar: field:value with AND / OR / NOT.\nFields: artist: album: title: genre: shelfgenre: year: added: rating: bitrate: duration: format: is:played is:starred is:queued vl:Perspective\nExamples: genre:jazz rating:>=4 \u{b7} year:1990..1999 \u{b7} artist:~^aphex \u{b7} ambient NOT genre:rock sort:-added\nBare text searches title, artist, and album.";

/// Whether the leaf is narrowed by a constraint (filter text or a facet
/// selection) rather than showing the whole library: it picks the
/// empty-state wording.
pub fn leaf_is_filtered(query: &str, facet_filters: usize) -> (r: bool)
    ensures
        r == (trimmed(query@).len() > 0 || facet_filters > 0),
{
    !trim_text(query).as_str().is_empty() || facet_filters > 0
}

/// The filter bar's state after a query: tinted while the forgiving parser
/// reported warnings, whose lines then make the tooltip; otherwise the
/// grammar tip.
pub fn filter_tip(warnings: &Vec<String>) -> (r: (bool, String))
    ensures
        r.0 == (warnings@.len() > 0),
        r.1@ == (if warnings@.len() > 0 {
            join(views(warnings@), "\n"@)
        } else {
            FILTER_GRAMMAR_TIP@
        }),
{
    if warnings.len() > 0 {
        (true, join_strings(warnings, "\n"))
    } else {
        (false, String::from_str(FILTER_GRAMMAR_TIP))
    }
}

/// What an empty leaf says, as its icon, title and description: a
/// constrained view says nothing matched; an empty library invites an
/// import.
pub fn leaf_empty_copy(filtered: bool) -> (r: (&'static str, &'static str, &'static str))
    ensures
        r == (if filtered {
            ("system-search-symbolic", "No matches", "No tracks match the current filter.")
        } else {
            (
                "audio-x-generic-symbolic",
                "No tracks yet",
                "Drop music files or folders here to import them,\nor from a terminal:\nconservatory-cli import <library.db> <source folder> <library root>",
            )
        }),
{
    if filtered {
        ("system-search-symbolic", "No matches", "No tracks match the current filter.")
    } else {
        (
            "audio-x-generic-symbolic",
            "No tracks yet",
            "Drop music files or folders here to import them,\nor from a terminal:\nconservatory-cli import <library.db> <source folder> <library root>",
        )
    }
}

/// Narrowing keeps exactly the matched rows: a position is kept if and only
/// if it is a row of the browse set whose id the query matched (none is
/// dropped, none added).
pub proof fn law_narrowing_keeps_every_match(ids: Seq<i64>, matched: Set<i64>, p: int)
    ensures
        kept_positions(ids, matched).contains(p) <==> (0 <= p < ids.len() && matched.contains(
            ids[p],
        )),
    decreases ids.len(),
{
    if ids.len() > 0 {
        let d = ids.drop_last();
        let r = kept_positions(d, matched);
        law_narrowing_keeps_every_match(d, matched, p);
        law_narrowing_keeps_browse_order(d, matched);
        if 0 <= p < d.len() {
            assert(d[p] == ids[p]);
        }
        if r.contains(p) {
            let k = choose|k: int| 0 <= k < r.len() && r[k] == p;
            if matched.contains(ids.last()) {
                assert(r.push(ids.len() - 1)[k] == p);
            }
        }
        if matched.contains(ids.last()) {
            let r2 = r.push(ids.len() - 1);
            if r2.contains(p) {
                let k = choose|k: int| 0 <= k < r2.len() && r2[k] == p;
                if k < r.len() {
                    assert(r[k] == p);
                }
            }
            if p == ids.len() - 1 {
                assert(r2[r.len() as int] == p);
            }
        }
    }
}

} // verus!
