//! Audiobook shelf filtering support: the denormalized author / narrator
//! display strings are comma-joined in the read, so they split back into
//! the multi-valued names the search grammar matches per name.
use vstd::prelude::*;

use crate::text::{join, law_trim_idempotent, push_char, trim_text, trimmed, views};

verus! {

/// Whether `", "` starts at position `i` of `s`.
pub open spec fn sep_at(s: Seq<char>, i: int) -> bool {
    0 <= i && i + 1 < s.len() && s[i] == ',' && s[i + 1] == ' '
}

/// The first position from `i` on where `", "` starts.
pub open spec fn first_sep_from(s: Seq<char>, i: int) -> Option<int>
    decreases s.len() - i,
{
    if i < 0 || i + 1 >= s.len() {
        None
    } else if sep_at(s, i) {
        Some(i)
    } else {
        first_sep_from(s, i + 1)
    }
}

/// `str::split(", ")`: the pieces between the occurrences of `", "`, found
/// left to right without overlap.
pub open spec fn pieces(s: Seq<char>) -> Seq<Seq<char>>
    decreases s.len(),
{
    match first_sep_from(s, 0) {
        Some(i) => if 0 <= i && i + 2 <= s.len() {
            seq![s.take(i)] + pieces(s.skip(i + 2))
        } else {
            seq![s]
        },
        None => seq![s],
    }
}

/// The non-empty entries of `names`, in order.
pub open spec fn non_empty(names: Seq<Seq<char>>) -> Seq<Seq<char>>
    decreases names.len(),
{
    if names.len() == 0 {
        names
    } else if names.last().len() > 0 {
        non_empty(names.drop_last()).push(names.last())
    } else {
        non_empty(names.drop_last())
    }
}

/// The names of a `", "`-joined display string: each piece trimmed, the
/// empty ones dropped.
pub open spec fn people(s: Seq<char>) -> Seq<Seq<char>> {
    non_empty(pieces(s).map_values(|p: Seq<char>| trimmed(p)))
}

proof fn lemma_non_empty_add(a: Seq<Seq<char>>, b: Seq<Seq<char>>)
    ensures
        non_empty(a + b) == non_empty(a) + non_empty(b),
    decreases b.len(),
{
    if b.len() == 0 {
        assert(a + b =~= a);
        assert(non_empty(a) + non_empty(b) =~= non_empty(a));
    } else {
        lemma_non_empty_add(a, b.drop_last());
        assert((a + b).drop_last() =~= a + b.drop_last());
        if b.last().len() > 0 {
            assert(non_empty(a + b) =~= non_empty(a) + non_empty(b));
        }
    }
}

proof fn lemma_non_empty_single(x: Seq<char>)
    ensures
        non_empty(seq![x]) == (if x.len() > 0 {
            seq![x]
        } else {
            Seq::<Seq<char>>::empty()
        }),
{
    let one = seq![x];
    assert(one.drop_last() =~= Seq::<Seq<char>>::empty());
    assert(one.last() == x);
    assert(non_empty(one.drop_last()) =~= Seq::<Seq<char>>::empty());
    if x.len() > 0 {
        assert(Seq::<Seq<char>>::empty().push(x) =~= one);
    }
}

proof fn lemma_first_sep_skip(t: Seq<char>, j: int)
    requires
        0 <= j,
        forall|q: int| 0 <= q < j ==> !sep_at(t, q),
    ensures
        first_sep_from(t, 0) == first_sep_from(t, j),
    decreases j,
{
    if j > 0 {
        lemma_first_sep_skip(t, j - 1);
        if j - 1 + 1 < t.len() {
            assert(!sep_at(t, j - 1));
        }
    }
}

proof fn lemma_first_sep_from_range(t: Seq<char>, i: int)
    requires
        0 <= i,
    ensures
        match first_sep_from(t, i) {
            Some(k) => i <= k && sep_at(t, k),
            None => forall|q: int| i <= q ==> !sep_at(t, q),
        },
    decreases t.len() - i,
{
    if i + 1 < t.len() && !sep_at(t, i) {
        lemma_first_sep_from_range(t, i + 1);
    }
}

fn text_of(cs: &Vec<char>, a: usize, b: usize) -> (r: String)
    requires
        a <= b <= cs@.len(),
    ensures
        r@ == cs@.subrange(a as int, b as int),
{
    let mut s = String::new();
    let mut i = a;
    while i < b
        invariant
            a <= i <= b,
            b <= cs@.len(),
            s@ == cs@.subrange(a as int, i as int),
        decreases b - i,
    {
        push_char(&mut s, cs[i]);
        assert(s@ =~= cs@.subrange(a as int, i + 1));
        i += 1;
    }
    s
}

/// Split a `", "`-joined people display string into its names (empty when
/// absent): each piece trimmed, empty pieces dropped.
pub fn split_people(display: Option<&str>) -> (r: Vec<String>)
    ensures
        views(r@) == match display {
            Some(s) => people(s@),
            None => Seq::empty(),
        },
{
    let d = match display {
        Some(d) => d,
        None => return Vec::new(),
    };
    let cs = crate::text::chars_of(d);
    let ghost s = cs@;
    let n = cs.len();
    let mut out: Vec<String> = Vec::new();
    let mut start: usize = 0;
    let mut i: usize = 0;
    assert(s.skip(0) =~= s);
    while n > 0 && i < n - 1
        invariant
            n == cs@.len(),
            s == cs@,
            start <= i <= n,
            forall|q: int| start <= q < i ==> !sep_at(s, q),
            views(out@) + people(s.skip(start as int)) == people(s),
        decreases n - i,
    {
        if cs[i] == ',' && cs[i + 1] == ' ' {
            let piece = text_of(&cs, start, i);
            let name = trim_text(piece.as_str());
            let ghost t = s.skip(start as int);
            proof {
                assert forall|q: int| 0 <= q < i - start implies !sep_at(t, q) by {
                    assert(sep_at(t, q) == sep_at(s, q + start));
                }
                lemma_first_sep_skip(t, i - start);
                assert(sep_at(t, i - start));
                assert(first_sep_from(t, (i - start) as int) == Some((i - start) as int));
                assert(t.take(i - start) =~= piece@);
                assert(t.skip(i - start + 2) =~= s.skip(i + 2));
                let ps = pieces(t.skip(i - start + 2));
                assert(pieces(t) == seq![piece@] + ps);
                let f = |p: Seq<char>| trimmed(p);
                assert((seq![piece@] + ps).map_values(f) =~= seq![name@] + ps.map_values(f));
                lemma_non_empty_add(seq![name@], ps.map_values(f));
                lemma_non_empty_single(name@);
            }
            if !name.as_str().is_empty() {
                out.push(name);
            }
            proof {
                assert(views(out@) + people(s.skip(i + 2)) =~= people(s));
            }
            i = i + 2;
            start = i;
        } else {
            proof {
                assert(!sep_at(s, i as int));
            }
            i = i + 1;
        }
    }
    let piece = text_of(&cs, start, n);
    let name = trim_text(piece.as_str());
    proof {
        let t = s.skip(start as int);
        assert(t =~= piece@);
        assert forall|q: int| 0 <= q < t.len() implies !sep_at(t, q) by {
            assert(sep_at(t, q) == sep_at(s, q + start));
            if q + start + 1 >= n {
            } else {
                assert(q + start < i);
            }
        }
        lemma_first_sep_skip(t, t.len() as int);
        assert(first_sep_from(t, t.len() as int) is None);
        assert(pieces(t) == seq![t]);
        assert(seq![t].map_values(|p: Seq<char>| trimmed(p)) =~= seq![name@]);
        lemma_non_empty_single(name@);
    }
    if !name.as_str().is_empty() {
        out.push(name);
    }
    proof {
        assert(views(out@) =~= people(s));
    }
    out
}

/// The separator of a people display string, `", "`.
pub open spec fn people_sep() -> Seq<char> {
    seq![',', ' ']
}

proof fn lemma_join_front(names: Seq<Seq<char>>, sep: Seq<char>)
    requires
        names.len() >= 2,
    ensures
        join(names, sep) == names[0] + sep + join(names.drop_first(), sep),
    decreases names.len(),
{
    if names.len() == 2 {
        assert(names.drop_last().len() == 1);
        assert(names.drop_first().len() == 1);
        assert(join(names.drop_last(), sep) == names[0]);
        assert(join(names.drop_first(), sep) == names[1]);
    } else {
        lemma_join_front(names.drop_last(), sep);
        assert(names.drop_last().drop_first() =~= names.drop_first().drop_last());
        assert(names.drop_first().last() == names.last());
        assert(names.drop_last()[0] == names[0]);
    }
}

proof fn lemma_pieces_single(x: Seq<char>)
    requires
        forall|q: int| !sep_at(x, q),
    ensures
        pieces(x) == seq![x],
{
    lemma_first_sep_from_range(x, 0);
    if first_sep_from(x, 0) is Some {
        let k = first_sep_from(x, 0)->0;
        assert(sep_at(x, k));
    }
}

proof fn lemma_pieces_front(x: Seq<char>, rest: Seq<char>)
    requires
        forall|q: int| !sep_at(x, q),
    ensures
        pieces(x + people_sep() + rest) == seq![x] + pieces(rest),
{
    let t = x + people_sep() + rest;
    let n = x.len() as int;
    assert forall|q: int| 0 <= q < n implies !sep_at(t, q) by {
        if q + 1 < n {
            assert(t[q] == x[q] && t[q + 1] == x[q + 1]);
            assert(!sep_at(x, q));
        } else {
            assert(t[q + 1] == ',');
        }
    }
    lemma_first_sep_skip(t, n);
    assert(t[n] == ',' && t[n + 1] == ' ');
    assert(sep_at(t, n));
    assert(first_sep_from(t, n) == Some(n));
    assert(t.take(n) =~= x);
    assert(t.skip(n + 2) =~= rest);
}

proof fn lemma_pieces_of_join(names: Seq<Seq<char>>)
    requires
        names.len() > 0,
        forall|k: int, q: int| 0 <= k < names.len() ==> !#[trigger] sep_at(names[k], q),
    ensures
        pieces(join(names, people_sep())) == names,
    decreases names.len(),
{
    if names.len() == 1 {
        assert(forall|q: int| !sep_at(names[0], q));
        lemma_pieces_single(names[0]);
        assert(seq![names[0]] =~= names);
    } else {
        lemma_join_front(names, people_sep());
        let rest = names.drop_first();
        assert forall|k: int, q: int| 0 <= k < rest.len() implies !#[trigger] sep_at(rest[k], q) by {
            assert(rest[k] == names[k + 1]);
        }
        lemma_pieces_of_join(rest);
        assert(forall|q: int| !sep_at(names[0], q));
        lemma_pieces_front(names[0], join(rest, people_sep()));
        assert(seq![names[0]] + rest =~= names);
    }
}

proof fn lemma_non_empty_keeps(names: Seq<Seq<char>>)
    requires
        forall|k: int| 0 <= k < names.len() ==> (#[trigger] names[k]).len() > 0,
    ensures
        non_empty(names) == names,
    decreases names.len(),
{
    if names.len() > 0 {
        let d = names.drop_last();
        assert forall|k: int| 0 <= k < d.len() implies (#[trigger] d[k]).len() > 0 by {
            assert(d[k] == names[k]);
        }
        lemma_non_empty_keeps(d);
        assert(names.last() == names[names.len() - 1]);
        assert(d.push(names.last()) =~= names);
    }
}

/// Joining names with `", "` and splitting them again gives the names back,
/// when each name is non-empty, already trimmed and holds no `", "`.
pub proof fn law_people_round_trip(names: Seq<Seq<char>>)
    requires
        names.len() > 0,
        forall|k: int| 0 <= k < names.len() ==> (#[trigger] names[k]).len() > 0,
        forall|k: int| 0 <= k < names.len() ==> trimmed(#[trigger] names[k]) == names[k],
        forall|k: int, q: int| 0 <= k < names.len() ==> !#[trigger] sep_at(names[k], q),
    ensures
        people(join(names, people_sep())) == names,
{
    lemma_pieces_of_join(names);
    let f = |p: Seq<char>| trimmed(p);
    assert(names.map_values(f) =~= names) by {
        assert forall|k: int| 0 <= k < names.len() implies names.map_values(f)[k] == names[k] by {
            assert(trimmed(names[k]) == names[k]);
        }
    }
    lemma_non_empty_keeps(names);
}

proof fn lemma_non_empty_all(names: Seq<Seq<char>>, k: int)
    requires
        0 <= k < non_empty(names).len(),
    ensures
        non_empty(names)[k].len() > 0,
        exists|j: int| 0 <= j < names.len() && names[j] == #[trigger] non_empty(names)[k],
    decreases names.len(),
{
    let d = names.drop_last();
    if names.last().len() > 0 && k == non_empty(d).len() {
        assert(names[names.len() - 1] == non_empty(names)[k]);
    } else {
        lemma_non_empty_all(d, k);
        let j = choose|j: int| 0 <= j < d.len() && d[j] == non_empty(d)[k];
        assert(names[j] == non_empty(names)[k]);
    }
}

/// Every name split out of a display string is non-empty and trimmed.
pub proof fn law_people_are_trimmed(s: Seq<char>, k: int)
    requires
        0 <= k < people(s).len(),
    ensures
        people(s)[k].len() > 0,
        trimmed(people(s)[k]) == people(s)[k],
{
    let ts = pieces(s).map_values(|p: Seq<char>| trimmed(p));
    lemma_non_empty_all(ts, k);
    let j = choose|j: int| 0 <= j < ts.len() && ts[j] == non_empty(ts)[k];
    law_trim_idempotent(pieces(s)[j]);
}

} // verus!
