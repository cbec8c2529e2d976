//! Per-item accent tinting: each album accent gets a unique CSS class and a
//! rule that rings the cover frame in the accent over its drop shadow.
use vstd::prelude::*;
use vstd::string::StringExecFns;

use crate::text::push_char;

verus! {

/// The lower-case hexadecimal digit for `d` (`d < 16`).
pub open spec fn hex_digit(d: nat) -> char {
    if d < 10 {
        (48 + d) as char
    } else {
        (87 + d) as char
    }
}

/// The last `k` hexadecimal digits of `v`, most significant first
/// (zero-padded: `{:0k$x}` for `v < 16^k`).
pub open spec fn hex_places(v: nat, k: nat) -> Seq<char>
    decreases k,
{
    if k == 0 {
        Seq::empty()
    } else {
        hex_places(v / 16, (k - 1) as nat).push(hex_digit(v % 16))
    }
}

/// The colour part of a packed `0x00RRGGBB` accent (the high byte is
/// ignored), as six hexadecimal digits.
pub open spec fn colour_hex(accent: u32) -> Seq<char> {
    hex_places((accent % 0x100_0000) as nat, 6)
}

fn push_hex(s: &mut String, v: u32, k: u32)
    requires
        k <= 8,
    ensures
        final(s)@ == old(s)@ + hex_places(v as nat, k as nat),
    decreases k,
{
    if k > 0 {
        push_hex(s, v / 16, k - 1);
        let d = (v % 16) as u8;
        let c = if d < 10 {
            (48u8 + d) as char
        } else {
            (87u8 + d) as char
        };
        push_char(s, c);
        assert(final(s)@ =~= old(s)@ + hex_places(v as nat, k as nat));
    } else {
        assert(final(s)@ =~= old(s)@ + hex_places(v as nat, k as nat));
    }
}

fn colour_of(accent: u32) -> (r: u32)
    ensures
        r == accent % 0x100_0000,
{
    let r = accent & 0x00ff_ffff;
    assert(accent & 0x00ff_ffff == accent % 0x100_0000) by (bit_vector);
    r
}

/// The unique CSS class for an accent colour, e.g. `cover-acc-c4746e`.
pub fn accent_class(accent: u32) -> (r: String)
    ensures
        r@ == "cover-acc-"@ + colour_hex(accent),
{
    let mut s = String::from_str("cover-acc-");
    push_hex(&mut s, colour_of(accent), 6);
    s
}

/// The drop shadow every lifted cover carries; the ring rule re-states it so
/// the ring and the lift coexist in one `box-shadow`.
pub open spec fn cover_drop() -> Seq<char> {
    "0 2px 10px rgba(0,0,0,0.35)"@
}

/// The CSS rule tinting a cover frame with a 2px accent ring over the drop
/// shadow.
pub fn cover_ring_css(accent: u32) -> (r: String)
    ensures
        r@ == ".cover-acc-"@ + colour_hex(accent) + " { box-shadow: 0 0 0 2px #"@ + colour_hex(
            accent,
        ) + ", "@ + cover_drop() + "; }"@,
{
    let hex = colour_of(accent);
    let mut s = String::from_str(".cover-acc-");
    push_hex(&mut s, hex, 6);
    s.append(" { box-shadow: 0 0 0 2px #");
    push_hex(&mut s, hex, 6);
    s.append(", ");
    s.append("0 2px 10px rgba(0,0,0,0.35)");
    s.append("; }");
    s
}

/// The Now-bar's accent sheet: the cover ring rule, then a rule colouring
/// the seek slider's filled trough in the accent.
pub fn now_bar_accent_css(accent: u32) -> (r: String)
    ensures
        r@ == ".cover-acc-"@ + colour_hex(accent) + " { box-shadow: 0 0 0 2px #"@ + colour_hex(
            accent,
        ) + ", "@ + cover_drop() + "; }"@ + "\n.now-bar-seek.cover-acc-"@ + colour_hex(accent)
            + " > trough > highlight { background-color: #"@ + colour_hex(accent) + "; }"@,
{
    let hex = colour_of(accent);
    let mut s = cover_ring_css(accent);
    s.append("\n.now-bar-seek.cover-acc-");
    push_hex(&mut s, hex, 6);
    s.append(" > trough > highlight { background-color: #");
    push_hex(&mut s, hex, 6);
    s.append("; }");
    s
}

/// The shelf's accent rule for one accent: an inset bar along the tile's
/// foot.
pub open spec fn book_accent_rule(accent: u32) -> Seq<char> {
    ".book-accent-"@ + colour_hex(accent) + " { box-shadow: inset 0 -4px 0 #"@ + colour_hex(
        accent,
    ) + "; }\n"@
}

/// The rules for a list of accents, in order.
pub open spec fn book_accent_rules(accents: Seq<u32>) -> Seq<char>
    decreases accents.len(),
{
    if accents.len() == 0 {
        Seq::empty()
    } else {
        book_accent_rules(accents.drop_last()) + book_accent_rule(accents.last())
    }
}

/// Whether `s` rises strictly (so holds each value once).
pub open spec fn strictly_rising(s: Seq<u32>) -> bool {
    forall|i: int, j: int| 0 <= i < j < s.len() ==> s[i] < s[j]
}

/// The distinct accents of a shelf, ascending: the rising sequence that holds
/// exactly the shelf's accents.
pub open spec fn distinct_accents(accents: Seq<Option<u32>>, d: Seq<u32>) -> bool {
    &&& strictly_rising(d)
    &&& forall|a: u32| #[trigger] d.contains(a) <==> accents.contains(Some(a))
}

proof fn lemma_rising_drop_first(d: Seq<u32>, x: u32)
    requires
        strictly_rising(d),
        d.len() > 0,
    ensures
        d.drop_first().contains(x) <==> (d.contains(x) && x != d[0]),
{
    if d.drop_first().contains(x) {
        let k = choose|k: int| 0 <= k < d.drop_first().len() && d.drop_first()[k] == x;
        assert(d[k + 1] == x);
    }
    if d.contains(x) && x != d[0] {
        let k = choose|k: int| 0 <= k < d.len() && d[k] == x;
        assert(d.drop_first()[k - 1] == x);
    }
}

/// The shelf's accent order is the only one: two rising sequences holding
/// the same accents are the same sequence, so the sheet is determined by the
/// shelf.
pub proof fn law_distinct_accents_unique(accents: Seq<Option<u32>>, d1: Seq<u32>, d2: Seq<u32>)
    requires
        distinct_accents(accents, d1),
        distinct_accents(accents, d2),
    ensures
        d1 == d2,
{
    lemma_rising_unique(d1, d2);
}

proof fn lemma_rising_unique(d1: Seq<u32>, d2: Seq<u32>)
    requires
        strictly_rising(d1),
        strictly_rising(d2),
        forall|x: u32| #[trigger] d1.contains(x) <==> d2.contains(x),
    ensures
        d1 == d2,
    decreases d1.len(),
{
    if d1.len() == 0 {
        if d2.len() > 0 {
            assert(d2.contains(d2[0]));
            assert(d1.contains(d2[0]));
        }
        assert(d1 =~= d2);
    } else {
        assert(d1.contains(d1[0]));
        assert(d2.contains(d1[0]));
        assert(d2.len() > 0);
        assert(d2.contains(d2[0]));
        assert(d1.contains(d2[0]));
        let k2 = choose|k: int| 0 <= k < d2.len() && d2[k] == d1[0];
        let k1 = choose|k: int| 0 <= k < d1.len() && d1[k] == d2[0];
        assert(d2[0] <= d2[k2]);
        assert(d1[0] <= d1[k1]);
        assert(d1[0] == d2[0]);
        assert forall|x: u32| #[trigger] d1.drop_first().contains(x) <==> d2.drop_first().contains(
            x,
        ) by {
            lemma_rising_drop_first(d1, x);
            lemma_rising_drop_first(d2, x);
        }
        lemma_rising_unique(d1.drop_first(), d2.drop_first());
        assert(d1 =~= seq![d1[0]] + d1.drop_first());
        assert(d2 =~= seq![d2[0]] + d2.drop_first());
    }
}

fn insert_sorted(d: &mut Vec<u32>, a: u32)
    requires
        strictly_rising(old(d)@),
    ensures
        strictly_rising(final(d)@),
        forall|x: u32| #[trigger] final(d)@.contains(x) <==> (old(d)@.contains(x) || x == a),
{
    let n = d.len();
    let mut i: usize = 0;
    while i < n && d[i] < a
        invariant
            n == d@.len(),
            i <= n,
            d@ == old(d)@,
            strictly_rising(d@),
            forall|k: int| 0 <= k < i ==> d@[k] < a,
        decreases n - i,
    {
        i += 1;
    }
    if i < n && d[i] == a {
        return;
    }
    let ghost before = d@;
    d.insert(i, a);
    proof {
        assert(d@ == before.insert(i as int, a));
        assert forall|x: u32| #[trigger] d@.contains(x) <==> (before.contains(x) || x == a) by {
            if d@.contains(x) {
                let k = choose|k: int| 0 <= k < d@.len() && d@[k] == x;
                if k < i {
                    assert(before[k] == x);
                } else if k > i {
                    assert(before[k - 1] == x);
                }
            }
            if before.contains(x) {
                let k = choose|k: int| 0 <= k < before.len() && before[k] == x;
                if k < i {
                    assert(d@[k] == x);
                } else {
                    assert(d@[k + 1] == x);
                }
            }
            if x == a {
                assert(d@[i as int] == a);
            }
        }
    }
}

/// The shelf's accent sheet: one rule per distinct accent, in ascending
/// order, each tinting its tiles with an inset bar. Books without an accent
/// add nothing.
pub fn book_accent_css(accents: &[Option<u32>]) -> (r: String)
    ensures
        exists|d: Seq<u32>| distinct_accents(accents@, d) && r@ == book_accent_rules(d),
{
    let mut d: Vec<u32> = Vec::new();
    let n = accents.len();
    let mut i: usize = 0;
    while i < n
        invariant
            n == accents@.len(),
            i <= n,
            strictly_rising(d@),
            forall|a: u32| #[trigger] d@.contains(a) <==> accents@.take(i as int).contains(Some(a)),
        decreases n - i,
    {
        let ghost prev = accents@.take(i as int);
        assert(accents@.take(i + 1) =~= prev.push(accents@[i as int]));
        if let Some(a) = accents[i] {
            insert_sorted(&mut d, a);
        }
        proof {
            assert forall|a: u32| #[trigger] d@.contains(a) <==> accents@.take(i + 1).contains(
                Some(a),
            ) by {
                let t = accents@.take(i + 1);
                if t.contains(Some(a)) {
                    let k = choose|k: int| 0 <= k < t.len() && t[k] == Some(a);
                    if k < i {
                        assert(prev[k] == Some(a));
                    }
                }
                if prev.contains(Some(a)) {
                    let k = choose|k: int| 0 <= k < prev.len() && prev[k] == Some(a);
                    assert(t[k] == Some(a));
                }
                if accents@[i as int] == Some(a) {
                    assert(t[i as int] == Some(a));
                }
            }
        }
        i += 1;
    }
    assert(accents@.take(n as int) =~= accents@);
    let mut css = String::new();
    let m = d.len();
    let mut j: usize = 0;
    while j < m
        invariant
            m == d@.len(),
            j <= m,
            css@ == book_accent_rules(d@.take(j as int)),
        decreases m - j,
    {
        let a = d[j];
        let hex = colour_of(a);
        css.append(".book-accent-");
        push_hex(&mut css, hex, 6);
        css.append(" { box-shadow: inset 0 -4px 0 #");
        push_hex(&mut css, hex, 6);
        css.append("; }\n");
        assert(d@.take(j + 1).drop_last() =~= d@.take(j as int));
        assert(css@ =~= book_accent_rules(d@.take(j + 1)));
        j += 1;
    }
    assert(d@.take(m as int) =~= d@);
    css
}

} // verus!
