//! The edit dialogs' field state: which fields the user ticked, what they
//! entered, and how the parsed edits and their errors are collected. Parsing
//! an entry into an edit belongs to the library's storage layer; these
//! functions prepare its input and gather its outcomes.
use vstd::prelude::*;
use vstd::string::StringExecFns;

use crate::text::{same_text, trim_text, trimmed};

verus! {

/// One field of an edit dialog: its key, whether it is ticked, and the
/// entered text.
pub type Entry = (String, bool, String);

/// The `key=value` texts of the ticked fields, in dialog order.
pub open spec fn assignment_inputs(fields: Seq<Entry>) -> Seq<Seq<char>>
    decreases fields.len(),
{
    if fields.len() == 0 {
        Seq::empty()
    } else {
        let rest = assignment_inputs(fields.drop_last());
        let f = fields.last();
        if f.1 {
            rest.push(f.0@ + "="@ + f.2@)
        } else {
            rest
        }
    }
}

/// The `key=value` text to parse for each ticked field, in dialog order;
/// unticked fields are skipped, and a ticked field with nothing entered
/// still yields `key=` (the clear path).
pub fn assignment_texts(fields: &[Entry]) -> (r: Vec<String>)
    ensures
        r@.map_values(|s: String| s@) == assignment_inputs(fields@),
{
    let mut out: Vec<String> = Vec::new();
    let n = fields.len();
    let mut i: usize = 0;
    while i < n
        invariant
            n == fields@.len(),
            i <= n,
            out@.map_values(|s: String| s@) == assignment_inputs(fields@.take(i as int)),
        decreases n - i,
    {
        let f = &fields[i];
        assert(fields@.take(i + 1).drop_last() =~= fields@.take(i as int));
        if f.1 {
            let mut s = f.0.clone();
            s.append("=");
            s.append(f.2.as_str());
            let ghost before = out@;
            out.push(s);
            assert(out@.map_values(|s: String| s@) =~= before.map_values(|s: String| s@).push(
                f.0@ + "="@ + f.2@,
            ));
        }
        i += 1;
    }
    assert(fields@.take(n as int) =~= fields@);
    out
}

/// The parsed values among the outcomes, in order.
pub open spec fn parsed<A>(outcomes: Seq<Result<A, String>>) -> Seq<A>
    decreases outcomes.len(),
{
    if outcomes.len() == 0 {
        Seq::empty()
    } else {
        let rest = parsed(outcomes.drop_last());
        match outcomes.last() {
            Ok(a) => rest.push(a),
            Err(_) => rest,
        }
    }
}

/// The error messages among the outcomes, in order.
pub open spec fn failures<A>(outcomes: Seq<Result<A, String>>) -> Seq<Seq<char>>
    decreases outcomes.len(),
{
    if outcomes.len() == 0 {
        Seq::empty()
    } else {
        let rest = failures(outcomes.drop_last());
        match outcomes.last() {
            Ok(_) => rest,
            Err(e) => rest.push(e@),
        }
    }
}

/// Gather the parse outcomes of the ticked fields: every parsed edit, in
/// order, and every failure, in order, so the caller can reject the whole
/// set rather than apply a partly valid edit.
pub fn collect_assignments<A>(outcomes: Vec<Result<A, String>>) -> (r: (Vec<A>, Vec<String>))
    ensures
        r.0@ == parsed(outcomes@),
        r.1@.map_values(|s: String| s@) == failures(outcomes@),
{
    let ghost all = outcomes@;
    let mut rest = outcomes;
    let mut oks: Vec<A> = Vec::new();
    let mut errs: Vec<String> = Vec::new();
    let ghost mut k: int = 0;
    while rest.len() > 0
        invariant
            0 <= k <= all.len(),
            rest@ == all.skip(k),
            oks@ == parsed(all.take(k)),
            errs@.map_values(|s: String| s@) == failures(all.take(k)),
        decreases rest.len(),
    {
        let o = rest.remove(0);
        assert(all.take(k + 1).drop_last() =~= all.take(k));
        assert(all.take(k + 1).last() == o);
        match o {
            Ok(a) => {
                oks.push(a);
            },
            Err(e) => {
                let ghost before = errs@;
                let ghost ev = e@;
                errs.push(e);
                assert(errs@.map_values(|s: String| s@) =~= before.map_values(|s: String| s@).push(
                    ev,
                ));
            },
        }
        proof {
            k = k + 1;
        }
        assert(rest@ =~= all.skip(k));
    }
    assert(all.take(k) =~= all);
    (oks, errs)
}

/// The entered text of the first ticked field named `key`.
pub open spec fn ticked(entered: Seq<Entry>, key: Seq<char>) -> Option<Seq<char>>
    decreases entered.len(),
{
    if entered.len() == 0 {
        None
    } else if entered[0].0@ == key && entered[0].1 {
        Some(entered[0].2@)
    } else {
        ticked(entered.drop_first(), key)
    }
}

/// The entered text of the first ticked field named `key`; unticked fields
/// never contribute.
pub fn ticked_value(entered: &[Entry], key: &str) -> (r: Option<String>)
    ensures
        match r {
            Some(v) => ticked(entered@, key@) == Some(v@),
            None => ticked(entered@, key@) is None,
        },
{
    let n = entered.len();
    let mut i: usize = 0;
    assert(entered@.skip(0) =~= entered@);
    while i < n
        invariant
            n == entered@.len(),
            i <= n,
            ticked(entered@, key@) == ticked(entered@.skip(i as int), key@),
        decreases n - i,
    {
        let f = &entered[i];
        assert(entered@.skip(i as int)[0] == entered@[i as int]);
        assert(entered@.skip(i as int).drop_first() =~= entered@.skip(i + 1));
        if f.1 && same_text(f.0.as_str(), key) {
            return Some(f.2.clone());
        }
        i += 1;
    }
    None
}

/// The entered text of the first ticked field named `key`, unless it is
/// blank (nothing but whitespace): a blank text field is left unchanged.
pub fn nonblank_value(entered: &[Entry], key: &str) -> (r: Option<String>)
    ensures
        match r {
            Some(v) => ticked(entered@, key@) == Some(v@) && trimmed(v@).len() > 0,
            None => match ticked(entered@, key@) {
                Some(v) => trimmed(v).len() == 0,
                None => true,
            },
        },
{
    match ticked_value(entered, key) {
        Some(v) => if trim_text(v.as_str()).as_str().is_empty() {
            None
        } else {
            Some(v)
        },
        None => None,
    }
}

/// A name typed into a dialog, trimmed; none when nothing but whitespace
/// was entered (nothing is saved or created then).
pub fn entered_name(text: &str) -> (r: Option<String>)
    ensures
        match r {
            Some(n) => n@ == trimmed(text@) && n@.len() > 0,
            None => trimmed(text@).len() == 0,
        },
{
    let name = trim_text(text);
    if name.as_str().is_empty() {
        None
    } else {
        Some(name)
    }
}

/// The entered text of the first ticked field named `key`, unless blank.
pub open spec fn nonblank(entered: Seq<Entry>, key: Seq<char>) -> Option<Seq<char>> {
    match ticked(entered, key) {
        Some(v) => if trimmed(v).len() > 0 {
            Some(v)
        } else {
            None
        },
        None => None,
    }
}

/// What a book edit does to the book's series.
#[derive(Debug, Clone, PartialEq, Eq)]
pub enum SeriesChange {
    /// Leave the series as it is.
    Unchanged,
    /// Take the book out of its series.
    Clear,
    /// Put the book in the named series.
    Join(String),
}

/// The series part of a book edit: marking the book standalone clears its
/// series whatever was entered; otherwise a ticked, non-blank series field
/// sets it, and anything else leaves it unchanged.
pub fn series_change(entered: &[Entry], standalone: bool) -> (r: SeriesChange)
    ensures
        standalone ==> r is Clear,
        !standalone ==> match nonblank(entered@, "series"@) {
            Some(v) => r matches SeriesChange::Join(n) && n@ == v,
            None => r is Unchanged,
        },
{
    if standalone {
        return SeriesChange::Clear;
    }
    match nonblank_value(entered, "series") {
        Some(v) => SeriesChange::Join(v),
        None => SeriesChange::Unchanged,
    }
}

} // verus!
