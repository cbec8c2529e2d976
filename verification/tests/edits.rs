use conservatory::book_query::split_people;
use conservatory::edits::{
    assignment_texts, collect_assignments, entered_name, nonblank_value, series_change,
    ticked_value, SeriesChange,
};

fn field(key: &str, ticked: bool, value: &str) -> (String, bool, String) {
    (key.to_string(), ticked, value.to_string())
}

#[test]
fn collect_assignments_skips_unticked_fields_and_clears_empty_ones() {
    let fields = vec![
        field("title", true, "Xtal"),
        field("album", false, "ignored"),
        field("year", true, "   "),
        field("rating", true, ""),
    ];
    // Unticked fields never reach the parser; ticked-but-empty ones go to it
    // as the clear path.
    let texts = assignment_texts(&fields);
    assert_eq!(texts, vec!["title=Xtal", "year=   ", "rating="]);
    // Every text parsed: three assignments, no errors.
    let outcomes: Vec<Result<String, String>> = texts.iter().map(|t| Ok(t.clone())).collect();
    let (assignments, errors) = collect_assignments(outcomes);
    assert!(errors.is_empty());
    assert_eq!(assignments.len(), 3);
    assert_eq!(assignments[0], "title=Xtal");
    assert!(assignment_texts(&[]).is_empty());
}

#[test]
fn collect_assignments_reports_every_parse_failure() {
    let fields = vec![
        field("year", true, "abc"),
        field("rating", true, "9"),
        field("title", true, "kept"),
    ];
    let texts = assignment_texts(&fields);
    assert_eq!(texts, vec!["year=abc", "rating=9", "title=kept"]);
    // The parser rejects the year and the rating and accepts the title; the
    // valid field still parses and both failures are reported, in order.
    let outcomes: Vec<Result<String, String>> = vec![
        Err("year: not a number".to_string()),
        Err("rating: out of range".to_string()),
        Ok(texts[2].clone()),
    ];
    let (assignments, errors) = collect_assignments(outcomes);
    assert_eq!(assignments.len(), 1);
    assert_eq!(errors.len(), 2);
    assert!(errors[0].contains("year"));
    assert!(errors[1].contains("rating"));
    let (ok, errors) = collect_assignments::<u32>(Vec::new());
    assert!(ok.is_empty() && errors.is_empty());
}

#[test]
fn ticked_value_honours_ticks() {
    let entered = vec![field("title", false, "ignored"), field("year", true, "2010")];
    assert_eq!(ticked_value(&entered, "title"), None);
    assert_eq!(ticked_value(&entered, "year"), Some("2010".to_string()));
    assert_eq!(ticked_value(&entered, "rating"), None);
    let twice = vec![field("title", false, "a"), field("title", true, "b"), field("title", true, "c")];
    assert_eq!(ticked_value(&twice, "title"), Some("b".to_string()));
}

#[test]
fn nonblank_value_leaves_blank_fields_unchanged() {
    let entered = vec![field("series", true, "  \t"), field("title", true, " kept ")];
    assert_eq!(nonblank_value(&entered, "series"), None);
    assert_eq!(nonblank_value(&entered, "title"), Some(" kept ".to_string()));
    assert_eq!(nonblank_value(&entered, "author"), None);
}

#[test]
fn a_blank_name_saves_nothing() {
    assert_eq!(entered_name("   "), None);
    assert_eq!(entered_name(""), None);
    assert_eq!(entered_name("  Late night \n"), Some("Late night".to_string()));
}

#[test]
fn standalone_clears_the_series_regardless_of_the_entry() {
    let entered = vec![field("series", true, "Stormlight")];
    assert_eq!(series_change(&entered, true), SeriesChange::Clear);
    assert_eq!(series_change(&entered, false), SeriesChange::Join("Stormlight".to_string()));
    assert_eq!(series_change(&[field("series", false, "x")], false), SeriesChange::Unchanged);
    assert_eq!(series_change(&[field("series", true, "  ")], false), SeriesChange::Unchanged);
}

#[test]
fn people_split_back_into_their_names() {
    let names = vec!["Kate Reading", "Michael Kramer", "A,B"];
    assert_eq!(split_people(Some(&names.join(", "))), names);
    assert_eq!(split_people(Some(" a ,  , b, ")), vec!["a", "b"]);
    assert!(split_people(None).is_empty());
}
