use conservatory::theme::{palette, replace_tokens, sheet};

#[test]
fn typography_stays_the_only_font_rules() {
    assert_eq!(sheet().matches("font-family").count(), 3);
}

#[test]
fn no_tokens_survive_replacement() {
    assert!(!sheet().contains('%'));
}

#[test]
fn row_style_selectors_are_pinned() {
    assert!(sheet().contains("columnview.row-lines > listview > row"));
    assert!(sheet().contains("columnview.zebra-rows > listview > row"));
    assert!(sheet().contains("columnview.facet-pane > listview > row"));
}

#[test]
fn accent_is_dragon_red() {
    let s = sheet();
    assert!(s.contains("box-shadow: inset 2px 0 0 #c4746e;"));
    assert!(s.contains("check:checked { background-color: #c4746e; color: #12120f;"));
}

#[test]
fn replacement_keeps_unknown_percent_runs() {
    let toks = palette();
    assert_eq!(replace_tokens("a %FG% b", &toks), "a #c5c9c5 b");
    assert_eq!(replace_tokens("50% %NOPE%", &toks), "50% %NOPE%");
    assert_eq!(replace_tokens("%FG_DIM%%FG%", &toks), "#a6a69c#c5c9c5");
    assert_eq!(replace_tokens("", &toks), "");
}
