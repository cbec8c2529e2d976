use conservatory::query::{filter_tip, leaf_empty_copy, leaf_is_filtered, narrow_leaf, FILTER_GRAMMAR_TIP};

#[test]
fn a_blank_query_keeps_the_whole_browse_set() {
    assert_eq!(narrow_leaf(&[5, 3, 9], "   ", &[]), vec![0, 1, 2]);
    assert_eq!(narrow_leaf(&[5, 3, 9], "", &[3]), vec![0, 1, 2]);
}

#[test]
fn a_query_keeps_the_matches_in_browse_order() {
    let leaf = [10, 20, 30, 40, 20];
    assert_eq!(narrow_leaf(&leaf, "genre:Electronic", &[40, 20, 99]), vec![1, 3, 4]);
    assert!(narrow_leaf(&leaf, "genre:None", &[]).is_empty());
    assert!(narrow_leaf(&[], "x", &[1]).is_empty());
}

#[test]
fn filtered_means_a_constraint_not_an_empty_library() {
    assert!(!leaf_is_filtered("  ", 0));
    assert!(leaf_is_filtered(" x ", 0));
    assert!(leaf_is_filtered("", 2));
    assert_eq!(leaf_empty_copy(true).1, "No matches");
    let (icon, title, desc) = leaf_empty_copy(false);
    assert_eq!((icon, title), ("audio-x-generic-symbolic", "No tracks yet"));
    assert!(desc.starts_with("Drop music files or folders here to import them,\nor from a terminal:\n"));
}

#[test]
fn the_tooltip_carries_the_warnings_while_they_exist() {
    let (warn, tip) = filter_tip(&vec![]);
    assert!(!warn);
    assert_eq!(tip, FILTER_GRAMMAR_TIP);
    assert!(tip.starts_with("Search grammar: field:value with AND / OR / NOT.\nFields: artist:"));
    assert!(tip.ends_with("\nBare text searches title, artist, and album."));
    let (warn, tip) = filter_tip(&vec!["unknown field bogusfield".to_string(), "dangling NOT".to_string()]);
    assert!(warn);
    assert_eq!(tip, "unknown field bogusfield\ndangling NOT");
}
