use conservatory::smart::{
    fallback_ids, limited_ids, smart_playlist_form, sort_search_rows, PlaylistOrder, SearchRow,
};
use conservatory::text::parse_i64;

fn row(id: i64, added: Option<i64>, rating: i64, title: &str, artist: Option<&str>) -> SearchRow {
    SearchRow {
        track_id: id,
        added,
        rating,
        title: title.to_string(),
        artist: artist.map(str::to_string),
    }
}

fn shelf() -> Vec<SearchRow> {
    vec![
        row(3, Some(100), 3, "beta", Some("Zed")),
        row(1, Some(300), 5, "Alpha", None),
        row(2, None, 5, "gamma", Some("adam")),
        row(4, Some(300), 3, "Äther", Some("Mia")),
    ]
}

fn ids(rows: &[SearchRow]) -> Vec<i64> {
    rows.iter().map(|r| r.track_id).collect()
}

#[test]
fn added_is_newest_first_with_ties_by_id() {
    let mut rows = shelf();
    sort_search_rows(&mut rows, PlaylistOrder::Added);
    assert_eq!(ids(&rows), vec![1, 4, 3, 2]);
    let mut rows = shelf();
    sort_search_rows(&mut rows, PlaylistOrder::LastPlayed);
    assert_eq!(ids(&rows), vec![1, 4, 3, 2]);
}

#[test]
fn rating_is_highest_first_then_newest() {
    let mut rows = shelf();
    sort_search_rows(&mut rows, PlaylistOrder::Rating);
    assert_eq!(ids(&rows), vec![1, 2, 4, 3]);
}

#[test]
fn title_and_artist_ignore_case() {
    let mut rows = shelf();
    sort_search_rows(&mut rows, PlaylistOrder::Title);
    assert_eq!(ids(&rows), vec![1, 3, 2, 4]);
    let mut rows = shelf();
    sort_search_rows(&mut rows, PlaylistOrder::Artist);
    assert_eq!(ids(&rows), vec![1, 2, 4, 3]);
}

#[test]
fn ties_keep_their_order() {
    let mut rows = vec![
        row(9, None, 1, "Same", None),
        row(7, None, 1, "same", None),
        row(8, None, 1, "SAME", None),
    ];
    sort_search_rows(&mut rows, PlaylistOrder::Title);
    assert_eq!(ids(&rows), vec![9, 7, 8]);
}

#[test]
fn the_limit_cuts_the_playlist() {
    assert_eq!(fallback_ids(shelf(), PlaylistOrder::Added, Some(2)), vec![1, 4]);
    assert_eq!(fallback_ids(shelf(), PlaylistOrder::Added, Some(0)), Vec::<i64>::new());
    assert_eq!(fallback_ids(shelf(), PlaylistOrder::Added, Some(-1)), vec![1, 4, 3, 2]);
    assert_eq!(fallback_ids(shelf(), PlaylistOrder::Added, Some(10)), vec![1, 4, 3, 2]);
    assert_eq!(fallback_ids(shelf(), PlaylistOrder::Added, None), vec![1, 4, 3, 2]);
    assert_eq!(limited_ids(&shelf(), Some(1)), vec![3]);
}

#[test]
fn the_dialog_needs_a_name_and_a_query() {
    assert!(smart_playlist_form("  ", "genre:jazz", "", 0).is_none());
    assert!(smart_playlist_form("Jazz", " \t", "", 0).is_none());
    let d = smart_playlist_form("  Jazz ", " genre:jazz ", " 25 ", 3).unwrap();
    assert_eq!(d.name, "Jazz");
    assert_eq!(d.query, "genre:jazz");
    assert_eq!(d.limit, Some(25));
    assert_eq!(d.order, PlaylistOrder::Title);
}

#[test]
fn the_limit_must_be_a_positive_number() {
    let limit = |text: &str| smart_playlist_form("n", "q", text, 0).unwrap().limit;
    assert_eq!(limit(""), None);
    assert_eq!(limit("0"), None);
    assert_eq!(limit("-3"), None);
    assert_eq!(limit("ten"), None);
    assert_eq!(limit("+7"), Some(7));
    assert_eq!(limit("99999999999999999999"), None);
    let order = |i: u32| smart_playlist_form("n", "q", "", i).unwrap().order;
    assert_eq!(order(0), PlaylistOrder::Added);
    assert_eq!(order(1), PlaylistOrder::Rating);
    assert_eq!(order(2), PlaylistOrder::LastPlayed);
    assert_eq!(order(4), PlaylistOrder::Artist);
    assert_eq!(order(9), PlaylistOrder::Added);
}

#[test]
fn integers_parse_like_std() {
    for text in [
        "0", "7", "-7", "+7", "007", "-0", "9223372036854775807", "-9223372036854775808",
        "9223372036854775808", "-9223372036854775809", "", "+", "-", "1 ", " 1", "1e3", "--1",
        "+-1", "12a", "18446744073709551616",
    ] {
        assert_eq!(parse_i64(text), text.parse::<i64>().ok(), "{text:?}");
    }
}
