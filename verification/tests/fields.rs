use conservatory::fields::{
    commons, credit_fields, inspector_aggregate, inspector_fields, is_tech_field, push, AlbumInfo,
    CreditRow, TrackInfo,
};
use conservatory::playqueue::fmt_secs;
use std::collections::HashMap;

fn credit_row(role: &str, name: &str) -> CreditRow {
    CreditRow { role: role.into(), name: name.into() }
}

#[test]
fn credit_fields_group_by_role_in_read_order() {
    let rows = credit_fields(&[
        credit_row("Composer", "Gavin Bryars"),
        credit_row("Composer", "Biosphere"),
        credit_row("Producer", "Aphex Twin"),
    ]);
    assert_eq!(
        rows,
        vec![
            ("Composer".to_string(), "Gavin Bryars, Biosphere".to_string()),
            ("Producer".to_string(), "Aphex Twin".to_string()),
        ]
    );
    assert!(credit_fields(&[]).is_empty());
}

#[test]
fn credit_fields_only_merge_adjacent_roles() {
    let rows = credit_fields(&[
        credit_row("Composer", "A"),
        credit_row("Producer", "B"),
        credit_row("Composer", "C"),
    ]);
    assert_eq!(rows.len(), 3);
    assert_eq!(rows[2], ("Composer".to_string(), "C".to_string()));
}

#[test]
fn tech_fields_are_paths_and_ids() {
    assert!(is_tech_field("Location"));
    assert!(is_tech_field("File"));
    assert!(is_tech_field("MB recording"));
    assert!(is_tech_field("MB release"));
    assert!(!is_tech_field("Title"));
    assert!(!is_tech_field("location"));
}

#[test]
fn push_skips_empty_values() {
    let mut out = Vec::new();
    push(&mut out, "Title", "Xtal".to_string());
    push(&mut out, "Artist", String::new());
    assert_eq!(out, vec![("Title".to_string(), "Xtal".to_string())]);
}

#[test]
fn commons_agree_differ_or_absent() {
    assert_eq!(
        commons(vec![Some("Aphex Twin".into()), Some("Aphex Twin".into())]),
        Some("Aphex Twin".to_string())
    );
    assert_eq!(
        commons(vec![Some("1992".into()), Some("1994".into())]),
        Some("multiple values".to_string())
    );
    // All absent agrees on absence; mixed absent/present is a difference.
    assert_eq!(commons(vec![None, None]), None);
    assert_eq!(
        commons(vec![None, Some("x".into())]),
        Some("multiple values".to_string())
    );
    assert_eq!(commons(vec![]), None);
}


fn track() -> TrackInfo {
    TrackInfo {
        title: "Xtal".into(),
        track_no: Some(1),
        disc_no: Some(1),
        duration_secs: Some(294),
        format: Some("flac".into()),
        bitrate: Some(900_000),
        sample_rate: Some(44_100),
        sample_rate_khz: "44.1".into(),
        replaygain_track: Some("-6.50".into()),
        replaygain_album: Some("-6.00".into()),
        rating: 4,
        play_count: 3,
        last_played: None,
        added_at: None,
        file_path: "Music/Electronic/Aphex Twin/SAW/01 - Xtal.flac".into(),
        musicbrainz_recording_id: Some("rec-123".into()),
    }
}

fn album() -> AlbumInfo {
    AlbumInfo {
        title: "Selected Ambient Works 85-92".into(),
        year: Some(1992),
        shelf_genre: Some("Electronic".into()),
        musicbrainz_release_id: Some("rel-456".into()),
        cover_path: Some("Music/Electronic/Aphex Twin/SAW/cover.jpg".into()),
    }
}

fn as_map(rows: &[(String, String)]) -> HashMap<String, String> {
    rows.iter().cloned().collect()
}

#[test]
fn inspector_fields_render_technical_detail() {
    let al = album();
    let rows = inspector_fields(&track(), Some(&al), Some("Aphex Twin"), Some("4.2 MB"));
    let map = as_map(&rows);
    assert_eq!(map["Title"], "Xtal");
    assert_eq!(map["Artist"], "Aphex Twin");
    assert_eq!(map["Album"], "Selected Ambient Works 85-92");
    assert_eq!(map["Year"], "1992");
    assert_eq!(map["Genre"], "Electronic");
    assert_eq!(map["Track"], "1 (disc 1)");
    assert_eq!(map["Duration"], "4:54");
    assert_eq!(map["Format"], "flac");
    assert_eq!(map["Bitrate"], "900 kbps");
    assert_eq!(map["Sample rate"], "44.1 kHz");
    assert_eq!(map["File size"], "4.2 MB");
    assert_eq!(map["Rating"], "★★★★");
    assert_eq!(map["Plays"], "3");
    assert!(map["ReplayGain"].contains("track"));
    assert_eq!(map["Location"], "Music/Electronic/Aphex Twin/SAW/01 - Xtal.flac");
    assert_eq!(map["MB recording"], "rec-123");
    assert_eq!(map["MB release"], "rel-456");
    assert_eq!(map["Cover"], "cover.jpg");
}

#[test]
fn inspector_fields_skip_absent_optional_values() {
    let mut t = track();
    t.bitrate = None;
    t.sample_rate = None;
    t.replaygain_track = None;
    t.replaygain_album = None;
    t.rating = 0;
    t.play_count = 0;
    t.musicbrainz_recording_id = None;
    let rows = inspector_fields(&t, None, None, None);
    let map = as_map(&rows);
    assert_eq!(map["Title"], "Xtal");
    assert_eq!(map["Cover"], "none");
    for absent in [
        "Artist",
        "Album",
        "Bitrate",
        "Sample rate",
        "File size",
        "ReplayGain",
        "Rating",
        "Plays",
        "MB recording",
    ] {
        assert!(!map.contains_key(absent), "{absent} should be skipped");
    }
}

#[test]
fn inspector_fields_keep_their_order_and_render_dates() {
    let mut t = track();
    t.disc_no = None;
    t.replaygain_album = None;
    t.last_played = Some(1_700_000_000);
    t.added_at = Some(0);
    let al = album();
    let rows = inspector_fields(&t, Some(&al), Some("Aphex Twin"), None);
    let labels: Vec<&str> = rows.iter().map(|(l, _)| l.as_str()).collect();
    assert_eq!(
        labels,
        vec![
            "Title", "Artist", "Album", "Year", "Genre", "Track", "Duration", "Format", "Bitrate",
            "Sample rate", "ReplayGain", "Rating", "Plays", "Last played", "Added", "Location",
            "MB recording", "MB release", "Cover",
        ]
    );
    let map = as_map(&rows);
    assert_eq!(map["Track"], "1");
    assert_eq!(map["ReplayGain"], "-6.50 dB track");
    assert_eq!(map["Last played"], "2023-11-14");
    assert_eq!(map["Added"], "1970-01-01");
}

#[test]
fn inspector_fields_render_both_gains() {
    let rows = inspector_fields(&track(), None, None, None);
    let map = as_map(&rows);
    assert_eq!(map["ReplayGain"], "-6.50 dB track / -6.00 dB album");
    let mut t = track();
    t.replaygain_track = None;
    let map = as_map(&inspector_fields(&t, None, None, None));
    assert_eq!(map["ReplayGain"], "-6.00 dB album");
}

#[test]
fn aggregate_shows_commons_and_sums() {
    let mut t2 = track();
    t2.title = "Hedges".into();
    t2.duration_secs = Some(100);
    t2.play_count = 4;
    let t1 = track();
    let al = album();
    let rows = inspector_aggregate(
        &[(&t1, Some(&al), Some("Aphex Twin")), (&t2, Some(&al), Some("Aphex Twin"))],
        Some(394),
        Some("6 MB"),
    );
    let map = as_map(&rows);
    assert_eq!(map["Artist"], "Aphex Twin");
    assert_eq!(map["Album"], "Selected Ambient Works 85-92");
    assert_eq!(map["Year"], "1992");
    assert_eq!(map["Duration"], fmt_secs(394));
    assert_eq!(map["File size"], "6 MB");
    assert_eq!(map["Rating"], "★★★★");
    assert_eq!(map["Plays"], "7");
    assert_eq!(map["Format"], "flac");
    assert!(!map.contains_key("Title"), "titles do not aggregate");
    assert!(!map.contains_key("Location"), "locations do not aggregate");
}

#[test]
fn aggregate_marks_differing_values() {
    let t1 = track();
    let mut t2 = track();
    t2.rating = 2;
    let al1 = album();
    let mut al2 = album();
    al2.year = Some(1994);
    al2.cover_path = Some("Music/Electronic/Aphex Twin/SAW II/folder.jpg".into());
    let rows = inspector_aggregate(
        &[(&t1, Some(&al1), Some("Aphex Twin")), (&t2, Some(&al2), Some("Aphex Twin"))],
        Some(588),
        None,
    );
    let map = as_map(&rows);
    assert_eq!(map["Year"], "multiple values");
    assert_eq!(map["Rating"], "multiple values");
    assert_eq!(map["Cover"], "multiple values");
}

#[test]
fn aggregate_all_unrated_skips_the_rating_row() {
    let mut t1 = track();
    t1.rating = 0;
    t1.play_count = 0;
    let mut t2 = track();
    t2.rating = 0;
    t2.play_count = 0;
    let al = album();
    let rows =
        inspector_aggregate(&[(&t1, Some(&al), None), (&t2, Some(&al), None)], Some(588), None);
    let map = as_map(&rows);
    assert!(!map.contains_key("Rating"));
    assert!(!map.contains_key("Plays"));
}

#[test]
fn aggregate_of_mixed_presence_differs() {
    let t1 = track();
    let mut t2 = track();
    t2.format = None;
    let al = album();
    // 294.6 s + 100.6 s sum to 395.2 s, shown as 6:35.
    let rows = inspector_aggregate(&[(&t1, Some(&al), None), (&t2, None, None)], Some(395), None);
    let map = as_map(&rows);
    assert_eq!(map["Duration"], "6:35");
    assert_eq!(map["Format"], "multiple values");
    assert_eq!(map["Album"], "multiple values");
    assert!(!map.contains_key("Artist"));
    assert!(inspector_aggregate(&[], None, None).is_empty());
}
