use conservatory::fields::TrackInfo;
use conservatory::now_playing::track_meta_rows;

fn bare_track() -> TrackInfo {
    TrackInfo {
        title: "T".into(),
        track_no: None,
        disc_no: None,
        duration_secs: None,
        format: None,
        bitrate: None,
        sample_rate: None,
        sample_rate_khz: String::new(),
        replaygain_track: None,
        replaygain_album: None,
        rating: 0,
        play_count: 0,
        last_played: None,
        added_at: None,
        file_path: "a.flac".into(),
        musicbrainz_recording_id: None,
    }
}

fn value_for<'a>(rows: &'a [(String, String)], key: &str) -> Option<&'a str> {
    rows.iter().find(|(k, _)| k == key).map(|(_, v)| v.as_str())
}

#[test]
fn a_track_with_nothing_known_shows_nothing() {
    assert!(track_meta_rows(&bare_track()).is_empty());
}

#[test]
fn format_line_joins_only_what_is_known() {
    let mut t = bare_track();
    t.format = Some("flac".into());
    t.sample_rate = Some(44100);
    t.sample_rate_khz = "44.1".into();
    let rows = track_meta_rows(&t);
    assert_eq!(value_for(&rows, "Format"), Some("FLAC · 44.1 kHz"));
}

#[test]
fn zero_valued_fields_are_treated_as_unknown() {
    let mut t = bare_track();
    t.bitrate = Some(0);
    t.sample_rate = Some(0);
    t.sample_rate_khz = "0.0".into();
    t.track_no = Some(0);
    assert!(track_meta_rows(&t).is_empty());
}

#[test]
fn disc_number_appears_only_on_a_multi_disc_release() {
    let mut t = bare_track();
    t.track_no = Some(4);
    t.disc_no = Some(1);
    assert_eq!(value_for(&track_meta_rows(&t), "Track"), Some("4"));
    t.disc_no = Some(2);
    assert_eq!(value_for(&track_meta_rows(&t), "Track"), Some("4 (disc 2)"));
}

#[test]
fn replaygain_reports_whichever_halves_exist() {
    let mut t = bare_track();
    t.replaygain_track = Some("-7.25".into());
    assert_eq!(value_for(&track_meta_rows(&t), "ReplayGain"), Some("-7.25 dB track"));
    t.replaygain_album = Some("+3.50".into());
    assert_eq!(
        value_for(&track_meta_rows(&t), "ReplayGain"),
        Some("-7.25 dB track · +3.50 dB album")
    );
}

#[test]
fn play_count_is_pluralised() {
    let mut t = bare_track();
    t.play_count = 1;
    assert_eq!(value_for(&track_meta_rows(&t), "Played"), Some("1 play"));
    t.play_count = 2;
    assert_eq!(value_for(&track_meta_rows(&t), "Played"), Some("2 plays"));
}

#[test]
fn full_rows_come_in_display_order() {
    let mut t = bare_track();
    t.format = Some("mp3".into());
    t.bitrate = Some(320_000);
    t.track_no = Some(3);
    t.replaygain_album = Some("-1.00".into());
    t.rating = 7;
    t.play_count = 12;
    let rows = track_meta_rows(&t);
    assert_eq!(
        rows,
        vec![
            ("Format".to_string(), "MP3 · 320 kbps".to_string()),
            ("Track".to_string(), "3".to_string()),
            ("ReplayGain".to_string(), "-1.00 dB album".to_string()),
            ("Rating".to_string(), "5 of 5".to_string()),
            ("Played".to_string(), "12 plays".to_string()),
        ]
    );
}

#[test]
fn the_format_line_reads_kilobits() {
    let mut t = bare_track();
    t.format = Some("flac".into());
    t.bitrate = Some(1_411_000);
    t.sample_rate = Some(44_100);
    t.sample_rate_khz = "44.1".into();
    assert_eq!(
        track_meta_rows(&t),
        vec![("Format".to_string(), "FLAC · 1411 kbps · 44.1 kHz".to_string())]
    );
}
