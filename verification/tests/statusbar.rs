use conservatory::statusbar::{
    aggregate_label, current_row_index, format_playtime, group_thousands, play_glyph, play_state,
    tech_line,
};

#[test]
fn thousands_grouping() {
    assert_eq!(group_thousands(0), "0");
    assert_eq!(group_thousands(42), "42");
    assert_eq!(group_thousands(1_203), "1,203");
    assert_eq!(group_thousands(1_000_000), "1,000,000");
}

#[test]
fn thousands_grouping_pads_inner_groups() {
    assert_eq!(group_thousands(999), "999");
    assert_eq!(group_thousands(1_000), "1,000");
    assert_eq!(group_thousands(10_005), "10,005");
    assert_eq!(group_thousands(1_050_070), "1,050,070");
    assert_eq!(group_thousands(123_456_789), "123,456,789");
}

#[test]
fn grouping_keeps_the_digits() {
    for n in [0usize, 7, 999, 1_000, 54_321, 9_876_543_210] {
        let g = group_thousands(n);
        assert_eq!(g.replace(',', ""), n.to_string());
    }
}

#[test]
fn playtime_rolls_over_at_hour_and_day() {
    assert_eq!(format_playtime(0), "0:00");
    assert_eq!(format_playtime(7), "0:07");
    assert_eq!(format_playtime(187), "3:07");
    assert_eq!(format_playtime(3_661), "1:01:01");
    assert_eq!(format_playtime(310_929), "3d 14:22:09");
}

#[test]
fn aggregate_label_switches_noun() {
    assert_eq!(aggregate_label(1, 60, false), "1 track · 1:00");
    assert_eq!(
        aggregate_label(1_203, 310_929, false),
        "1,203 tracks · 3d 14:22:09"
    );
    assert_eq!(aggregate_label(5, 600, true), "5 selected · 10:00");
    assert_eq!(aggregate_label(0, 0, false), "0 tracks · 0:00");
}

#[test]
fn tech_line_skips_unknowns() {
    assert_eq!(
        tech_line(Some("flac"), Some(44_100), Some(2), Some(1006)),
        "FLAC · 44100 Hz · 2ch · 1006 kbps"
    );
    assert_eq!(
        tech_line(Some("opus"), Some(48_000), Some(2), None),
        "OPUS · 48000 Hz · 2ch"
    );
    assert_eq!(tech_line(None, None, None, None), "");
    assert_eq!(tech_line(Some(""), Some(0), Some(0), Some(0)), "");
}

#[test]
fn tech_line_drops_negative_values() {
    assert_eq!(tech_line(None, Some(-1), Some(-2), Some(320)), "320 kbps");
    assert_eq!(tech_line(Some("mp3"), None, None, None), "MP3");
}

#[test]
fn play_state_and_glyph() {
    assert_eq!(play_state(7, Some(7), true, false), 1);
    assert_eq!(play_state(7, Some(7), true, true), 2);
    assert_eq!(play_state(7, Some(8), true, false), 0);
    assert_eq!(play_state(7, Some(7), false, false), 0);
    assert_eq!(play_state(7, None, true, false), 0);

    assert_eq!(play_glyph(1), Some("media-playback-start-symbolic"));
    assert_eq!(play_glyph(2), Some("media-playback-pause-symbolic"));
    assert_eq!(play_glyph(0), None);
}

#[test]
fn current_row_index_finds_the_playing_row() {
    let ids = [10, 20, 30, 40];
    assert_eq!(current_row_index(&ids, 30), Some(2));
    assert_eq!(current_row_index(&ids, 10), Some(0));
    assert_eq!(current_row_index(&ids, 99), None);
    assert_eq!(current_row_index(&[], 10), None);
}

#[test]
fn current_row_index_takes_the_first_duplicate() {
    assert_eq!(current_row_index(&[5, 9, 9, 5], 9), Some(1));
}

