use conservatory::columns::{column_spec, Align, ColumnKind, SortBy};
use conservatory::accent::{accent_class, book_accent_css, cover_ring_css, now_bar_accent_css};
use conservatory::book_query::split_people;
use conservatory::dialogs::{appearance_class, Appearance};
use conservatory::sound::{
    device_index, device_is_current, device_label, initial_preset,
    option_index, option_labels, option_value, BACKENDS, RESAMPLERS, RG_MODES,
    SMART_SPEED_LEVELS,
};
use conservatory::startup::resolve_root;
use conservatory::window::{
    common_value, fmt_centre, show_music, import_mode_from_index, import_mode_index, view_page_name,
    ImportMode,
};

#[test]
fn option_index_finds_value_and_defaults_to_zero() {
    assert_eq!(option_index(&RG_MODES, "track"), 1);
    assert_eq!(option_index(&BACKENDS, "alsa"), 3);
    assert_eq!(option_index(&RESAMPLERS, "high"), 1);
    assert_eq!(option_index(&RG_MODES, "nonsense"), 0);
}

#[test]
fn option_value_round_trips_and_clamps() {
    for (i, (_, v)) in BACKENDS.iter().enumerate() {
        assert_eq!(option_value(&BACKENDS, i as u32), *v);
        assert_eq!(option_index(&BACKENDS, option_value(&BACKENDS, i as u32)), i as u32);
    }
    assert_eq!(option_value(&RG_MODES, 99), "off");
    assert_eq!(option_value(&SMART_SPEED_LEVELS, 2), "aggressive");
}

#[test]
fn option_labels_lists_every_label() {
    assert_eq!(option_labels(&RG_MODES), vec!["Off", "Track", "Album"]);
    assert_eq!(option_labels(&RESAMPLERS), vec!["Default", "High quality"]);
}

#[test]
fn common_value_agrees_or_reports_mixed() {
    assert_eq!(
        common_value(vec!["Aphex Twin".into(), "Aphex Twin".into()]),
        Some("Aphex Twin".into())
    );
    assert_eq!(common_value(vec!["Solo".into()]), Some("Solo".into()));
    assert_eq!(common_value(vec!["A".into(), "B".into()]), None);
    assert_eq!(common_value(vec![String::new(), String::new()]), Some(String::new()));
    assert_eq!(common_value(vec![]), Some(String::new()));
}

#[test]
fn view_keys_map_to_page_names() {
    assert_eq!(view_page_name(1), Some("music"));
    assert_eq!(view_page_name(2), Some("podcasts"));
    assert_eq!(view_page_name(3), Some("audiobooks"));
    assert_eq!(view_page_name(0), None);
    assert_eq!(view_page_name(4), None);
}

#[test]
fn import_mode_index_round_trips() {
    for mode in [ImportMode::Copy, ImportMode::Move] {
        assert_eq!(import_mode_from_index(import_mode_index(mode)), mode);
    }
    assert_eq!(import_mode_from_index(99), ImportMode::Copy);
}

#[test]
fn band_centres_abbreviate_kilohertz() {
    assert_eq!(fmt_centre(16_000), "16k");
    assert_eq!(fmt_centre(1_000), "1k");
    assert_eq!(fmt_centre(500), "500");
    assert_eq!(fmt_centre(31), "31");
}

#[test]
fn appearance_maps_to_the_owned_classes() {
    assert_eq!(appearance_class(Appearance::Suggested), "suggested-action");
    assert_eq!(appearance_class(Appearance::Destructive), "destructive-action");
}

#[test]
fn accent_class_is_six_hex_digits() {
    assert_eq!(accent_class(0x00c4_746e), "cover-acc-c4746e");
    assert_eq!(accent_class(0xffc4_746e), "cover-acc-c4746e");
    assert_eq!(accent_class(0x0000_0000), "cover-acc-000000");
}

#[test]
fn ring_css_layers_ring_over_drop() {
    let css = cover_ring_css(0x00c4_746e);
    assert!(css.contains(".cover-acc-c4746e"));
    assert!(css.contains("0 0 0 2px #c4746e"));
    assert!(css.contains("0 2px 10px"));
    assert_eq!(
        css,
        ".cover-acc-c4746e { box-shadow: 0 0 0 2px #c4746e, 0 2px 10px rgba(0,0,0,0.35); }"
    );
}

#[test]
fn positional_root_overrides_config() {
    let root = resolve_root(Some("/from/cli".into()), Some("/from/config".into()));
    assert_eq!(root, Some("/from/cli".to_string()));
}

#[test]
fn config_root_used_when_no_positional() {
    assert_eq!(resolve_root(None, Some("/from/config".into())), Some("/from/config".to_string()));
}

#[test]
fn no_root_anywhere_is_none() {
    assert_eq!(resolve_root(None, None), None);
}

#[test]
fn people_split_on_comma_space_and_trim() {
    assert_eq!(
        split_people(Some("Kate Reading, Michael Kramer")),
        vec!["Kate Reading", "Michael Kramer"]
    );
    assert_eq!(split_people(Some(" A ,  B, , C")), vec!["A", "B", "C"]);
    assert_eq!(split_people(Some("Solo")), vec!["Solo"]);
    assert!(split_people(Some("")).is_empty());
    assert!(split_people(None).is_empty());
    assert_eq!(split_people(Some("A,B")), vec!["A,B"]);
}

#[test]
fn now_bar_accent_rings_the_cover_and_fills_the_seek() {
    let css = now_bar_accent_css(0xff33_6699);
    assert_eq!(
        css,
        format!(
            "{}\n.now-bar-seek.cover-acc-336699 > trough > highlight {{ background-color: #336699; }}",
            cover_ring_css(0x0033_6699)
        )
    );
}

#[test]
fn book_accents_get_one_rule_each_in_ascending_order() {
    let css = book_accent_css(&[Some(0xc4746e), None, Some(0x0a0b0c), Some(0xc4746e)]);
    assert_eq!(
        css,
        ".book-accent-0a0b0c { box-shadow: inset 0 -4px 0 #0a0b0c; }\n\
         .book-accent-c4746e { box-shadow: inset 0 -4px 0 #c4746e; }\n"
    );
    assert_eq!(book_accent_css(&[None, None]), "");
}

#[test]
fn devices_list_by_description_and_tick_the_current_one() {
    assert_eq!(device_label("alsa/hw:0", "Built-in Audio"), "Built-in Audio");
    assert_eq!(device_label("auto", ""), "auto");
    assert!(device_is_current("pulse/x", Some("pulse/x")));
    assert!(!device_is_current("pulse/x", Some("auto")));
    assert!(device_is_current("auto", None));
    assert!(!device_is_current("pulse/x", None));
    let names = vec!["auto".to_string(), "alsa".to_string(), "pulse".to_string()];
    assert_eq!(device_index(&names, Some("pulse")), 2);
    assert_eq!(device_index(&names, Some("gone")), 0);
    assert_eq!(device_index(&names, None), 0);
}

#[test]
fn the_preset_picker_starts_on_the_matched_preset_or_custom() {
    let names = vec!["Flat".to_string(), "Bass".to_string()];
    assert_eq!(initial_preset(&names, Some("Bass")), 1);
    assert_eq!(initial_preset(&names, Some("Gone")), 2);
    assert_eq!(initial_preset(&names, None), 2);
    assert_eq!(initial_preset(&[], None), 0);
}

#[test]
fn music_shows_unless_another_section_is_on() {
    assert!(show_music(true, true, true));
    assert!(show_music(false, false, false));
    assert!(!show_music(false, true, false));
    assert!(!show_music(false, false, true));
}

#[test]
fn the_column_catalog_builds_known_tokens() {
    for id in [
        "cover", "glyph", "artist", "album", "genre", "title", "trackno", "year", "duration",
        "bitrate", "format", "playcount", "added", "lastplayed", "rating",
    ] {
        assert!(column_spec(id).is_some(), "{id}");
    }
    assert!(column_spec("bogus").is_none());
    let title = column_spec("title").unwrap();
    assert_eq!((title.kind, title.title, title.expand, title.edit_key), (ColumnKind::Text, "Title", true, Some("title")));
    let dur = column_spec("duration").unwrap();
    assert_eq!((dur.mono, dur.width, dur.align, dur.sort), (true, Some(80), Align::End, Some(SortBy::Duration)));
    let cover = column_spec("cover").unwrap();
    assert_eq!((cover.kind, cover.width, cover.resizable), (ColumnKind::Cover, Some(32), false));
    let rating = column_spec("rating").unwrap();
    assert_eq!((rating.title, rating.width, rating.sort), ("Rating", Some(96), Some(SortBy::Rating)));
    assert_eq!(column_spec("trackno").unwrap().title, "#");
}
