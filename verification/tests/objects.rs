use conservatory::objects::{
    book_chapter_label, chapter_duration, chapter_row_label, effective_values, shelf_empty_copy,
    track_duration_text, BookRow, BookState, EpisodeRow, FacetRow, PlayedState,
};

fn episode(duration: Option<u32>, played: PlayedState) -> EpisodeRow {
    EpisodeRow {
        id: 1,
        show_id: 1,
        show_title: "Show".to_string(),
        title: "Episode".to_string(),
        description: None,
        pub_date: None,
        duration,
        played,
        starred: false,
        in_queue: false,
        audio_path: None,
        audio_url: None,
    }
}

#[test]
fn duration_and_state_formatting() {
    let long = episode(Some(3725), PlayedState::PlayedFully);
    assert_eq!(long.duration_text(), "1:02:05");
    assert_eq!(long.state_icon(), "object-select-symbolic");

    let short = episode(Some(95), PlayedState::Unplayed);
    assert_eq!(short.duration_text(), "1:35");
    assert_eq!(short.state_icon(), "media-record-symbolic");

    let none = episode(None, PlayedState::InProgress);
    assert_eq!(none.duration_text(), "");
    assert_eq!(none.state_label(), "In progress");
}

#[test]
fn episode_date_is_the_utc_calendar_day() {
    let mut e = episode(None, PlayedState::Unplayed);
    assert_eq!(e.date_text(), "");
    // 2024-01-01T23:30:00Z
    e.pub_date = Some(1_704_151_800);
    assert_eq!(e.date_text(), "2024-01-01");
    e.pub_date = Some(0);
    assert_eq!(e.date_text(), "1970-01-01");
}

#[test]
fn episode_states_label_and_icon() {
    let a = episode(None, PlayedState::ArchivedUnlistened);
    assert_eq!(a.state_label(), "Archived");
    assert_eq!(a.state_icon(), "object-select-symbolic");
    assert_eq!(episode(None, PlayedState::PlayedFully).state_label(), "Played");
    assert_eq!(episode(None, PlayedState::Unplayed).state_label(), "Unplayed");
}

fn book() -> BookRow {
    BookRow {
        id: 1,
        title: "The Name of the Wind".to_string(),
        subtitle: None,
        author_display: Some("Patrick Rothfuss".to_string()),
        narrator_display: Some("Nick Podehl".to_string()),
        series_name: Some("The Kingkiller Chronicle".to_string()),
        series_sequence: Some("1".to_string()),
        year: Some(2009),
        cover_path: None,
        accent_rgb: Some(0x3366cc),
        starred: false,
        rating: 5,
        state: BookState::New,
    }
}

#[test]
fn progress_state_and_meta_formatting() {
    let mut r = book();
    assert_eq!(r.state_label(), "New");
    assert_eq!(r.series_text(), "The Kingkiller Chronicle #1");
    assert_eq!(
        r.meta_line(),
        "Patrick Rothfuss · Read by Nick Podehl · The Kingkiller Chronicle #1 · 2009"
    );
    r.state = BookState::InProgress;
    assert_eq!(r.state_label(), "In progress");
    r.state = BookState::Finished;
    assert_eq!(r.state_label(), "Finished");
    r.series_sequence = Some("1.5".to_string());
    assert_eq!(r.series_text(), "The Kingkiller Chronicle #1.5");
}

#[test]
fn meta_line_skips_absent_parts() {
    let mut r = book();
    r.narrator_display = None;
    r.series_name = None;
    r.year = None;
    assert_eq!(r.meta_line(), "Patrick Rothfuss");
    r.author_display = None;
    assert_eq!(r.meta_line(), "");
    r.series_name = Some("Solo".into());
    r.series_sequence = None;
    assert_eq!(r.series_text(), "Solo");
}

#[test]
fn facet_rows_render_value_or_all() {
    let v = FacetRow::value_row("Electronic", 12);
    assert_eq!(v.value_text("genres"), "Electronic");
    assert_eq!(v.count(), 12);
    assert!(!v.is_all());
    let all = FacetRow::all_row(3, 40);
    assert_eq!(all.value_text("genres"), "[All (3 genres)]");
    assert_eq!(all.count(), 40);
    assert!(all.is_all());
}

#[test]
fn effective_values_are_the_selected_values() {
    let rows = vec![
        FacetRow::all_row(2, 5),
        FacetRow::value_row("Jazz", 3),
        FacetRow::value_row("Rock", 2),
    ];
    assert_eq!(effective_values(&rows, &[false, true, true]), vec!["Jazz", "Rock"]);
    assert!(effective_values(&rows, &[true, true, false]).is_empty());
    assert!(effective_values(&rows, &[false, false, false]).is_empty());
    assert_eq!(effective_values(&rows, &[false, false, true]), vec!["Rock"]);
}

#[test]
fn chapter_durations() {
    assert_eq!(chapter_duration(Some(3725)), "1:02:05");
    assert_eq!(chapter_duration(Some(59)), "0:59");
    assert_eq!(chapter_duration(Some(0)), "");
    assert_eq!(chapter_duration(None), "");
}

#[test]
fn an_empty_shelf_says_why() {
    assert_eq!(
        shelf_empty_copy("  tolkien "),
        ("system-search-symbolic", "No matches", "No books match the current filter.")
    );
    let (icon, title, desc) = shelf_empty_copy("   ");
    assert_eq!(icon, "audio-x-generic-symbolic");
    assert_eq!(title, "No audiobooks yet");
    assert!(desc.starts_with("Import a book from a terminal to start your shelf:\n"));
    assert!(desc.ends_with("<library root>"));
}

#[test]
fn chapter_labels() {
    assert_eq!(book_chapter_label(Some("Prologue"), 0), " 1.  Prologue");
    assert_eq!(book_chapter_label(None, 11), "12.  Chapter 12");
    assert_eq!(book_chapter_label(Some(""), 2), " 3.  ");
    assert_eq!(chapter_row_label(187, Some("Intro"), 0), "3:07   Intro");
    assert_eq!(chapter_row_label(0, Some(""), 4), "0:00   Chapter 5");
    assert_eq!(chapter_row_label(65, None, 1), "1:05   Chapter 2");
}

#[test]
fn leaf_durations_round_to_the_second() {
    assert_eq!(track_duration_text(None), "");
    assert_eq!(track_duration_text(Some(187)), "3:07");
    assert_eq!(track_duration_text(Some(0)), "0:00");
    assert_eq!(track_duration_text(Some(4_500)), "75:00");
}
