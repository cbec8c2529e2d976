use conservatory::media::{
    fmt_sleep_remaining, kind_icon, now_bar_subtitle, quick_seek_labels, sleep_boundary_label,
    now_bar_sleep, sleep_drawer_text, smart_speed_texts,
    MediaKind, SleepMode, SleepStatus,
};

#[test]
fn remaining_rounds_up_to_clock() {
    // The caller rounds up; 59.2 s left arrives as 60.
    assert_eq!(fmt_sleep_remaining(900), "15:00");
    assert_eq!(fmt_sleep_remaining(60), "1:00");
    assert_eq!(fmt_sleep_remaining(61), "1:01");
    assert_eq!(fmt_sleep_remaining(0), "0:00");
}

#[test]
fn subtitle_folds_redundant_album() {
    assert_eq!(
        now_bar_subtitle("Aphex Twin", Some("SAW 85-92")),
        "Aphex Twin · SAW 85-92"
    );
    assert_eq!(now_bar_subtitle("Cortex", Some("Cortex")), "Cortex");
    assert_eq!(now_bar_subtitle("Aesop Rock", None), "Aesop Rock");
    assert_eq!(now_bar_subtitle("Aesop Rock", Some("  ")), "Aesop Rock");
    assert_eq!(now_bar_subtitle("", Some("Some Album")), "Some Album");
}

#[test]
fn subtitle_folding_ignores_ascii_case_and_trims() {
    assert_eq!(now_bar_subtitle("CORTEX", Some(" cortex ")), "CORTEX");
    assert_eq!(now_bar_subtitle("A", Some("  B  ")), "A · B");
}

#[test]
fn boundary_label_follows_kind() {
    assert_eq!(sleep_boundary_label(Some(MediaKind::Episode)), "End of episode");
    assert_eq!(sleep_boundary_label(Some(MediaKind::Audiobook)), "End of book");
    assert_eq!(sleep_boundary_label(Some(MediaKind::Track)), "End of track");
    assert_eq!(sleep_boundary_label(None), "End of track");
}

fn status(mode: SleepMode, remaining: Option<u64>, fired: bool) -> SleepStatus {
    SleepStatus { mode, remaining, fired }
}

#[test]
fn sleep_drawer_text_cases() {
    assert_eq!(sleep_drawer_text(None, None), None);
    assert_eq!(
        sleep_drawer_text(
            Some(status(SleepMode::After(900), Some(125), false)),
            Some(MediaKind::Episode),
        ),
        Some("Sleep · 2:05".to_string()),
    );
    assert_eq!(
        sleep_drawer_text(Some(status(SleepMode::After(900), Some(0), true)), None),
        Some("Sleep · tap play to extend".to_string()),
    );
    assert_eq!(
        sleep_drawer_text(
            Some(status(SleepMode::EndOfItem, None, false)),
            Some(MediaKind::Episode),
        ),
        Some("Sleep · until end of episode".to_string()),
    );
    assert_eq!(
        sleep_drawer_text(
            Some(status(SleepMode::EndOfItem, None, false)),
            Some(MediaKind::Track),
        ),
        Some("Sleep · until end of track".to_string()),
    );
    assert_eq!(
        sleep_drawer_text(
            Some(status(SleepMode::EndOfQueue, None, false)),
            Some(MediaKind::Episode),
        ),
        Some("Sleep · until end of queue".to_string()),
    );
    assert_eq!(
        sleep_drawer_text(
            Some(status(SleepMode::EndOfItem, None, false)),
            Some(MediaKind::Audiobook),
        ),
        Some("Sleep · until end of book".to_string()),
    );
}

#[test]
fn queue_kind_icons() {
    assert_eq!(kind_icon(MediaKind::Track), "audio-x-generic-symbolic");
    assert_eq!(kind_icon(MediaKind::Episode), "audio-speakers-symbolic");
    assert_eq!(kind_icon(MediaKind::Audiobook), "book-open-variant-symbolic");
}

#[test]
fn quick_seek_labels_follow_the_amounts() {
    let (b, f, bt, ft) = quick_seek_labels(15, 30);
    assert_eq!(b, "\u{2212}15");
    assert_eq!(f, "+30");
    assert_eq!(bt, "Back 15 seconds");
    assert_eq!(ft, "Forward 30 seconds");
}

#[test]
fn smart_speed_reads_the_time_saved() {
    let (text, tip) = smart_speed_texts(187);
    assert_eq!(text, "Smart Speed · saved 3:07");
    assert_eq!(tip, "Smart Speed is shortening silences; 3:07 saved this session");
}

#[test]
fn now_bar_sleep_shows_the_countdown_beside_the_moon() {
    assert_eq!(now_bar_sleep(None), (false, String::new()));
    let timer = SleepStatus { mode: SleepMode::After(900), remaining: Some(900), fired: false };
    assert_eq!(now_bar_sleep(Some(timer)), (true, "15:00".to_string()));
    let boundary = SleepStatus { mode: SleepMode::EndOfItem, remaining: None, fired: false };
    assert_eq!(now_bar_sleep(Some(boundary)), (true, String::new()));
}
