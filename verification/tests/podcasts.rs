use conservatory::objects::{EpisodeRow, PlayedState};
use conservatory::podcasts::{
    default_settings, detail_subtitle, empty_copy, episode_detail, fmt_last_refreshed,
    inbox_policy_from_index, played_at, sidebar_selection, sidebar_sources, toggle_played,
    inbox_policy_index, settings_from_form, summarize_refresh, InboxPolicy, Instant,
    RefreshOutcome, RefreshStatus, ShowSettings,
    Source, TriageBucket,
};

fn outcome(title: &str, status: RefreshStatus) -> RefreshOutcome {
    RefreshOutcome { show_title: title.to_string(), status }
}

#[test]
fn summarize_refresh_covers_empty_single_and_batch() {
    assert_eq!(summarize_refresh(&[]), "No subscriptions to refresh");
    assert_eq!(
        summarize_refresh(&[outcome("ATP", RefreshStatus::NotModified)]),
        "Refreshed ATP: no new episodes"
    );
    let batch = [
        outcome("ATP", RefreshStatus::Updated { new: 2, total: 10 }),
        outcome("Upgrade", RefreshStatus::Updated { new: 1, total: 8 }),
        outcome("Dead Feed", RefreshStatus::Failed("410 Gone".into())),
    ];
    assert_eq!(
        summarize_refresh(&batch),
        "Refreshed 3 shows: 3 new episodes \u{2022} 1 failed"
    );
}

#[test]
fn summarize_refresh_singular_episode() {
    assert_eq!(
        summarize_refresh(&[outcome("ATP", RefreshStatus::Updated { new: 1, total: 3 })]),
        "Refreshed ATP: 1 new episode"
    );
}

fn at(secs: i64) -> Instant {
    Instant { secs, nanos: 0 }
}

#[test]
fn fmt_last_refreshed_buckets_by_age() {
    // 2026-07-01T12:00:00Z
    let now = at(1_782_907_200);
    assert_eq!(fmt_last_refreshed(now, None), "Never refreshed");
    assert_eq!(fmt_last_refreshed(now, Some(at(1_782_907_180))), "Last refreshed just now");
    assert_eq!(fmt_last_refreshed(now, Some(at(1_782_904_500))), "Last refreshed 45 min ago");
    assert_eq!(fmt_last_refreshed(now, Some(at(1_782_907_200 - 6 * 3600))), "Last refreshed 6 h ago");
    assert_eq!(
        fmt_last_refreshed(now, Some(at(1_782_907_200 - 3 * 86_400))),
        "Last refreshed 3 day(s) ago"
    );
}

#[test]
fn fmt_last_refreshed_counts_whole_minutes() {
    let now = Instant { secs: 120, nanos: 0 };
    // 59.5 s ago is under a minute.
    assert_eq!(
        fmt_last_refreshed(now, Some(Instant { secs: 60, nanos: 500_000_000 })),
        "Last refreshed just now"
    );
    // A refresh stamped in the future reads as just now.
    assert_eq!(fmt_last_refreshed(now, Some(at(600))), "Last refreshed just now");
}

#[test]
fn inbox_policy_index_round_trips() {
    for policy in [InboxPolicy::Inbox, InboxPolicy::AlwaysQueue, InboxPolicy::AlwaysArchive] {
        assert_eq!(inbox_policy_from_index(inbox_policy_index(policy)), policy);
    }
    assert_eq!(inbox_policy_index(InboxPolicy::Inbox), 0);
    assert_eq!(inbox_policy_index(InboxPolicy::AlwaysQueue), 1);
    assert_eq!(inbox_policy_index(InboxPolicy::AlwaysArchive), 2);
}

#[test]
fn inbox_policy_from_out_of_range_index_degrades_to_inbox() {
    assert_eq!(inbox_policy_from_index(99), InboxPolicy::Inbox);
}

#[test]
fn empty_copy_follows_the_source() {
    assert_eq!(empty_copy(Source::Bucket(TriageBucket::Inbox)).0, "Inbox is empty");
    assert_eq!(empty_copy(Source::Bucket(TriageBucket::Queue)).0, "Queue is empty");
    assert_eq!(empty_copy(Source::Bucket(TriageBucket::Played)).0, "Nothing played yet");
    assert_eq!(empty_copy(Source::Show(4)).1, "Refresh to fetch this show's episodes.");
    assert_eq!(empty_copy(Source::Tag(2)).1, "No episodes carry this tag.");
}

#[test]
fn detail_subtitle_joins_the_known_parts() {
    let mut e = EpisodeRow {
        id: 1,
        show_id: 1,
        show_title: "ATP".to_string(),
        title: "Ep".to_string(),
        description: None,
        pub_date: None,
        duration: None,
        played: PlayedState::Unplayed,
        starred: false,
        in_queue: false,
        audio_path: None,
        audio_url: None,
    };
    assert_eq!(detail_subtitle(&e), "ATP");
    e.duration = Some(95);
    e.pub_date = Some(0);
    assert_eq!(detail_subtitle(&e), "ATP  \u{2022}  1970-01-01  \u{2022}  1:35");
}

#[test]
fn settings_from_form_applies_edits_and_preserves_skip_fields() {
    let current = ShowSettings {
        show_id: 7,
        playback_speed_milli: 1000,
        smart_speed: true,
        voice_boost: false,
        skip_intro: 0,
        skip_outro: 0,
        skip_forward: Some(45),
        skip_back: Some(15),
        inbox_policy: InboxPolicy::Inbox,
    };
    let out = settings_from_form(Some(&current), 7, 1500, false, true, 30, 20, InboxPolicy::AlwaysQueue);
    assert_eq!(out.playback_speed_milli, 1500);
    assert!(!out.smart_speed);
    assert!(out.voice_boost);
    assert_eq!((out.skip_intro, out.skip_outro), (30, 20));
    assert_eq!(out.inbox_policy, InboxPolicy::AlwaysQueue);
    assert_eq!(out.skip_forward, Some(45));
    assert_eq!(out.skip_back, Some(15));
}

#[test]
fn settings_from_form_without_current_leaves_skip_fields_unset() {
    let out = settings_from_form(None, 3, 1000, true, false, 0, 0, InboxPolicy::AlwaysArchive);
    assert_eq!(out.skip_forward, None);
    assert_eq!(out.skip_back, None);
    assert_eq!(out.inbox_policy, InboxPolicy::AlwaysArchive);
}

#[test]
fn default_settings_matches_schema_defaults() {
    let d = default_settings(1);
    assert_eq!(d.playback_speed_milli, 1000);
    assert!(d.smart_speed);
    assert!(!d.voice_boost);
    assert_eq!(d.inbox_policy, InboxPolicy::Inbox);
    assert_eq!(d.show_id, 1);
    assert_eq!((d.skip_intro, d.skip_outro, d.skip_forward, d.skip_back), (0, 0, None, None));
}

fn listed_episode(played: PlayedState, starred: bool, description: Option<&str>) -> EpisodeRow {
    EpisodeRow {
        id: 9,
        show_id: 2,
        show_title: "The Show".to_string(),
        title: "Pilot".to_string(),
        description: description.map(str::to_string),
        pub_date: Some(1_700_000_000),
        duration: Some(95),
        played,
        starred,
        in_queue: false,
        audio_path: None,
        audio_url: None,
    }
}

#[test]
fn played_toggle_moves_between_unplayed_and_played() {
    assert_eq!(toggle_played(PlayedState::PlayedFully), PlayedState::Unplayed);
    assert_eq!(toggle_played(PlayedState::Unplayed), PlayedState::PlayedFully);
    assert_eq!(toggle_played(PlayedState::InProgress), PlayedState::PlayedFully);
    assert_eq!(toggle_played(PlayedState::ArchivedUnlistened), PlayedState::PlayedFully);
    assert_eq!(played_at(PlayedState::PlayedFully, 42), Some(42));
    assert_eq!(played_at(PlayedState::ArchivedUnlistened, 42), None);
}

#[test]
fn episode_detail_for_a_selected_episode() {
    let now = Instant { secs: 1_700_000_000, nanos: 0 };
    let e = listed_episode(PlayedState::PlayedFully, true, Some("  Notes here "));
    let d = episode_detail(Some(&e), "ignored", Source::Show(2), now, None);
    assert_eq!(d.title, "Pilot");
    assert_eq!(d.subtitle, "The Show  \u{2022}  2023-11-14  \u{2022}  1:35");
    assert_eq!(d.notes, "  Notes here ");
    assert!(d.actions);
    assert_eq!(d.played_label, Some("Mark unplayed"));
    assert_eq!(d.star_label, Some("Unstar"));

    let blank = listed_episode(PlayedState::Unplayed, false, Some(" \n "));
    let d = episode_detail(Some(&blank), "ignored", Source::Show(2), now, None);
    assert_eq!(d.notes, "No show notes.");
    assert_eq!(d.played_label, Some("Mark played"));
    assert_eq!(d.star_label, Some("Star"));
}

#[test]
fn episode_detail_without_a_selection_shows_the_header() {
    let now = Instant { secs: 1_000_000, nanos: 0 };
    let last = Instant { secs: 1_000_000 - 120, nanos: 0 };
    let d = episode_detail(None, "The Show", Source::Show(2), now, Some(last));
    assert_eq!(d.title, "The Show");
    assert_eq!(d.subtitle, "Last refreshed 2 min ago");
    assert_eq!(d.notes, "Select an episode to read its notes.");
    assert!(!d.actions);
    assert_eq!(d.played_label, None);
    let d = episode_detail(None, "Inbox", Source::Bucket(TriageBucket::Inbox), now, Some(last));
    assert_eq!(d.subtitle, "");
}

#[test]
fn the_sidebar_lists_triage_then_shows_then_tags() {
    let rows = sidebar_sources(&[7, 8], &[3]);
    assert_eq!(
        rows,
        vec![
            None,
            Some(Source::Bucket(TriageBucket::Inbox)),
            Some(Source::Bucket(TriageBucket::Queue)),
            Some(Source::Bucket(TriageBucket::Played)),
            None,
            Some(Source::Show(7)),
            Some(Source::Show(8)),
            None,
            Some(Source::Tag(3)),
        ]
    );
    let bare = sidebar_sources(&[], &[]);
    assert_eq!(bare.len(), 4);
    assert_eq!(sidebar_sources(&[], &[5])[4..], [None, Some(Source::Tag(5))]);
}

#[test]
fn the_sidebar_reselects_the_wanted_row_or_the_inbox() {
    let rows = sidebar_sources(&[7, 8], &[3]);
    assert_eq!(sidebar_selection(&rows, Some(Source::Show(8))), 6);
    assert_eq!(sidebar_selection(&rows, Some(Source::Tag(3))), 8);
    assert_eq!(sidebar_selection(&rows, Some(Source::Bucket(TriageBucket::Played))), 3);
    assert_eq!(sidebar_selection(&rows, Some(Source::Show(99))), 1);
    assert_eq!(sidebar_selection(&rows, None), 1);
}
