use conservatory::media::MediaKind;
use conservatory::objects::chapter_title;
use conservatory::transport::{
    cascade_plan, glyph_target, nudge_volume, plan_now_bar, queue_highlight, queue_move_target,
    toggle_mute, NowBarUpdate, Playback,
};

#[test]
fn volume_nudges_clamp_to_the_scale() {
    assert_eq!(nudge_volume(50, 5), 55);
    assert_eq!(nudge_volume(98, 5), 100);
    assert_eq!(nudge_volume(3, -5), 0);
    assert_eq!(nudge_volume(i64::MAX, 5), 100);
}

#[test]
fn mute_remembers_and_restores_the_level() {
    let (memory, set) = toggle_mute(None, 70);
    assert_eq!((memory, set), (Some(70), 0));
    assert_eq!(toggle_mute(memory, set), (None, 70));
}

#[test]
fn keyboard_reorder_moves_one_row_within_the_queue() {
    assert_eq!(queue_move_target(Some(2), 5, -1), Some((2, 1)));
    assert_eq!(queue_move_target(Some(2), 5, 1), Some((2, 3)));
    // At the ends the move is a no-op.
    assert_eq!(queue_move_target(Some(0), 5, -1), None);
    assert_eq!(queue_move_target(Some(4), 5, 1), None);
    // No selection, or an empty queue: nothing to move.
    assert_eq!(queue_move_target(None, 5, 1), None);
    assert_eq!(queue_move_target(None, 0, 1), None);
}

#[test]
fn queue_highlight_follows_the_engine_slot() {
    assert_eq!(queue_highlight(None, false, Some(3)), Some(Some(3)));
    assert_eq!(queue_highlight(Some(3), false, Some(3)), None);
    assert_eq!(queue_highlight(Some(3), true, Some(3)), Some(None));
    assert_eq!(queue_highlight(None, true, None), None);
}

#[test]
fn glyphs_mark_only_a_playing_track() {
    assert_eq!(glyph_target(Some(MediaKind::Track), false, Some(7)), (true, Some(7)));
    assert_eq!(glyph_target(Some(MediaKind::Track), true, Some(7)), (false, None));
    assert_eq!(glyph_target(Some(MediaKind::Episode), false, Some(7)), (false, None));
    assert_eq!(glyph_target(None, false, Some(7)), (false, None));
}

#[test]
fn cascade_keeps_the_constraining_upstream_panes() {
    let values = vec![vec!["Jazz".to_string()], vec![], vec!["Miles".to_string()]];
    let (ps, first) = cascade_plan(&values, 1).unwrap();
    assert_eq!(ps, vec![0]);
    assert_eq!(first, 2);
    let (ps, first) = cascade_plan(&values, 9).unwrap();
    assert_eq!(ps, vec![0, 2]);
    assert_eq!(first, 3);
    assert!(cascade_plan(&[], 0).is_none());
}

fn playback() -> Playback {
    Playback {
        track_id: Some(5),
        current_index: Some(0),
        kind: Some(MediaKind::Track),
        paused: false,
        ended: false,
        buffering: false,
        streaming: false,
        chapter_count: 0,
        channels: Some(2),
    }
}

#[test]
fn now_bar_shows_a_playing_track() {
    let (flowing, update) = plan_now_bar(playback(), None, None);
    assert!(flowing);
    match update {
        NowBarUpdate::Show(v) => {
            assert!(v.item_changed);
            assert_eq!(v.play_icon, "media-playback-pause-symbolic");
            assert!(!v.chapter_nav);
            assert!(!v.podcast_button);
            assert_eq!(v.tech_channels, Some(2));
        }
        _ => panic!("a loaded track shows"),
    }
    // The same item on the same slot is not re-read.
    match plan_now_bar(playback(), Some(5), Some(0)).1 {
        NowBarUpdate::Show(v) => assert!(!v.item_changed),
        _ => panic!("a loaded track shows"),
    }
}

#[test]
fn now_bar_for_a_paused_episode_with_chapters() {
    let mut p = playback();
    p.kind = Some(MediaKind::Episode);
    p.paused = true;
    p.chapter_count = 3;
    // Same id as the last shown track, but a different queue slot.
    let (flowing, update) = plan_now_bar(p, Some(5), Some(1));
    assert!(!flowing);
    match update {
        NowBarUpdate::Show(v) => {
            assert!(v.item_changed);
            assert_eq!(v.play_icon, "media-playback-start-symbolic");
            assert!(v.chapter_nav);
            assert!(v.podcast_button);
            assert_eq!(v.tech_channels, None);
        }
        _ => panic!("a loaded episode shows"),
    }
}

#[test]
fn now_bar_clears_once_playback_ends() {
    let mut p = playback();
    p.ended = true;
    assert!(matches!(plan_now_bar(p, Some(5), Some(0)).1, NowBarUpdate::Clear));
    assert!(matches!(plan_now_bar(p, None, None).1, NowBarUpdate::Unchanged));
}

#[test]
fn chapter_rows_fall_back_to_numbers() {
    assert_eq!(chapter_title(Some("Prologue"), 0), "Prologue");
    assert_eq!(chapter_title(Some(""), 2), "Chapter 3");
    assert_eq!(chapter_title(None, 0), "Chapter 1");
}
