use std::path::Path;

use conservatory::media::MediaKind;
use conservatory::playqueue::{
    build_episode_queue, build_play_queue, drop_target_position, fmt_position, fmt_secs,
    join_root, DropBias, EpisodeSource,
};

/// Fetched track rows as `(id, file_path)`.
fn tracks(list: &[(i64, &str)]) -> Vec<(i64, String)> {
    list.iter().map(|(id, p)| (*id, p.to_string())).collect()
}

#[test]
fn preserves_display_order_and_joins_root() {
    let ids = vec![3, 1, 2];
    let rows = tracks(&[(1, "a.flac"), (2, "b.flac"), (3, "c.flac")]);
    let (items, start) = build_play_queue(&ids, 0, &rows, "/lib");
    assert_eq!(items.iter().map(|i| i.id).collect::<Vec<_>>(), vec![3, 1, 2]);
    assert_eq!(items[0].source, "/lib/c.flac");
    assert!(items.iter().all(|i| i.kind == MediaKind::Track));
    assert_eq!(start, 0);
}

#[test]
fn start_points_at_the_activated_track() {
    let ids = vec![10, 20, 30];
    let rows = tracks(&[(10, "a"), (20, "b"), (30, "c")]);
    let (_items, start) = build_play_queue(&ids, 2, &rows, "/m");
    assert_eq!(start, 2);
}

#[test]
fn missing_track_is_skipped_and_start_reindexes() {
    let ids = vec![10, 20, 30];
    let rows = tracks(&[(10, "a"), (30, "c")]);
    let (items, start) = build_play_queue(&ids, 2, &rows, "/m");
    assert_eq!(items.iter().map(|i| i.id).collect::<Vec<_>>(), vec![10, 30]);
    assert_eq!(items[1].source, "/m/c");
    assert_eq!(start, 1);
}

#[test]
fn vanished_activated_track_falls_back_to_start() {
    let ids = vec![10, 20, 30];
    let rows = tracks(&[(10, "a"), (30, "c")]);
    let (_items, start) = build_play_queue(&ids, 1, &rows, "/m");
    assert_eq!(start, 0);
}

#[test]
fn out_of_range_activation_starts_at_the_top() {
    let rows = tracks(&[(10, "a"), (20, "b")]);
    let (items, start) = build_play_queue(&[10, 20], 9, &rows, "/m");
    assert_eq!(items.len(), 2);
    assert_eq!(start, 0);
}

#[test]
fn a_repeated_row_id_queues_the_last_row() {
    let rows = tracks(&[(10, "old"), (10, "new")]);
    let (items, _) = build_play_queue(&[10], 0, &rows, "/m");
    assert_eq!(items.len(), 1);
    assert_eq!(items[0].source, "/m/new");
}

#[test]
fn the_root_joins_like_path_join() {
    for (root, rel) in [
        ("/lib", "a/b.flac"),
        ("/lib/", "a.flac"),
        ("", "a.flac"),
        ("/lib", "/abs/x.flac"),
        ("/lib", ""),
        ("rel/root", "x"),
    ] {
        assert_eq!(
            join_root(root, rel),
            Path::new(root).join(rel).to_str().unwrap(),
            "{root:?} + {rel:?}"
        );
    }
}

#[test]
fn drop_position_dragging_down() {
    assert_eq!(drop_target_position(0, 3, DropBias::Below, 5), 3);
    assert_eq!(drop_target_position(0, 3, DropBias::Above, 5), 2);
}

#[test]
fn drop_position_dragging_up() {
    assert_eq!(drop_target_position(4, 1, DropBias::Above, 5), 1);
    assert_eq!(drop_target_position(4, 1, DropBias::Below, 5), 2);
}

#[test]
fn drop_position_clamps_at_the_end() {
    assert_eq!(drop_target_position(0, 4, DropBias::Below, 5), 4);
}

#[test]
fn drop_lands_beside_the_target_row() {
    // Apply the reorder the way the queue does: remove, then insert.
    let queue = vec!['a', 'b', 'c', 'd', 'e'];
    for from in 0..5 {
        for dest in 0..5 {
            if from == dest {
                continue;
            }
            for bias in [DropBias::Above, DropBias::Below] {
                let to = drop_target_position(from, dest, bias, 5);
                let mut q = queue.clone();
                let item = q.remove(from);
                q.insert(to, item);
                let target = q.iter().position(|c| *c == queue[dest]).unwrap();
                match bias {
                    DropBias::Above => assert_eq!(to + 1, target),
                    DropBias::Below => assert_eq!(to, target + 1),
                }
            }
        }
    }
}

#[test]
fn drop_on_an_empty_queue_is_zero() {
    assert_eq!(drop_target_position(0, 0, DropBias::Below, 0), 0);
}

#[test]
fn build_episode_queue_prefers_local_streams_else_and_skips_sourceless() {
    let episodes = vec![
        EpisodeSource {
            id: 1,
            audio_path: Some("Podcasts/s/2024-01-01--e/a.mp3".to_string()),
            audio_url: Some("https://cdn/a.mp3".to_string()),
        },
        EpisodeSource {
            id: 2,
            audio_path: None,
            audio_url: Some("https://cdn/b.mp3".to_string()),
        },
        EpisodeSource {
            id: 3,
            audio_path: None,
            audio_url: None,
        },
    ];
    let (items, start) = build_episode_queue(&episodes, 1, "/lib");
    assert_eq!(items.len(), 2, "the source-less episode is skipped");
    assert_eq!(items[0].source, "/lib/Podcasts/s/2024-01-01--e/a.mp3");
    assert_eq!(items[1].source, "https://cdn/b.mp3");
    assert_eq!(items[0].kind, MediaKind::Episode);
    assert_eq!(start, 1, "activated episode id 2 is item index 1");
}

#[test]
fn sourceless_activated_episode_falls_back_to_start() {
    let episodes = vec![
        EpisodeSource { id: 1, audio_path: None, audio_url: Some("u".into()) },
        EpisodeSource { id: 2, audio_path: None, audio_url: None },
    ];
    let (items, start) = build_episode_queue(&episodes, 1, "/lib");
    assert_eq!(items.len(), 1);
    assert_eq!(items[0].source, "u");
    assert_eq!(start, 0);
}

#[test]
fn formats_times() {
    assert_eq!(fmt_secs(0), "0:00");
    assert_eq!(fmt_secs(7), "0:07");
    assert_eq!(fmt_secs(187), "3:07");
    assert_eq!(fmt_position(72, Some(220)), "1:12 / 3:40");
    assert_eq!(fmt_position(5, None), "0:05");
}
