use conservatory::capture::{CaptureGuard, TapAction};

#[test]
fn the_tap_runs_only_with_the_drawer_open_and_playback_on() {
    let mut g = CaptureGuard::new();
    assert_eq!(g.set_playing(true), TapAction::Nothing);
    assert!(!g.running);
    assert_eq!(g.set_mapped(true), TapAction::Start);
    assert!(g.running);
    assert_eq!(g.set_playing(true), TapAction::Nothing);
    assert_eq!(g.set_playing(false), TapAction::Stop);
    assert!(!g.running);
    assert_eq!(g.set_playing(true), TapAction::Start);
    assert_eq!(g.set_mapped(false), TapAction::Stop);
    assert_eq!(g.refresh(), TapAction::Nothing);
    assert!(!g.running);
}

#[test]
fn refreshing_is_idempotent() {
    let mut g = CaptureGuard { mapped: true, playing: true, running: false };
    assert_eq!(g.refresh(), TapAction::Start);
    assert_eq!(g.refresh(), TapAction::Nothing);
    let mut g = CaptureGuard { mapped: false, playing: true, running: true };
    assert_eq!(g.refresh(), TapAction::Stop);
    assert_eq!(g.refresh(), TapAction::Nothing);
}
