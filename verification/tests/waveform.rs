use conservatory::waveform::Envelope;

#[test]
fn a_current_decode_is_shown() {
    let mut env: Envelope<f32> = Envelope::new();
    let g = env.begin_load();
    assert_eq!(g, 1);
    env.apply_envelope(g, Some(vec![0.5, 1.0]));
    assert_eq!(env.peak, vec![0.5, 1.0]);
}

#[test]
fn a_late_decode_is_dropped() {
    let mut env: Envelope<f32> = Envelope::new();
    let first = env.begin_load();
    let second = env.begin_load();
    assert_ne!(first, second);
    env.apply_envelope(first, Some(vec![0.25]));
    assert!(env.peak.is_empty());
    env.apply_envelope(second, Some(vec![0.75]));
    assert_eq!(env.peak, vec![0.75]);
}

#[test]
fn a_failed_decode_leaves_the_flat_line() {
    let mut env: Envelope<f32> = Envelope::new();
    let g = env.begin_load();
    env.apply_envelope(g, Some(vec![0.1]));
    let g = env.begin_load();
    assert!(env.peak.is_empty());
    env.apply_envelope(g, None);
    assert!(env.peak.is_empty());
}

#[test]
fn clear_makes_a_load_in_flight_stale() {
    let mut env: Envelope<f32> = Envelope::new();
    let g = env.begin_load();
    env.clear();
    env.apply_envelope(g, Some(vec![0.3]));
    assert!(env.peak.is_empty());
}

#[test]
fn the_generation_wraps() {
    let mut env: Envelope<u8> = Envelope { peak: vec![1], generation: u64::MAX };
    assert_eq!(env.begin_load(), 0);
    assert!(env.peak.is_empty());
}
