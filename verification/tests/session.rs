use voxel_tracer::RenderSession;

#[test]
fn fresh_session_starts_at_frame_one_with_everything_on() {
    let s = RenderSession::new(4);
    assert!(s.autorotate);
    assert!(s.env_on);
    assert_eq!(s.env_samples, 4);
    assert_eq!(s.frame_id, 1);
}

#[test]
fn toggles_flip_and_flip_back() {
    let mut s = RenderSession::new(4);
    s.toggle_rotate();
    assert!(!s.autorotate);
    assert!(s.env_on);
    s.toggle_rotate();
    assert!(s.autorotate);

    s.toggle_env();
    assert!(!s.env_on);
    assert!(s.autorotate);
    s.toggle_env();
    assert!(s.env_on);
}

#[test]
fn ambient_samples_drop_to_zero_while_off() {
    let mut s = RenderSession::new(16);
    assert_eq!(s.samples_for_frame(), 16);
    s.toggle_env();
    assert_eq!(s.samples_for_frame(), 0);
    s.toggle_env();
    assert_eq!(s.samples_for_frame(), 16);
}

#[test]
fn frame_counter_advances_and_wraps() {
    let mut s = RenderSession::new(4);
    s.advance_frame();
    s.advance_frame();
    assert_eq!(s.frame_id, 3);

    let mut t = RenderSession::new(4);
    t.frame_id = u64::MAX;
    t.advance_frame();
    assert_eq!(t.frame_id, 0);
}
