use duck_client::animation::trigger_step_sound_effect;
use duck_client::animation::update_animation_atlas;
use duck_client::animation::OtherPlayerAnimation;
use duck_client::animation::OtherPlayerAnimationState;
use duck_client::animation::IDLE_INTERVAL_MS;
use duck_client::animation::WALKING_INTERVAL_MS;

#[test]
fn new_animation_idles_on_frame_zero() {
    let a = OtherPlayerAnimation::new();
    assert_eq!(a.state, OtherPlayerAnimationState::Idling);
    assert_eq!(a.frame, 0);
    assert_eq!(a.loops, 0);
    assert!(!a.changed());
    assert_eq!(a.get_atlas_index(), 0);
}

#[test]
fn idle_timer_advances_frames_and_loops() {
    let mut a = OtherPlayerAnimation::new();
    a.update_timer(IDLE_INTERVAL_MS);
    assert!(a.changed());
    assert_eq!(a.frame, 1);
    assert_eq!(a.get_atlas_index(), 1);
    a.update_timer(IDLE_INTERVAL_MS);
    assert!(a.changed());
    assert_eq!(a.frame, 0);
    assert_eq!(a.loops, 1);
    // idling never auto-reverts anywhere: it keeps idling forever
    assert_eq!(a.state, OtherPlayerAnimationState::Idling);
}

#[test]
fn short_tick_changes_nothing_visible() {
    let mut a = OtherPlayerAnimation::new();
    a.update_timer(IDLE_INTERVAL_MS - 1);
    assert!(!a.changed());
    assert_eq!(a.frame, 0);
}

#[test]
fn walking_reverts_to_idling_after_exactly_six_frames() {
    let mut a = OtherPlayerAnimation::new();
    a.update_state(OtherPlayerAnimationState::Walking);
    assert_eq!(a.state, OtherPlayerAnimationState::Walking);
    assert_eq!(a.frame, 0);
    for expected_frame in 1..=5 {
        a.update_timer(WALKING_INTERVAL_MS);
        assert_eq!(a.state, OtherPlayerAnimationState::Walking);
        assert_eq!(a.frame, expected_frame);
    }
    // the sixth frame advance completes the single allowed loop
    a.update_timer(WALKING_INTERVAL_MS);
    assert_eq!(a.state, OtherPlayerAnimationState::Idling);
    assert_eq!(a.frame, 0);
    assert_eq!(a.loops, 0);
    assert!(!a.changed());
}

#[test]
fn update_state_to_same_state_is_a_no_op() {
    let mut a = OtherPlayerAnimation::new();
    a.update_state(OtherPlayerAnimationState::Walking);
    a.update_timer(WALKING_INTERVAL_MS);
    assert_eq!(a.frame, 1);
    a.update_state(OtherPlayerAnimationState::Walking);
    assert_eq!(a.frame, 1);
}

#[test]
fn update_state_resets_wholesale() {
    let mut a = OtherPlayerAnimation::new();
    a.update_timer(IDLE_INTERVAL_MS);
    assert_eq!(a.frame, 1);
    a.update_state(OtherPlayerAnimationState::Walking);
    assert_eq!(a.frame, 0);
    assert_eq!(a.loops, 0);
    assert!(!a.changed());
    assert_eq!(a.timer_elapsed_ms, 0);
}

#[test]
fn walking_atlas_indices_follow_the_idle_range() {
    let mut a = OtherPlayerAnimation::new();
    a.update_state(OtherPlayerAnimationState::Walking);
    a.update_timer(WALKING_INTERVAL_MS);
    assert_eq!(a.frame, 1);
    assert_eq!(a.get_atlas_index(), 3);
}

#[test]
fn step_sound_fires_on_frames_two_and_five_only() {
    let mut a = OtherPlayerAnimation::new();
    a.update_state(OtherPlayerAnimationState::Walking);
    let mut fired_frames = Vec::new();
    for _ in 0..6 {
        a.update_timer(WALKING_INTERVAL_MS);
        if let Some(pick) = trigger_step_sound_effect(&a, 4) {
            assert!(pick < 4);
            fired_frames.push(a.frame);
        }
    }
    assert_eq!(fired_frames, vec![2, 5]);
    // the sixth advance reverted to idling and fires nothing
    assert_eq!(a.state, OtherPlayerAnimationState::Idling);
    assert_eq!(trigger_step_sound_effect(&a, 4), None);
}

#[test]
fn step_sound_does_not_fire_while_frame_is_held() {
    let mut a = OtherPlayerAnimation::new();
    a.update_state(OtherPlayerAnimationState::Walking);
    a.update_timer(WALKING_INTERVAL_MS);
    a.update_timer(WALKING_INTERVAL_MS);
    assert_eq!(a.frame, 2);
    assert!(trigger_step_sound_effect(&a, 4).is_some());
    // a tick too short to complete the interval holds the frame silently
    a.update_timer(1);
    assert_eq!(a.frame, 2);
    assert_eq!(trigger_step_sound_effect(&a, 4), None);
}

#[test]
fn step_sound_never_fires_while_idling() {
    let mut a = OtherPlayerAnimation::new();
    for _ in 0..8 {
        a.update_timer(IDLE_INTERVAL_MS);
        assert_eq!(trigger_step_sound_effect(&a, 4), None);
    }
}

#[test]
fn atlas_updates_only_on_frame_change() {
    let mut a = OtherPlayerAnimation::new();
    a.update_timer(1);
    assert_eq!(update_animation_atlas(&a, 7), 7);
    a.update_timer(IDLE_INTERVAL_MS);
    assert_eq!(update_animation_atlas(&a, 7), 1);
}
