use termi_player::engine::AudioEngine;
use termi_player::engine::PositionTracker;

#[test]
fn fresh_record_is_at_zero() {
    let r = PositionTracker::new(Some(180_000));
    assert_eq!(r.position_at(0), 0);
    assert_eq!(r.position_at(5_000), 0);
    assert_eq!(r.total_duration, Some(180_000));
}

#[test]
fn position_grows_while_playing() {
    let mut r = PositionTracker::default();
    r.play_at(1_000);
    assert_eq!(r.position_at(1_000), 0);
    assert_eq!(r.position_at(1_500), 500);
    assert_eq!(r.position_at(4_000), 3_000);
    r.play_at(2_000);
    assert_eq!(r.position_at(4_000), 3_000);
    assert!(r.position_at(4_000) <= r.position_at(4_001));
}

#[test]
fn pause_freezes_position() {
    let mut r = PositionTracker::default();
    r.play_at(0);
    r.pause_at(2_500);
    assert_eq!(r.position_at(2_500), 2_500);
    assert_eq!(r.position_at(10_000), 2_500);
    assert_eq!(r.position_at(99_999), 2_500);
}

#[test]
fn resume_skips_the_pause() {
    let mut r = PositionTracker::default();
    r.play_at(100);
    r.pause_at(1_100);
    r.play_at(51_100);
    assert_eq!(r.position_at(53_100), 3_000);
    assert_eq!(r.paused_time, 50_000);
}

#[test]
fn repeated_play_or_pause_acts_once() {
    let mut r = PositionTracker::default();
    r.play_at(0);
    r.pause_at(1_000);
    r.pause_at(4_000);
    assert_eq!(r.last_pause_time, Some(1_000));
    assert_eq!(r.position_at(9_000), 1_000);
    r.play_at(5_000);
    r.play_at(7_000);
    assert_eq!(r.paused_time, 4_000);
    assert_eq!(r.position_at(8_000), 4_000);
}

#[test]
fn pause_before_any_play_keeps_zero() {
    let mut r = PositionTracker::default();
    r.pause_at(3_000);
    assert_eq!(r.last_pause_time, None);
    r.play_at(4_000);
    assert_eq!(r.position_at(6_000), 2_000);
}

#[test]
fn clock_going_back_floors_at_zero() {
    let mut r = PositionTracker::default();
    r.play_at(5_000);
    assert_eq!(r.position_at(1_000), 0);
}

#[test]
fn load_resets_position_and_duration() {
    let mut e = AudioEngine::new(50);
    e.position.play_at(0);
    e.position.pause_at(30_000);
    e.load_audio(Some(200_000));
    assert_eq!(e.position.position_at(60_000), 0);
    assert_eq!(e.get_total_duration(), Some(200_000));
    assert_eq!(e.get_current_position(), 0);
    e.load_audio(None);
    assert_eq!(e.get_total_duration(), None);
    assert_eq!(e.position_seconds_at(10), (0, 0));
}

#[test]
fn position_in_seconds() {
    let mut e = AudioEngine::new(100);
    e.load_audio(Some(180_999));
    e.position.play_at(1_000);
    assert_eq!(e.position_seconds_at(62_500), (61, 180));
}

#[test]
fn volume_up_clamps_at_maximum() {
    let mut e = AudioEngine::new(95);
    e.volume_up();
    e.volume_up();
    e.volume_up();
    assert_eq!(e.volume, 100);
}

#[test]
fn volume_down_clamps_at_zero() {
    let mut e = AudioEngine::new(5);
    e.volume_down();
    e.volume_down();
    assert_eq!(e.volume, 0);
}

#[test]
fn volume_steps_by_ten() {
    let mut e = AudioEngine::new(40);
    e.volume_up();
    assert_eq!(e.volume, 50);
    e.volume_down();
    e.volume_down();
    assert_eq!(e.volume, 30);
    assert_eq!(AudioEngine::new(250).volume, 100);
}

#[test]
fn engine_play_and_pause_follow_the_clock() {
    let mut e = AudioEngine::new(100);
    assert!(e.is_paused());
    e.play();
    assert!(!e.is_paused());
    e.pause();
    assert!(e.is_paused());
    let p = e.get_current_position();
    assert_eq!(e.get_current_position(), p);
}
