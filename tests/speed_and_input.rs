use locomotion::input::{buffer_inputs, InputBuffer, PlayerAction};
use locomotion::motion::{MoveDirection, MoveSpeed, MoveSpeedState, Momentum, Vector3};
use locomotion::timer::OnceTimer;

const MS: u64 = 1_000_000;

#[test]
fn once_timer_clamps_and_stays_finished() {
    let mut t = OnceTimer::new(300 * MS);
    t.tick(200 * MS);
    assert!(!t.finished());
    assert_eq!(t.elapsed_ns(), 200 * MS);
    t.tick(200 * MS);
    assert!(t.finished());
    assert_eq!(t.elapsed_ns(), 300 * MS);
    t.tick(u64::MAX);
    assert!(t.finished());
    t.reset();
    assert!(!t.finished());
    assert_eq!(t.elapsed_ns(), 0);
    assert_eq!(t.duration_ns(), 300 * MS);
}

#[test]
fn press_is_buffered_then_goes_stale() {
    let mut b = InputBuffer::new();
    assert!(b.released(PlayerAction::Jump));
    assert!(!b.just_pressed(PlayerAction::Jump));
    b.press(PlayerAction::Jump);
    assert!(b.just_pressed(PlayerAction::Jump));
    assert!(b.pressed(PlayerAction::Jump));
    assert!(!b.released(PlayerAction::Jump));
    assert!(!b.just_pressed(PlayerAction::Interact));
    b.tick(100 * MS);
    assert!(b.just_pressed(PlayerAction::Jump));
    b.tick(100 * MS);
    assert!(!b.just_pressed(PlayerAction::Jump));
    assert!(b.pressed(PlayerAction::Jump));
    assert!(!b.released(PlayerAction::Jump));
    b.release(PlayerAction::Jump);
    assert!(b.released(PlayerAction::Jump));
    assert!(!b.pressed(PlayerAction::Jump));
}

#[test]
fn released_press_still_counts_within_window() {
    let mut b = InputBuffer::new();
    b.press(PlayerAction::Jump);
    b.tick(50 * MS);
    assert!(b.just_pressed(PlayerAction::Jump));
    b.release(PlayerAction::Jump);
    assert!(!b.just_pressed(PlayerAction::Jump));
    assert!(b.released(PlayerAction::Jump));
}

#[test]
fn buffer_inputs_records_presses_and_releases() {
    let mut b = InputBuffer::new();
    buffer_inputs(&mut b, 16 * MS, &vec![PlayerAction::Jump, PlayerAction::Move], &vec![PlayerAction::Move]);
    assert!(b.just_pressed(PlayerAction::Jump));
    assert!(b.released(PlayerAction::Move));
    assert!(!b.just_pressed(PlayerAction::Move));
    buffer_inputs(&mut b, 200 * MS, &vec![], &vec![]);
    assert!(!b.just_pressed(PlayerAction::Jump));
    assert!(b.pressed(PlayerAction::Jump));
}

#[test]
fn move_speed_starts_paused_at_base() {
    let s = MoveSpeed::new(200_000);
    assert_eq!(s.state(), MoveSpeedState::Paused);
    assert_eq!(s.get(), 200_000);
    assert_eq!(s.base_speed(), 200_000);
    assert_eq!(s.max_speed(), 400_000);
}

#[test]
fn move_speed_ramps_up_after_startup_delay() {
    let mut s = MoveSpeed::new(200_000);
    s.start_moving();
    assert_eq!(s.state(), MoveSpeedState::Startup);
    s.tick(299 * MS);
    assert_eq!(s.state(), MoveSpeedState::Startup);
    assert_eq!(s.get(), 200_000);
    s.tick(1 * MS);
    assert_eq!(s.state(), MoveSpeedState::Accelerating);
    assert_eq!(s.get(), 200_000);
    // rate 1.5/s over 0.1 s: 15% of the remaining 200.0 units
    s.tick(100 * MS);
    assert_eq!(s.get(), 230_000);
    s.tick(100 * MS);
    assert_eq!(s.get(), 230_000 + 25_500);
}

#[test]
fn move_speed_rate_is_capped_at_one() {
    let mut s = MoveSpeed::new(200_000);
    s.start_moving();
    s.tick(300 * MS);
    s.tick(2_000 * MS);
    assert_eq!(s.get(), 400_000);
    s.tick(2_000 * MS);
    assert_eq!(s.get(), 400_000);
}

#[test]
fn move_speed_monotone_and_bounded() {
    let mut s = MoveSpeed::new(1_000);
    s.start_moving();
    s.tick(300 * MS);
    let mut last = s.get();
    for _ in 0..50 {
        s.tick(16 * MS);
        assert!(s.get() >= last);
        assert!(s.get() <= 2_000);
        last = s.get();
    }
    s.stop_moving();
    assert_eq!(s.state(), MoveSpeedState::Decelerating);
    for _ in 0..50 {
        s.tick(16 * MS);
        assert!(s.get() <= last);
        assert!(s.get() >= 1_000);
        last = s.get();
    }
}

#[test]
fn move_speed_deceleration_waits_for_dead_zone() {
    let mut s = MoveSpeed::new(200_000);
    s.start_moving();
    s.tick(300 * MS);
    s.tick(100 * MS);
    assert_eq!(s.get(), 230_000);
    s.stop_moving();
    s.tick(100 * MS);
    assert_eq!(s.get(), 230_000);
    s.tick(100 * MS);
    assert_eq!(s.get(), 230_000 - 4_500);
}

#[test]
fn start_stop_table() {
    let mut s = MoveSpeed::new(100);
    s.stop_moving();
    assert_eq!(s.state(), MoveSpeedState::Paused);
    s.start_moving();
    assert_eq!(s.state(), MoveSpeedState::Startup);
    s.stop_moving();
    assert_eq!(s.state(), MoveSpeedState::Paused);
    s.start_moving();
    s.start_moving();
    assert_eq!(s.state(), MoveSpeedState::Startup);
    s.tick(300 * MS);
    assert_eq!(s.state(), MoveSpeedState::Accelerating);
    s.stop_moving();
    assert_eq!(s.state(), MoveSpeedState::Decelerating);
    s.start_moving();
    assert_eq!(s.state(), MoveSpeedState::Accelerating);
    s.start_moving();
    assert_eq!(s.state(), MoveSpeedState::Startup);
    s.tick(300 * MS);
    s.stop_moving();
    s.stop_moving();
    assert_eq!(s.state(), MoveSpeedState::Paused);
}

#[test]
fn move_direction_edges() {
    let mut d = MoveDirection::new();
    assert!(!d.is_any());
    d.set(Vector3::new(1000, 0, 0));
    assert!(d.is_any());
    assert!(d.started_moving());
    assert!(!d.stopped_moving());
    d.set(Vector3::new(0, 0, 1000));
    assert!(!d.started_moving());
    assert_eq!(d.get(), Vector3::new(0, 0, 1000));
    d.set(Vector3::zero());
    assert!(d.stopped_moving());
    assert!(!d.is_any());
}

#[test]
fn momentum_get_set() {
    let mut m = Momentum(Vector3::zero());
    assert!(!m.is_any());
    m.set(Vector3::new(0, 5, 0));
    assert!(m.is_any());
    assert_eq!(m.get(), Vector3::new(0, 5, 0));
}
