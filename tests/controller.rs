use locomotion::controller::{
    floating_capsule, handle_coyote_time, handle_jumping, handle_regrab, jump, land, spring_force, Character,
    CoyoteTime, GroundHit, LocomotionState, TickInput, COYOTE_TIME_NS,
};

const MS: u64 = 1_000_000;

fn ground() -> Vec<GroundHit> {
    vec![GroundHit { time_of_impact: 1400, surface_vertical_velocity: 0 }]
}

fn input(delta_ns: u64, ground_hits: Vec<GroundHit>, vertical_velocity: i32, pressed: bool, released: bool) -> TickInput {
    TickInput { delta_ns, ground_hits, vertical_velocity, jump_just_pressed: pressed, jump_released: released }
}

#[test]
fn default_character_tuning() {
    let c = Character::default();
    assert_eq!(c.ride_height, 1400);
    assert_eq!(c.spring_strength, 23000);
    assert_eq!(c.spring_damper, 5000);
    assert_eq!(c.jump_strength, 17500);
    assert_eq!(c.base_gravity_scale, 2000);
    assert_eq!(c.regrab_gravity_scale, 1500);
    let tall = Character::for_collider_height(2000);
    assert_eq!(tall.ride_height, 2800);
    assert_eq!(Character::for_collider_height(1001).ride_height, 1401);
}

#[test]
fn spring_at_rest_is_zero() {
    let c = Character::default();
    assert_eq!(spring_force(&c, 1400, 0, 0), 0);
    assert_eq!(spring_force(&c, 1400, -3000, -3000), 0);
}

#[test]
fn spring_force_formula() {
    let c = Character::default();
    // offset 0.4 * 23 - (-0.2) * 5 = 10.2, in millionths
    assert_eq!(spring_force(&c, 1000, -200, 0), 10_200_000);
    // above the ride height and rising with the platform below
    assert_eq!(spring_force(&c, 1500, 300, 100), -100 * 23000 - 200 * 5000);
}

#[test]
fn coyote_time_runs_out() {
    let mut c = CoyoteTime::default();
    c.tick(300 * MS);
    assert!(!c.finished());
    c.tick(30 * MS);
    assert!(c.finished());
    assert_eq!(COYOTE_TIME_NS, 330 * MS);
}

#[test]
fn validating_constructor_refuses_grounded_jump() {
    assert!(LocomotionState::from_modes(true, true, false, false, false, false).is_none());
    let s = LocomotionState::from_modes(true, false, true, false, false, false).unwrap();
    assert!(s.is_grounded());
    assert!(s.has_coyote_time());
}

#[test]
fn ground_contact_grounds_and_lands() {
    let c = Character::default();
    let mut s = LocomotionState::new();
    let (force, landed) = floating_capsule(&mut s, &c, &ground(), 0);
    assert_eq!(force, Some(0));
    assert!(landed);
    assert!(s.is_grounded());
    let (_, landed_again) = floating_capsule(&mut s, &c, &ground(), 0);
    assert!(!landed_again);
}

#[test]
fn leaving_ground_grants_coyote_time() {
    let c = Character::default();
    let mut s = LocomotionState::from_modes(true, false, false, false, false, false).unwrap();
    let (force, landed) = floating_capsule(&mut s, &c, &vec![], 0);
    assert_eq!(force, None);
    assert!(!landed);
    assert!(!s.is_grounded());
    assert!(s.has_coyote_time());
    handle_coyote_time(&mut s, 200 * MS);
    assert!(s.has_coyote_time());
    handle_coyote_time(&mut s, 130 * MS);
    assert!(!s.has_coyote_time());
}

#[test]
fn jumping_off_ground_grants_no_coyote_time() {
    let c = Character::default();
    let mut s = LocomotionState::from_modes(true, false, false, false, false, false).unwrap();
    assert_eq!(jump(&mut s, &c, true), Some(17500));
    assert!(s.is_jumping());
    assert!(!s.is_grounded());
    floating_capsule(&mut s, &c, &vec![], 17500);
    assert!(!s.has_coyote_time());
    // still near the ground while rising: not grounded again
    floating_capsule(&mut s, &c, &ground(), 17000);
    assert!(!s.is_grounded());
}

#[test]
fn late_jump_within_coyote_time() {
    let c = Character::default();
    let mut s = LocomotionState::from_modes(false, false, true, false, false, false).unwrap();
    assert_eq!(jump(&mut s, &c, false), None);
    assert_eq!(jump(&mut s, &c, true), Some(17500));
    assert!(!s.has_coyote_time());
    assert!(s.is_jumping());
}

#[test]
fn no_jump_in_the_air_without_coyote_time() {
    let c = Character::default();
    let mut s = LocomotionState::new();
    assert_eq!(jump(&mut s, &c, true), None);
    assert!(!s.is_jumping());
}

#[test]
fn jump_cut_when_velocity_crosses_zero() {
    let mut s = LocomotionState::from_modes(false, true, false, false, false, false).unwrap();
    assert_eq!(handle_jumping(&mut s, false, 5000), None);
    assert!(s.is_jumping());
    assert_eq!(handle_jumping(&mut s, false, -100), Some(0));
    assert!(!s.is_jumping());
}

#[test]
fn jump_cut_on_release() {
    let mut s = LocomotionState::from_modes(false, true, false, false, false, false).unwrap();
    assert_eq!(handle_jumping(&mut s, true, 5000), Some(0));
    assert!(!s.is_jumping());
}

#[test]
fn tick_cuts_falling_jump() {
    let c = Character::default();
    let mut s = LocomotionState::from_modes(false, true, false, false, false, false).unwrap();
    let out = s.tick(&c, &input(16 * MS, vec![], 5000, false, false));
    assert_eq!(out.vertical_velocity, None);
    assert!(s.is_jumping());
    let out = s.tick(&c, &input(16 * MS, vec![], -100, false, false));
    assert_eq!(out.vertical_velocity, Some(0));
    assert!(!s.is_jumping());
}

#[test]
fn regrab_in_the_air_and_release() {
    let c = Character::default();
    let mut s = LocomotionState::new();
    let out = s.tick(&c, &input(16 * MS, vec![], -2000, true, false));
    assert!(s.is_regrabbing());
    assert_eq!(out.gravity_scale, Some(1500));
    assert!(!out.jumped);
    let out = s.tick(&c, &input(16 * MS, vec![], -2000, false, false));
    assert!(s.is_regrabbing());
    assert_eq!(out.gravity_scale, None);
    let out = s.tick(&c, &input(16 * MS, vec![], -2000, false, true));
    assert!(!s.is_regrabbing());
    assert_eq!(out.gravity_scale, Some(2000));
}

#[test]
fn regrab_ends_on_landing() {
    let c = Character::default();
    let mut s = LocomotionState::from_modes(false, false, false, true, false, false).unwrap();
    assert_eq!(handle_regrab(&mut s, &c, true, false, false), Some(2000));
    assert!(!s.is_regrabbing());
    assert_eq!(handle_regrab(&mut s, &c, true, false, true), None);
}

#[test]
fn no_regrab_while_jumping() {
    let c = Character::default();
    let mut s = LocomotionState::from_modes(false, true, false, false, false, false).unwrap();
    assert_eq!(handle_regrab(&mut s, &c, false, false, true), None);
    assert!(!s.is_regrabbing());
}

#[test]
fn landing_clears_airborne_moves() {
    let c = Character::default();
    let mut s = LocomotionState::from_modes(false, false, false, false, true, true).unwrap();
    let out = s.tick(&c, &input(16 * MS, ground(), -500, false, false));
    assert!(out.landed);
    assert!(s.is_grounded());
    assert!(!s.is_long_jumping());
    assert!(!s.is_diving());
    assert_eq!(out.force, Some(2_500_000));
    let mut t = LocomotionState::from_modes(false, true, false, false, true, true).unwrap();
    land(&mut t);
    assert!(!t.is_jumping() && !t.is_long_jumping() && !t.is_diving());
}

#[test]
fn tick_jump_from_ground() {
    let c = Character::default();
    let mut s = LocomotionState::new();
    s.tick(&c, &input(16 * MS, ground(), 0, false, false));
    assert!(s.is_grounded());
    let out = s.tick(&c, &input(16 * MS, ground(), 0, true, false));
    assert!(out.jumped);
    assert_eq!(out.vertical_velocity, Some(17500));
    assert!(s.is_jumping());
    assert!(!s.is_grounded());
    assert!(!s.is_regrabbing());
}

#[test]
fn coyote_time_only_when_walking_off() {
    let c = Character::default();
    let mut s = LocomotionState::new();
    s.tick(&c, &input(16 * MS, ground(), 0, false, false));
    s.tick(&c, &input(16 * MS, vec![], 0, false, false));
    assert!(s.has_coyote_time());
    s.tick(&c, &input(200 * MS, vec![], -100, false, false));
    assert!(s.has_coyote_time());
    s.tick(&c, &input(200 * MS, vec![], -100, false, false));
    assert!(!s.has_coyote_time());
    let mut t = LocomotionState::new();
    t.tick(&c, &input(16 * MS, ground(), 0, false, false));
    t.tick(&c, &input(16 * MS, vec![], 0, false, false));
    let out = t.tick(&c, &input(16 * MS, vec![], -100, true, false));
    assert!(out.jumped);
    assert!(!t.has_coyote_time());
}

#[test]
fn never_grounded_and_jumping_over_ticks() {
    let c = Character::default();
    let mut s = LocomotionState::new();
    for i in 0..200u32 {
        let hits = if i % 7 < 4 { ground() } else { vec![] };
        let vv = (i as i32 % 11) * 1000 - 5000;
        let out = s.tick(&c, &input(16 * MS, hits, vv, i % 5 == 0, i % 3 == 0));
        assert!(!(s.is_grounded() && s.is_jumping()));
        let _ = out;
    }
}
