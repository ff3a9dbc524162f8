use locomotion::animation::{
    handle_animation_transition_event, store_animation_relationships, AnimatedRoot, AnimationMap,
    AnimationTransitionEvent, NewAnimationPlayer, PlaybackSlot, RepeatMode,
};
use locomotion::camera::{snap_fixed_angle, CameraData, CameraMode};
use locomotion::collision::{collision_partner, CollisionLayer};
use locomotion::controller::{Character, GroundHit, LocomotionState, TickInput};
use locomotion::motion::{MoveDirection, MoveSpeed, MoveSpeedState, Vector3};
use locomotion::player::{
    determine_player_state, handle_player_animation_transitions, set_player_direction, PlayerClip, PlayerData,
    PlayerState, PlayerStateHandler,
};

const MS: u64 = 1_000_000;

fn camera_facing_positive_z() -> CameraData {
    CameraData {
        camera_position: Vector3::zero(),
        forward: Vector3::new(0, 0, 1000),
        right: Vector3::new(-1000, 0, 0),
        camera_id: None,
    }
}

fn modes(jumping: bool, long_jump: bool, diving: bool) -> LocomotionState {
    LocomotionState::from_modes(false, jumping, false, false, long_jump, diving).unwrap()
}

#[test]
fn state_priority_order() {
    let mut moving = MoveDirection::new();
    moving.set(Vector3::new(1000, 0, 0));
    let still = MoveDirection::new();
    assert_eq!(determine_player_state(&still, true, &modes(true, true, true)), Some(PlayerState::LongJumping));
    assert_eq!(determine_player_state(&still, true, &modes(false, false, true)), Some(PlayerState::Diving));
    assert_eq!(determine_player_state(&still, false, &modes(true, false, false)), Some(PlayerState::Rising));
    assert_eq!(determine_player_state(&still, false, &modes(false, false, false)), Some(PlayerState::Diving));
    assert_eq!(determine_player_state(&moving, true, &modes(false, false, false)), Some(PlayerState::Running));
    assert_eq!(determine_player_state(&still, true, &modes(false, false, false)), Some(PlayerState::Idle));
    assert_eq!(determine_player_state(&moving, true, &modes(true, false, false)), None);
}

#[test]
fn transitions_fire_once_per_change() {
    let mut h = PlayerStateHandler::new();
    assert_eq!(h.current_state, PlayerState::Idle);
    let mut count = 0;
    for s in [PlayerState::Idle, PlayerState::Running, PlayerState::Idle] {
        if h.transition(7, s).is_some() {
            count += 1;
        }
    }
    assert_eq!(count, 2);
    assert_eq!(h.current_state, PlayerState::Idle);
}

#[test]
fn relayed_events_pick_clips() {
    let mut h = PlayerStateHandler::new();
    let out = handle_player_animation_transitions(
        &mut h,
        3,
        &vec![PlayerState::Idle, PlayerState::Running, PlayerState::Running, PlayerState::Rising],
    );
    assert_eq!(out.len(), 2);
    assert_eq!(out[0], AnimationTransitionEvent::single(3, PlayerClip::Run, 0));
    assert_eq!(out[1].clip, PlayerClip::Jump);
    assert_eq!(out[1].play_after, Some(PlayerClip::Rising));
    assert!(!out[1].looping);
    assert_eq!(h.current_state, PlayerState::Rising);
    let dive = h.transition(3, PlayerState::Diving).unwrap();
    assert_eq!(dive, AnimationTransitionEvent::double(3, PlayerClip::Dive, 0, PlayerClip::DiveHeld));
    let long = h.transition(3, PlayerState::LongJumping).unwrap();
    assert_eq!(long.play_after, Some(PlayerClip::LongJumpHeld));
}

#[test]
fn grounded_move_input_runs_once() {
    let camera = camera_facing_positive_z();
    let c = Character::default();
    let mut locomotion = LocomotionState::new();
    let mut direction = MoveDirection::new();
    let mut speed = MoveSpeed::new(200_000);
    let mut handler = PlayerStateHandler::new();
    let hits = vec![GroundHit { time_of_impact: 1400, surface_vertical_velocity: 0 }];
    let mut announced = Vec::new();
    for tick in 0..30 {
        let input = TickInput {
            delta_ns: 16 * MS,
            ground_hits: hits.clone(),
            vertical_velocity: 0,
            jump_just_pressed: false,
            jump_released: true,
        };
        locomotion.tick(&c, &input);
        let axis = if tick == 0 { None } else { Some((1000, 0)) };
        set_player_direction(&mut direction, &mut speed, locomotion.is_grounded(), axis, &camera);
        if tick == 1 {
            assert!(direction.is_any());
            assert_eq!(speed.state(), MoveSpeedState::Startup);
        }
        speed.tick(16 * MS);
        if let Some(state) = determine_player_state(&direction, true, &locomotion) {
            if let Some(e) = handler.transition(1, state) {
                announced.push(e);
            }
        }
    }
    assert_eq!(direction.get(), Vector3::new(-1000, 0, 0));
    assert_eq!(speed.state(), MoveSpeedState::Accelerating);
    assert!(speed.get() > 200_000);
    assert_eq!(announced.len(), 1);
    assert_eq!(announced[0].clip, PlayerClip::Run);
}

#[test]
fn airborne_player_keeps_direction() {
    let camera = camera_facing_positive_z();
    let mut direction = MoveDirection::new();
    let mut speed = MoveSpeed::new(100);
    set_player_direction(&mut direction, &mut speed, false, Some((1000, 0)), &camera);
    assert!(!direction.is_any());
    assert_eq!(speed.state(), MoveSpeedState::Paused);
    set_player_direction(&mut direction, &mut speed, true, Some((0, 500)), &camera);
    assert_eq!(direction.get(), Vector3::new(0, 0, 500));
    set_player_direction(&mut direction, &mut speed, true, None, &camera);
    assert!(!direction.is_any());
    assert_eq!(speed.state(), MoveSpeedState::Paused);
}

#[test]
fn camera_space_translation() {
    let camera = CameraData {
        camera_position: Vector3::new(0, 6500, 10000),
        forward: Vector3::new(0, -500, -866),
        right: Vector3::new(1000, 0, 0),
        camera_id: Some(4),
    };
    assert_eq!(camera.translate_direction_in_camera_space(0, 1000), Vector3::new(0, 0, -866));
    assert_eq!(camera.translate_direction_in_camera_space(-1000, 0), Vector3::new(-1000, 0, 0));
    assert_eq!(camera.translate_direction_in_camera_space(707, 707), Vector3::new(707, 0, -612));
}

#[test]
fn camera_mode_shifts() {
    assert_eq!(CameraMode::Fixed.shift_up(), CameraMode::Free);
    assert_eq!(CameraMode::Follow.shift_up(), CameraMode::Free);
    assert_eq!(CameraMode::Free.shift_down(), CameraMode::Follow);
    assert_eq!(CameraMode::Fixed.shift_down(), CameraMode::Follow);
}

#[test]
fn fixed_angle_snapping() {
    assert_eq!(snap_fixed_angle(10), 0);
    assert_eq!(snap_fixed_angle(22), 0);
    assert_eq!(snap_fixed_angle(23), 45);
    assert_eq!(snap_fixed_angle(44), 45);
    assert_eq!(snap_fixed_angle(90), 90);
    assert_eq!(snap_fixed_angle(-10), 0);
    assert_eq!(snap_fixed_angle(-30), 0);
    assert_eq!(snap_fixed_angle(-45), -45);
    assert_eq!(snap_fixed_angle(-60), -45);
    assert_eq!(snap_fixed_angle(i16::MAX), 32760);
    assert_eq!(snap_fixed_angle(i16::MIN), -32760);
}

#[test]
fn binding_animation_players() {
    let mut map = AnimationMap::new();
    map.insert(99, 100);
    let roots = vec![
        AnimatedRoot { entity: 1, children: vec![10, 11] },
        AnimatedRoot { entity: 2, children: vec![20] },
    ];
    let players = vec![
        NewAnimationPlayer { entity: 30, parent: 11 },
        NewAnimationPlayer { entity: 31, parent: 55 },
    ];
    let bound = store_animation_relationships(&mut map, &players, &roots);
    assert_eq!(bound, vec![1]);
    assert_eq!(map.get(1), Some(30));
    assert_eq!(map.get(2), None);
    assert_eq!(map.get(99), Some(100));
}

#[test]
fn relay_drops_unbound_and_queues_follow_up() {
    let mut map = AnimationMap::new();
    let event = AnimationTransitionEvent::double(1, 5u32, 250 * MS, 6u32);
    assert_eq!(handle_animation_transition_event(&map, &event), None);
    map.insert(1, 40);
    let req = handle_animation_transition_event(&map, &event).unwrap();
    assert_eq!(req.player, 40);
    assert_eq!(req.clip, 5);
    assert_eq!(req.transition_ns, 250 * MS);
    assert_eq!(req.repeat, RepeatMode::Never);
    let mut slot: PlaybackSlot<u32> = PlaybackSlot::Empty;
    slot.apply(&req);
    assert_eq!(slot.play_queued(false), None);
    assert_eq!(slot.play_queued(true), Some(6));
    assert_eq!(slot, PlaybackSlot::Playing { clip: 6, repeat: RepeatMode::Forever });
    assert_eq!(slot.play_queued(true), None);
    let looping = handle_animation_transition_event(&map, &AnimationTransitionEvent::single(1, 7u32, 0)).unwrap();
    assert_eq!(looping.repeat, RepeatMode::Forever);
    slot.apply(&looping);
    assert_eq!(slot, PlaybackSlot::Playing { clip: 7, repeat: RepeatMode::Forever });
}

#[test]
fn collision_layer_bits() {
    assert_eq!(CollisionLayer::standable_mask(), 0b1010);
    assert_eq!(CollisionLayer::Terrain.to_bits(), 8);
    assert_eq!(CollisionLayer::terrain_layers().filters, 0b0111);
    assert_eq!(CollisionLayer::character_layers().filters, 0b10_1111);
    assert_eq!(CollisionLayer::object_layers().memberships, 2);
    assert_eq!(CollisionLayer::item_layers().filters, 1);
    assert_eq!(CollisionLayer::transition_layers().memberships, 16);
}

#[test]
fn player_data_snapshot() {
    let mut d = PlayerData::new(200_000);
    assert_eq!(d.player_max_speed, 400_000);
    let speed = MoveSpeed::new(200_000);
    d.update_player_data(Vector3::new(1, 2, 3), Vector3::new(0, -1, 0), &speed);
    assert_eq!(d.player_position, Vector3::new(1, 2, 3));
    assert_eq!(d.player_current_speed, 200_000);
}

#[test]
fn collision_partner_picks_other_entity() {
    assert_eq!(collision_partner(5, 9, 5), 9);
    assert_eq!(collision_partner(5, 9, 9), 5);
}
