use crate::animation::AnimationTransitionEvent;
use crate::camera::{camera_space_direction, unit_bounded, CameraData};
use crate::controller::LocomotionState;
use crate::motion::{MoveDirection, MoveSpeed, Vector3};
use vstd::prelude::*;

verus! {

/// Semantic locomotion state of the player, derived each tick.
#[derive(Clone, Copy, Debug, PartialEq, Eq, Default, Structural)]
pub enum PlayerState {
    Diving,
    #[default]
    Idle,
    Running,
    LongJumping,
    Rising,
}

/// The state the signals call for, first match wins: a long jump; a dive;
/// in the air, rising while jumping and diving otherwise; on the ground and
/// not jumping, running while there is a direction and idle otherwise. A
/// jump that has not left the ground yet calls for no state.
pub open spec fn desired_state(
    moving: bool,
    has_ground_hits: bool,
    jumping: bool,
    long_jumping: bool,
    diving: bool,
) -> Option<PlayerState> {
    if long_jumping {
        Some(PlayerState::LongJumping)
    } else if diving {
        Some(PlayerState::Diving)
    } else if !has_ground_hits {
        if jumping { Some(PlayerState::Rising) } else { Some(PlayerState::Diving) }
    } else if !jumping {
        if moving { Some(PlayerState::Running) } else { Some(PlayerState::Idle) }
    } else {
        None
    }
}

pub fn determine_player_state(
    direction: &MoveDirection,
    has_ground_hits: bool,
    locomotion: &LocomotionState,
) -> (r: Option<PlayerState>)
    ensures
        r == desired_state(
            !direction.current().is_zero(),
            has_ground_hits,
            locomotion@.jumping,
            locomotion@.long_jump,
            locomotion@.diving,
        ),
{
    if locomotion.is_long_jumping() {
        Some(PlayerState::LongJumping)
    } else if locomotion.is_diving() {
        Some(PlayerState::Diving)
    } else if !has_ground_hits {
        if locomotion.is_jumping() {
            Some(PlayerState::Rising)
        } else {
            Some(PlayerState::Diving)
        }
    } else if !locomotion.is_jumping() {
        if direction.is_any() {
            Some(PlayerState::Running)
        } else {
            Some(PlayerState::Idle)
        }
    } else {
        None
    }
}

/// The player's animation clips, resolved to assets elsewhere.
#[derive(Clone, Copy, Debug, PartialEq, Eq, Structural)]
pub enum PlayerClip {
    Idle,
    Run,
    Jump,
    Rising,
    LongJump,
    LongJumpHeld,
    Dive,
    DiveHeld,
}

/// The animation that announces a state: steady states loop their clip,
/// transitional ones play a one-shot clip followed by a held loop.
pub open spec fn animation_for(entity: u64, state: PlayerState) -> AnimationTransitionEvent<PlayerClip> {
    match state {
        PlayerState::LongJumping => AnimationTransitionEvent {
            entity,
            clip: PlayerClip::LongJump,
            transition_ns: 0,
            play_after: Some(PlayerClip::LongJumpHeld),
            looping: false,
        },
        PlayerState::Rising => AnimationTransitionEvent {
            entity,
            clip: PlayerClip::Jump,
            transition_ns: 0,
            play_after: Some(PlayerClip::Rising),
            looping: false,
        },
        PlayerState::Idle => AnimationTransitionEvent {
            entity,
            clip: PlayerClip::Idle,
            transition_ns: 0,
            play_after: None,
            looping: true,
        },
        PlayerState::Running => AnimationTransitionEvent {
            entity,
            clip: PlayerClip::Run,
            transition_ns: 0,
            play_after: None,
            looping: true,
        },
        PlayerState::Diving => AnimationTransitionEvent {
            entity,
            clip: PlayerClip::Dive,
            transition_ns: 0,
            play_after: Some(PlayerClip::DiveHeld),
            looping: false,
        },
    }
}

pub fn player_animation(entity: u64, state: PlayerState) -> (e: AnimationTransitionEvent<PlayerClip>)
    ensures
        e == animation_for(entity, state),
{
    match state {
        PlayerState::LongJumping => AnimationTransitionEvent::double(entity, PlayerClip::LongJump, 0, PlayerClip::LongJumpHeld),
        PlayerState::Rising => AnimationTransitionEvent::double(entity, PlayerClip::Jump, 0, PlayerClip::Rising),
        PlayerState::Idle => AnimationTransitionEvent::single(entity, PlayerClip::Idle, 0),
        PlayerState::Running => AnimationTransitionEvent::single(entity, PlayerClip::Run, 0),
        PlayerState::Diving => AnimationTransitionEvent::double(entity, PlayerClip::Dive, 0, PlayerClip::DiveHeld),
    }
}

/// The states announced when `events` reach a player whose recorded state is
/// `current`: an event is announced only when it differs from the state
/// recorded before it, and every event becomes the recorded state.
pub open spec fn announced(current: PlayerState, events: Seq<PlayerState>) -> Seq<PlayerState>
    decreases events.len(),
{
    if events.len() == 0 {
        Seq::empty()
    } else {
        let prefix = announced(current, events.drop_last());
        if events.last() != recorded_after(current, events.drop_last()) {
            prefix.push(events.last())
        } else {
            prefix
        }
    }
}

/// The recorded state after `events`: the last event, if any.
pub open spec fn recorded_after(current: PlayerState, events: Seq<PlayerState>) -> PlayerState {
    if events.len() == 0 { current } else { events.last() }
}

/// The number of positions in `events` where the state changes from the one
/// before it (from `current` for the first).
pub open spec fn state_changes(current: PlayerState, events: Seq<PlayerState>) -> nat
    decreases events.len(),
{
    if events.len() == 0 {
        0
    } else {
        let i = events.len() - 1;
        let before = if i == 0 { current } else { events[i - 1] };
        state_changes(current, events.drop_last()) + if events[i] != before { 1nat } else { 0nat }
    }
}

/// A transition is announced exactly once per change of state: the number of
/// announcements is the number of changes, no two announcements in a row
/// name the same state, and the first differs from the starting state.
pub proof fn lemma_transitions_fire_once(current: PlayerState, events: Seq<PlayerState>)
    ensures
        announced(current, events).len() == state_changes(current, events),
        announced(current, events).len() > 0 ==> announced(current, events)[0] != current,
        forall|k: int| 0 <= k < announced(current, events).len() - 1
            ==> #[trigger] announced(current, events)[k] != announced(current, events)[k + 1],
        announced(current, events).len() > 0 ==> announced(current, events).last() == recorded_after(current, events),
        announced(current, events).len() == 0 ==> recorded_after(current, events) == current,
    decreases events.len(),
{
    if events.len() > 0 {
        let prefix = events.drop_last();
        lemma_transitions_fire_once(current, prefix);
        if prefix.len() > 0 {
            assert(prefix.last() == events[events.len() - 2]);
        }
        let a = announced(current, prefix);
        if events.last() != recorded_after(current, prefix) {
            assert(announced(current, events) == a.push(events.last()));
            assert(a.push(events.last())[a.len() as int] == events.last());
            if a.len() > 0 {
                assert(a.push(events.last())[0] == a[0]);
                assert forall|k: int| 0 <= k < a.len() as int implies #[trigger] a.push(events.last())[k] == a[k] by {}
            }
        }
    }
}

/// Tracks the state last announced for a player.
#[derive(Clone, Copy, Debug, Default)]
pub struct PlayerStateHandler {
    pub current_state: PlayerState,
}

impl PlayerStateHandler {
    pub fn new() -> (h: PlayerStateHandler)
        ensures
            h.current_state == PlayerState::Idle,
    {
        PlayerStateHandler { current_state: PlayerState::Idle }
    }

    /// Records `target`; returns its animation when it differs from the
    /// recorded state.
    pub fn transition(&mut self, entity: u64, target: PlayerState) -> (r: Option<AnimationTransitionEvent<PlayerClip>>)
        ensures
            final(self).current_state == target,
            r == (if target != old(self).current_state { Some(animation_for(entity, target)) } else { None }),
    {
        if target != self.current_state {
            self.current_state = target;
            Some(player_animation(entity, target))
        } else {
            None
        }
    }
}

/// Relays this tick's state events to animation requests for one player.
pub fn handle_player_animation_transitions(
    handler: &mut PlayerStateHandler,
    entity: u64,
    events: &Vec<PlayerState>,
) -> (r: Vec<AnimationTransitionEvent<PlayerClip>>)
    ensures
        final(handler).current_state == recorded_after(old(handler).current_state, events@),
        r@ == announced(old(handler).current_state, events@).map_values(|s: PlayerState| animation_for(entity, s)),
{
    let ghost start = handler.current_state;
    let mut out: Vec<AnimationTransitionEvent<PlayerClip>> = Vec::new();
    let mut i: usize = 0;
    while i < events.len()
        invariant
            i <= events.len(),
            handler.current_state == recorded_after(start, events@.subrange(0, i as int)),
            out@ == announced(start, events@.subrange(0, i as int)).map_values(|s: PlayerState| animation_for(entity, s)),
        decreases events.len() - i,
    {
        let ghost prefix = events@.subrange(0, i as int);
        let ghost next = events@.subrange(0, i + 1);
        assert(next.drop_last() =~= prefix);
        if let Some(e) = handler.transition(entity, events[i]) {
            out.push(e);
            assert(announced(start, next) == announced(start, prefix).push(events@[i as int]));
            assert(out@ =~= announced(start, next).map_values(|s: PlayerState| animation_for(entity, s)));
        }
        i = i + 1;
    }
    assert(events@.subrange(0, events@.len() as int) =~= events@);
    out
}

/// Movement intent of a grounded player for one tick: the stick axes, when
/// the move action is held, turned into a camera-relative direction; no
/// direction otherwise. Starting or stopping drives the speed ramp. An
/// airborne player keeps its direction and speed ramp.
pub fn set_player_direction(
    direction: &mut MoveDirection,
    speed: &mut MoveSpeed,
    grounded: bool,
    move_axis: Option<(i32, i32)>,
    camera: &CameraData,
)
    requires
        unit_bounded(camera.forward),
        unit_bounded(camera.right),
        move_axis matches Some((x, z)) ==> -1000 <= x <= 1000 && -1000 <= z <= 1000,
        old(speed)@.wf(),
    ensures
        final(speed)@.wf(),
        !grounded ==> *final(direction) == *old(direction) && *final(speed) == *old(speed),
        grounded ==> final(direction).previous() == old(direction).current(),
        grounded ==> final(direction).current() == (match move_axis {
            Some((x, z)) => camera_space_direction(camera.forward, camera.right, x as int, z as int),
            None => Vector3 { x: 0, y: 0, z: 0 },
        }),
        grounded && final(direction).spec_started_moving() ==> final(speed)@ == old(speed)@.after_start(),
        grounded && final(direction).spec_stopped_moving() ==> final(speed)@ == old(speed)@.after_stop(),
        grounded && !final(direction).spec_started_moving() && !final(direction).spec_stopped_moving()
            ==> final(speed)@ == old(speed)@,
{
    if grounded {
        match move_axis {
            Some((x, z)) => direction.set(camera.translate_direction_in_camera_space(x, z)),
            None => direction.set(Vector3::zero()),
        }
        if direction.started_moving() {
            speed.start_moving();
        }
        if direction.stopped_moving() {
            speed.stop_moving();
        }
    }
}

/// Read-only snapshot of the player for other systems (the camera), written
/// once per tick.
#[derive(Clone, Copy, Debug)]
pub struct PlayerData {
    pub player_position: Vector3,
    pub player_velocity: Vector3,
    pub player_base_speed: u64,
    pub player_current_speed: u64,
    pub player_max_speed: u64,
}

impl PlayerData {
    pub fn new(speed: u32) -> (d: PlayerData)
        ensures
            d.player_position.is_zero(),
            d.player_velocity.is_zero(),
            d.player_base_speed == speed,
            d.player_current_speed == speed,
            d.player_max_speed == 2 * speed,
    {
        PlayerData {
            player_position: Vector3::zero(),
            player_velocity: Vector3::zero(),
            player_base_speed: speed as u64,
            player_current_speed: speed as u64,
            player_max_speed: 2 * (speed as u64),
        }
    }

    /// Publishes this tick's readout of the player.
    pub fn update_player_data(&mut self, position: Vector3, velocity: Vector3, speed: &MoveSpeed)
        ensures
            final(self).player_position == position,
            final(self).player_velocity == velocity,
            final(self).player_current_speed == speed@.current_speed,
            final(self).player_base_speed == old(self).player_base_speed,
            final(self).player_max_speed == old(self).player_max_speed,
    {
        self.player_position = position;
        self.player_velocity = velocity;
        self.player_current_speed = speed.get();
    }
}

} // verus!
