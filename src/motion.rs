use crate::timer::{OnceTimer, TimerView};
use vstd::prelude::*;

verus! {

/// Delay between the first movement input and the start of acceleration.
pub const STARTUP_DELAY_NS: u64 = 300_000_000;

/// Dead zone after movement stops before the speed starts to bleed off.
pub const DECELERATE_DELAY_NS: u64 = 200_000_000;

/// Ease rate of the speed ramp, in thousandths per second (1.5 per second).
pub const ACCELERATION: u64 = 1500;

/// An ease rate of one: the product of a rate in thousandths per second and a
/// duration in nanoseconds reaches it when the ease completes in one step.
pub const FULL_RATE: u128 = 1_000_000_000_000;

/// A vector of fixed-point components, in thousandths of a unit.
#[derive(Clone, Copy, Debug, PartialEq, Eq, Default, Structural)]
pub struct Vector3 {
    pub x: i32,
    pub y: i32,
    pub z: i32,
}

impl Vector3 {
    pub open spec fn is_zero(self) -> bool {
        self.x == 0 && self.y == 0 && self.z == 0
    }

    pub fn zero() -> (v: Vector3)
        ensures
            v.is_zero(),
    {
        Vector3 { x: 0, y: 0, z: 0 }
    }

    pub fn new(x: i32, y: i32, z: i32) -> (v: Vector3)
        ensures
            v == (Vector3 { x, y, z }),
    {
        Vector3 { x, y, z }
    }

    pub fn is_nonzero(&self) -> (r: bool)
        ensures
            r == !self.is_zero(),
    {
        self.x != 0 || self.y != 0 || self.z != 0
    }
}

/// Desired horizontal direction of travel, with the previous tick's value
/// kept to detect starting and stopping.
#[derive(Clone, Copy, Debug)]
pub struct MoveDirection {
    current_direction: Vector3,
    previous_direction: Vector3,
}

impl MoveDirection {
    pub closed spec fn current(&self) -> Vector3 {
        self.current_direction
    }

    pub closed spec fn previous(&self) -> Vector3 {
        self.previous_direction
    }

    pub open spec fn spec_started_moving(&self) -> bool {
        !self.current().is_zero() && self.previous().is_zero()
    }

    pub open spec fn spec_stopped_moving(&self) -> bool {
        self.current().is_zero() && !self.previous().is_zero()
    }

    pub fn new() -> (d: MoveDirection)
        ensures
            d.current().is_zero(),
            d.previous().is_zero(),
    {
        MoveDirection { current_direction: Vector3::zero(), previous_direction: Vector3::zero() }
    }

    pub fn get(&self) -> (r: Vector3)
        ensures
            r == self.current(),
    {
        self.current_direction
    }

    /// Replaces the direction; the replaced value becomes the previous one.
    pub fn set(&mut self, value: Vector3)
        ensures
            final(self).current() == value,
            final(self).previous() == old(self).current(),
    {
        self.previous_direction = self.current_direction;
        self.current_direction = value;
    }

    pub fn is_any(&self) -> (r: bool)
        ensures
            r == !self.current().is_zero(),
    {
        self.current_direction.is_nonzero()
    }

    pub fn started_moving(&self) -> (r: bool)
        ensures
            r == self.spec_started_moving(),
    {
        self.current_direction.is_nonzero() && !self.previous_direction.is_nonzero()
    }

    pub fn stopped_moving(&self) -> (r: bool)
        ensures
            r == self.spec_stopped_moving(),
    {
        !self.current_direction.is_nonzero() && self.previous_direction.is_nonzero()
    }
}

/// Carried-over velocity of a character.
#[derive(Clone, Copy, Debug)]
pub struct Momentum(pub Vector3);

impl Momentum {
    pub fn get(&self) -> (r: Vector3)
        ensures
            r == self.0,
    {
        self.0
    }

    pub fn set(&mut self, value: Vector3)
        ensures
            final(self).0 == value,
    {
        self.0 = value;
    }

    pub fn is_any(&self) -> (r: bool)
        ensures
            r == !self.0.is_zero(),
    {
        self.0.is_nonzero()
    }
}

#[derive(Clone, Copy, Debug, PartialEq, Eq, Default, Structural)]
pub enum MoveSpeedState {
    #[default]
    Paused,
    Startup,
    Accelerating,
    Decelerating,
}

/// The state the speed ramp is in after `start_moving`.
pub open spec fn state_after_start(s: MoveSpeedState) -> MoveSpeedState {
    match s {
        MoveSpeedState::Decelerating => MoveSpeedState::Accelerating,
        _ => MoveSpeedState::Startup,
    }
}

/// The state the speed ramp is in after `stop_moving`.
pub open spec fn state_after_stop(s: MoveSpeedState) -> MoveSpeedState {
    match s {
        MoveSpeedState::Accelerating => MoveSpeedState::Decelerating,
        _ => MoveSpeedState::Paused,
    }
}

/// One step of an exponential ease from `current` toward `target` at rate
/// `rate / FULL_RATE`, the rate capped at one. The step is rounded toward
/// `current`, so it never passes the target.
pub open spec fn eased(current: nat, target: nat, rate: nat) -> nat {
    if rate >= FULL_RATE {
        target
    } else if target >= current {
        (current + (target - current) * rate / (FULL_RATE as int)) as nat
    } else {
        (current - (current - target) * rate / (FULL_RATE as int)) as nat
    }
}

pub ghost struct MoveSpeedView {
    pub state: MoveSpeedState,
    pub base_speed: nat,
    pub acceleration: nat,
    pub current_speed: nat,
    pub max_speed: nat,
    pub accelerate_timer: TimerView,
    pub decelerate_timer: TimerView,
}

impl MoveSpeedView {
    pub open spec fn wf(self) -> bool {
        &&& self.base_speed <= self.current_speed <= self.max_speed
        &&& self.accelerate_timer.wf()
        &&& self.decelerate_timer.wf()
    }

    pub open spec fn after_start(self) -> MoveSpeedView {
        match self.state {
            MoveSpeedState::Decelerating => MoveSpeedView {
                state: MoveSpeedState::Accelerating,
                decelerate_timer: TimerView::fresh(self.decelerate_timer.duration),
                ..self
            },
            _ => MoveSpeedView {
                state: MoveSpeedState::Startup,
                accelerate_timer: TimerView::fresh(self.accelerate_timer.duration),
                decelerate_timer: TimerView::fresh(self.decelerate_timer.duration),
                ..self
            },
        }
    }

    pub open spec fn after_stop(self) -> MoveSpeedView {
        match self.state {
            MoveSpeedState::Accelerating => MoveSpeedView { state: MoveSpeedState::Decelerating, ..self },
            _ => MoveSpeedView {
                state: MoveSpeedState::Paused,
                accelerate_timer: TimerView::fresh(self.accelerate_timer.duration),
                decelerate_timer: TimerView::fresh(self.decelerate_timer.duration),
                ..self
            },
        }
    }

    pub open spec fn after_tick(self, delta: nat) -> MoveSpeedView {
        let rate = self.acceleration * delta;
        match self.state {
            MoveSpeedState::Startup => {
                let t = self.accelerate_timer.advanced(delta);
                MoveSpeedView {
                    state: if t.finished { MoveSpeedState::Accelerating } else { MoveSpeedState::Startup },
                    accelerate_timer: t,
                    ..self
                }
            },
            MoveSpeedState::Decelerating => {
                let t = self.decelerate_timer.advanced(delta);
                MoveSpeedView {
                    current_speed: if t.finished {
                        eased(self.current_speed, self.base_speed, rate)
                    } else {
                        self.current_speed
                    },
                    decelerate_timer: t,
                    ..self
                }
            },
            MoveSpeedState::Accelerating => MoveSpeedView {
                current_speed: eased(self.current_speed, self.max_speed, rate),
                ..self
            },
            MoveSpeedState::Paused => self,
        }
    }
}

/// Horizontal speed ramp: a short startup delay, an ease toward the maximum
/// speed while moving, and after a dead zone an ease back to the base speed.
#[derive(Clone, Copy, Debug)]
pub struct MoveSpeed {
    state: MoveSpeedState,
    base_speed: u64,
    acceleration: u64,
    current_speed: u64,
    max_speed: u64,
    accelerate_timer: OnceTimer,
    decelerate_timer: OnceTimer,
}

proof fn lemma_step_bounded(diff: int, rate: int)
    requires
        diff >= 0,
        0 <= rate < FULL_RATE,
    ensures
        0 <= diff * rate / (FULL_RATE as int) <= diff,
{
    assert(0 <= diff * rate <= diff * FULL_RATE) by (nonlinear_arith)
        requires 0 <= rate < FULL_RATE, diff >= 0;
    vstd::arithmetic::div_mod::lemma_div_is_ordered(diff * rate, diff * FULL_RATE, FULL_RATE as int);
    vstd::arithmetic::div_mod::lemma_div_multiples_vanish(diff, FULL_RATE as int);
    vstd::arithmetic::div_mod::lemma_div_pos_is_pos(diff * rate, FULL_RATE as int);
}

/// Exec form of `eased`.
fn ease(current: u64, target: u64, rate: u128) -> (r: u64)
    ensures
        r == eased(current as nat, target as nat, rate as nat),
        current <= target ==> current <= r <= target,
        target <= current ==> target <= r <= current,
{
    if rate >= FULL_RATE {
        target
    } else if target >= current {
        let diff = (target - current) as u128;
        assert(diff * rate <= diff * FULL_RATE) by (nonlinear_arith)
            requires rate < FULL_RATE, diff >= 0;
        let step = diff * rate / FULL_RATE;
        proof { lemma_step_bounded(diff as int, rate as int); }
        current + step as u64
    } else {
        let diff = (current - target) as u128;
        assert(diff * rate <= diff * FULL_RATE) by (nonlinear_arith)
            requires rate < FULL_RATE, diff >= 0;
        let step = diff * rate / FULL_RATE;
        proof { lemma_step_bounded(diff as int, rate as int); }
        current - step as u64
    }
}

impl View for MoveSpeed {
    type V = MoveSpeedView;

    closed spec fn view(&self) -> MoveSpeedView {
        MoveSpeedView {
            state: self.state,
            base_speed: self.base_speed as nat,
            acceleration: self.acceleration as nat,
            current_speed: self.current_speed as nat,
            max_speed: self.max_speed as nat,
            accelerate_timer: self.accelerate_timer@,
            decelerate_timer: self.decelerate_timer@,
        }
    }
}

impl MoveSpeed {
    /// A paused ramp at `base_speed`, whose maximum is twice the base.
    pub fn new(base_speed: u32) -> (s: MoveSpeed)
        ensures
            s@.wf(),
            s@ == (MoveSpeedView {
                state: MoveSpeedState::Paused,
                base_speed: base_speed as nat,
                acceleration: ACCELERATION as nat,
                current_speed: base_speed as nat,
                max_speed: (2 * base_speed) as nat,
                accelerate_timer: TimerView::fresh(STARTUP_DELAY_NS as nat),
                decelerate_timer: TimerView::fresh(DECELERATE_DELAY_NS as nat),
            }),
    {
        MoveSpeed {
            state: MoveSpeedState::Paused,
            base_speed: base_speed as u64,
            acceleration: ACCELERATION,
            current_speed: base_speed as u64,
            max_speed: 2 * (base_speed as u64),
            accelerate_timer: OnceTimer::new(STARTUP_DELAY_NS),
            decelerate_timer: OnceTimer::new(DECELERATE_DELAY_NS),
        }
    }

    /// The current speed.
    pub fn get(&self) -> (r: u64)
        ensures
            r == self@.current_speed,
    {
        self.current_speed
    }

    pub fn state(&self) -> (r: MoveSpeedState)
        ensures
            r == self@.state,
    {
        self.state
    }

    pub fn base_speed(&self) -> (r: u64)
        ensures
            r == self@.base_speed,
    {
        self.base_speed
    }

    pub fn max_speed(&self) -> (r: u64)
        ensures
            r == self@.max_speed,
    {
        self.max_speed
    }

    /// Advances the ramp by `delta_ns`. While accelerating the speed never
    /// drops, while decelerating it never rises, and it stays between the base
    /// and the maximum speed.
    pub fn tick(&mut self, delta_ns: u64)
        requires
            old(self)@.wf(),
        ensures
            final(self)@ == old(self)@.after_tick(delta_ns as nat),
            final(self)@.wf(),
            old(self)@.state == MoveSpeedState::Accelerating ==> final(self)@.current_speed >= old(self)@.current_speed,
            old(self)@.state == MoveSpeedState::Decelerating ==> final(self)@.current_speed <= old(self)@.current_speed,
            old(self)@.state !is Accelerating && old(self)@.state !is Decelerating
                ==> final(self)@.current_speed == old(self)@.current_speed,
    {
        assert((self.acceleration as u128) * (delta_ns as u128) <= 0xffff_ffff_ffff_ffff * 0xffff_ffff_ffff_ffffu128)
            by (nonlinear_arith)
            requires self.acceleration <= 0xffff_ffff_ffff_ffffu64, delta_ns <= 0xffff_ffff_ffff_ffffu64;
        let rate = (self.acceleration as u128) * (delta_ns as u128);
        match self.state {
            MoveSpeedState::Startup => {
                self.accelerate_timer.tick(delta_ns);
                if self.accelerate_timer.finished() {
                    self.state = MoveSpeedState::Accelerating;
                }
            },
            MoveSpeedState::Decelerating => {
                self.decelerate_timer.tick(delta_ns);
                if self.decelerate_timer.finished() {
                    self.current_speed = ease(self.current_speed, self.base_speed, rate);
                }
            },
            MoveSpeedState::Accelerating => {
                self.current_speed = ease(self.current_speed, self.max_speed, rate);
            },
            MoveSpeedState::Paused => {},
        }
    }

    /// Movement input began: resume accelerating if the ramp was only slowing
    /// down, otherwise restart from the startup delay.
    pub fn start_moving(&mut self)
        ensures
            final(self)@ == old(self)@.after_start(),
            final(self)@.state == state_after_start(old(self)@.state),
            old(self)@.wf() ==> final(self)@.wf(),
    {
        match self.state {
            MoveSpeedState::Decelerating => {
                self.state = MoveSpeedState::Accelerating;
                self.decelerate_timer.reset();
            },
            _ => {
                self.state = MoveSpeedState::Startup;
                self.accelerate_timer.reset();
                self.decelerate_timer.reset();
            },
        }
    }

    /// Movement input ended: an accelerating ramp starts to decelerate, any
    /// other one pauses.
    pub fn stop_moving(&mut self)
        ensures
            final(self)@ == old(self)@.after_stop(),
            final(self)@.state == state_after_stop(old(self)@.state),
            old(self)@.wf() ==> final(self)@.wf(),
    {
        match self.state {
            MoveSpeedState::Accelerating => {
                self.state = MoveSpeedState::Decelerating;
            },
            _ => {
                self.state = MoveSpeedState::Paused;
                self.decelerate_timer.reset();
                self.accelerate_timer.reset();
            },
        }
    }
}

} // verus!

verus! {

/// The ramp after a run of `start_moving` (true) and `stop_moving` (false)
/// calls with no tick in between.
pub open spec fn after_calls(v: MoveSpeedView, calls: Seq<bool>) -> MoveSpeedView
    decreases calls.len(),
{
    if calls.len() == 0 {
        v
    } else {
        let before = after_calls(v, calls.drop_last());
        if calls.last() { before.after_start() } else { before.after_stop() }
    }
}

/// Start and stop calls alone never change a speed and keep the ramp well
/// formed; from a paused or starting ramp the last call decides the state:
/// `Startup` after a start, `Paused` after a stop.
pub proof fn lemma_calls_follow_table(v: MoveSpeedView, calls: Seq<bool>)
    requires
        v.wf(),
    ensures
        after_calls(v, calls).wf(),
        after_calls(v, calls).base_speed == v.base_speed,
        after_calls(v, calls).current_speed == v.current_speed,
        after_calls(v, calls).max_speed == v.max_speed,
        calls.len() > 0 ==> after_calls(v, calls).state == (if calls.last() {
            state_after_start(after_calls(v, calls.drop_last()).state)
        } else {
            state_after_stop(after_calls(v, calls.drop_last()).state)
        }),
        (v.state == MoveSpeedState::Paused || v.state == MoveSpeedState::Startup) && calls.len() > 0
            ==> after_calls(v, calls).state == (if calls.last() {
            MoveSpeedState::Startup
        } else {
            MoveSpeedState::Paused
        }),
        (v.state == MoveSpeedState::Paused || v.state == MoveSpeedState::Startup) ==> (
            after_calls(v, calls).state == MoveSpeedState::Paused
                || after_calls(v, calls).state == MoveSpeedState::Startup),
    decreases calls.len(),
{
    if calls.len() > 0 {
        lemma_calls_follow_table(v, calls.drop_last());
    }
}

} // verus!
