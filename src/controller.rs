use crate::timer::{OnceTimer, TimerView};
use vstd::prelude::*;

verus! {

/// Length of the coyote-time grace window.
pub const COYOTE_TIME_NS: u64 = 330_000_000;

/// Physical tuning of a character, fixed after spawn. All values are in
/// thousandths of a unit.
#[derive(Clone, Copy, Debug, PartialEq, Eq, Structural)]
pub struct Character {
    pub ride_height: i32,
    pub spring_strength: i32,
    pub spring_damper: i32,
    pub jump_strength: i32,
    pub base_gravity_scale: i32,
    pub regrab_gravity_scale: i32,
}

impl Character {
    /// Tuning for a capsule of the given collider height: the ride height is
    /// 1.4 times the height, rounded down; the rest is the default tuning.
    pub fn for_collider_height(collider_height: u32) -> (c: Character)
        requires
            collider_height <= 1_500_000_000,
        ensures
            c.ride_height == collider_height * 14 / 10,
            c.spring_strength == 23000,
            c.spring_damper == 5000,
            c.jump_strength == 17500,
            c.base_gravity_scale == 2000,
            c.regrab_gravity_scale == 1500,
    {
        let ride = (collider_height as u64) * 14 / 10;
        Character {
            ride_height: ride as i32,
            spring_strength: 23000,
            spring_damper: 5000,
            jump_strength: 17500,
            base_gravity_scale: 2000,
            regrab_gravity_scale: 1500,
        }
    }
}

impl Default for Character {
    fn default() -> (c: Character)
        ensures
            c.ride_height == 1400,
            c.spring_strength == 23000,
            c.spring_damper == 5000,
            c.jump_strength == 17500,
            c.base_gravity_scale == 2000,
            c.regrab_gravity_scale == 1500,
    {
        Character {
            ride_height: 1400,
            spring_strength: 23000,
            spring_damper: 5000,
            jump_strength: 17500,
            base_gravity_scale: 2000,
            regrab_gravity_scale: 1500,
        }
    }
}

/// Vertical spring-damper force of the floating capsule, in millionths of a
/// unit: the offset from the ride height times the spring strength, minus
/// the vertical velocity relative to the ground times the damper.
pub open spec fn spring_force_of(c: Character, distance: int, velocity: int, ground_velocity: int) -> int {
    (c.ride_height - distance) * c.spring_strength - (velocity - ground_velocity) * c.spring_damper
}

/// Exec form of `spring_force_of`; at the ride height with no relative
/// motion the spring is at rest and the force is zero.
pub fn spring_force(c: &Character, distance: i32, velocity: i32, ground_velocity: i32) -> (f: i128)
    ensures
        f == spring_force_of(*c, distance as int, velocity as int, ground_velocity as int),
        distance == c.ride_height && velocity == ground_velocity ==> f == 0,
{
    let offset = (c.ride_height as i128) - (distance as i128);
    let relative = (velocity as i128) - (ground_velocity as i128);
    assert(-0x1_0000_0000 <= offset <= 0x1_0000_0000);
    assert(-0x1_0000_0000 <= relative <= 0x1_0000_0000);
    assert(-0x1_0000_0000_0000_0000 <= offset * (c.spring_strength as i128) <= 0x1_0000_0000_0000_0000)
        by (nonlinear_arith)
        requires -0x1_0000_0000 <= offset <= 0x1_0000_0000, -0x8000_0000 <= c.spring_strength < 0x8000_0000;
    assert(-0x1_0000_0000_0000_0000 <= relative * (c.spring_damper as i128) <= 0x1_0000_0000_0000_0000)
        by (nonlinear_arith)
        requires -0x1_0000_0000 <= relative <= 0x1_0000_0000, -0x8000_0000 <= c.spring_damper < 0x8000_0000;
    let f = offset * (c.spring_strength as i128) - relative * (c.spring_damper as i128);
    proof {
        if distance == c.ride_height && velocity == ground_velocity {
            assert(offset == 0 && relative == 0);
            assert(offset * (c.spring_strength as i128) == 0 && relative * (c.spring_damper as i128) == 0)
                by (nonlinear_arith)
                requires offset == 0, relative == 0;
        }
    }
    f
}

/// A spring at its rest length exerts no force: at the ride height, moving
/// with the ground, the suspension force is zero.
pub proof fn lemma_spring_at_rest(c: Character, velocity: int)
    ensures
        spring_force_of(c, c.ride_height as int, velocity, velocity) == 0,
{
}

/// The grace window granted on leaving the ground without jumping.
#[derive(Clone, Copy, Debug)]
pub struct CoyoteTime(OnceTimer);

impl View for CoyoteTime {
    type V = TimerView;

    closed spec fn view(&self) -> TimerView {
        self.0@
    }
}

impl CoyoteTime {
    pub fn tick(&mut self, delta_ns: u64)
        requires
            old(self)@.wf(),
        ensures
            final(self)@ == old(self)@.advanced(delta_ns as nat),
            final(self)@.wf(),
    {
        self.0.tick(delta_ns);
    }

    pub fn finished(&self) -> (r: bool)
        ensures
            r == self@.finished,
    {
        self.0.finished()
    }
}

impl Default for CoyoteTime {
    fn default() -> (c: CoyoteTime)
        ensures
            c@ == TimerView::fresh(COYOTE_TIME_NS as nat),
    {
        CoyoteTime(OnceTimer::new(COYOTE_TIME_NS))
    }
}

/// One hit of the downward ground cast, nearest first: the distance to the
/// surface and the surface's own vertical velocity (zero for static ground).
#[derive(Clone, Copy, Debug, PartialEq, Eq, Structural)]
pub struct GroundHit {
    pub time_of_impact: i32,
    pub surface_vertical_velocity: i32,
}

/// The discrete modes of a character, each present or absent.
pub ghost struct LocomotionView {
    pub grounded: bool,
    pub jumping: bool,
    pub coyote_time: Option<TimerView>,
    pub regrab: bool,
    pub long_jump: bool,
    pub diving: bool,
}

impl LocomotionView {
    pub open spec fn wf(self) -> bool {
        &&& !(self.grounded && self.jumping)
        &&& self.coyote_time matches Some(t) ==> t.wf() && t.duration == COYOTE_TIME_NS
    }

    /// The coyote window advances; once it runs out it is gone.
    pub open spec fn after_coyote_tick(self, delta: nat) -> LocomotionView {
        match self.coyote_time {
            Some(t) => if t.advanced(delta).finished {
                LocomotionView { coyote_time: None, ..self }
            } else {
                LocomotionView { coyote_time: Some(t.advanced(delta)), ..self }
            },
            None => self,
        }
    }

    /// Ground contact becomes grounded unless a jump is under way; losing
    /// contact while grounded ends it, and grants coyote time unless jumping.
    pub open spec fn after_ground_sensing(self, has_hits: bool) -> LocomotionView {
        if has_hits {
            if !self.grounded && !self.jumping {
                LocomotionView { grounded: true, ..self }
            } else {
                self
            }
        } else if self.grounded {
            if !self.jumping {
                LocomotionView {
                    grounded: false,
                    coyote_time: Some(TimerView::fresh(COYOTE_TIME_NS as nat)),
                    ..self
                }
            } else {
                LocomotionView { grounded: false, ..self }
            }
        } else {
            self
        }
    }

    pub open spec fn lands(self, has_hits: bool) -> bool {
        has_hits && !self.grounded && !self.jumping
    }

    /// Landing clears every airborne move.
    pub open spec fn after_landing(self) -> LocomotionView {
        LocomotionView { jumping: false, long_jump: false, diving: false, ..self }
    }

    pub open spec fn can_jump(self, just_pressed: bool) -> bool {
        (self.grounded || self.coyote_time is Some) && just_pressed
    }

    pub open spec fn after_jump(self, just_pressed: bool) -> LocomotionView {
        if self.can_jump(just_pressed) {
            LocomotionView { jumping: true, coyote_time: None, grounded: false, ..self }
        } else {
            self
        }
    }

    pub open spec fn cuts_jump(self, released: bool, vertical_velocity: int) -> bool {
        self.jumping && (released || vertical_velocity <= 0)
    }

    pub open spec fn after_jump_cutoff(self, released: bool, vertical_velocity: int) -> LocomotionView {
        if self.cuts_jump(released, vertical_velocity) {
            LocomotionView { jumping: false, ..self }
        } else {
            self
        }
    }

    pub open spec fn exits_regrab(self, has_hits: bool, released: bool) -> bool {
        (has_hits || released) && self.regrab
    }

    pub open spec fn enters_regrab(self, has_hits: bool, just_pressed: bool) -> bool {
        just_pressed && !has_hits && !self.jumping && !self.regrab
    }

    pub open spec fn after_regrab_exit(self, has_hits: bool, released: bool) -> LocomotionView {
        if self.exits_regrab(has_hits, released) {
            LocomotionView { regrab: false, ..self }
        } else {
            self
        }
    }

    pub open spec fn after_regrab(self, has_hits: bool, released: bool, just_pressed: bool) -> LocomotionView {
        let s = self.after_regrab_exit(has_hits, released);
        if s.enters_regrab(has_hits, just_pressed) {
            LocomotionView { regrab: true, ..s }
        } else {
            s
        }
    }
}

/// What one tick reads besides the character's modes.
#[derive(Clone, Debug)]
pub struct TickInput {
    pub delta_ns: u64,
    pub ground_hits: Vec<GroundHit>,
    /// Vertical velocity of the character before this tick's decisions.
    pub vertical_velocity: i32,
    pub jump_just_pressed: bool,
    pub jump_released: bool,
}

/// What one tick asks of the physics world.
#[derive(Clone, Copy, Debug, PartialEq, Eq, Structural)]
pub struct TickOutput {
    /// Upward force to apply this tick, when the ground is in reach.
    pub force: Option<i128>,
    /// New vertical velocity, when it is overridden.
    pub vertical_velocity: Option<i32>,
    /// New gravity scale, when it changes.
    pub gravity_scale: Option<i32>,
    /// The character touched down this tick.
    pub landed: bool,
    /// A jump started this tick.
    pub jumped: bool,
}

/// The modes once coyote time has run down, the ground has been sensed and
/// a landing has been cleaned up: what jump initiation sees.
pub open spec fn before_jump(s: LocomotionView, delta: nat, has_hits: bool) -> LocomotionView {
    let s1 = s.after_coyote_tick(delta);
    let s2 = s1.after_ground_sensing(has_hits);
    if s1.lands(has_hits) { s2.after_landing() } else { s2 }
}

/// The vertical velocity that jump cutoff sees: the jump's launch velocity
/// when a jump starts, the character's own otherwise.
pub open spec fn velocity_at_cutoff(
    s: LocomotionView,
    jump_strength: int,
    delta: nat,
    has_hits: bool,
    vertical_velocity: int,
    just_pressed: bool,
) -> int {
    if before_jump(s, delta, has_hits).can_jump(just_pressed) { jump_strength } else { vertical_velocity }
}

/// The modes after jump initiation and cutoff: what regrab sees.
pub open spec fn before_regrab(
    s: LocomotionView,
    jump_strength: int,
    delta: nat,
    has_hits: bool,
    vertical_velocity: int,
    just_pressed: bool,
    released: bool,
) -> LocomotionView {
    before_jump(s, delta, has_hits).after_jump(just_pressed).after_jump_cutoff(
        released,
        velocity_at_cutoff(s, jump_strength, delta, has_hits, vertical_velocity, just_pressed),
    )
}

/// The whole tick on the modes, in its fixed order: coyote time runs down,
/// ground sensing, landing cleanup, jump initiation, jump cutoff, regrab.
pub open spec fn locomotion_step(
    s: LocomotionView,
    jump_strength: int,
    delta: nat,
    has_hits: bool,
    vertical_velocity: int,
    just_pressed: bool,
    released: bool,
) -> LocomotionView {
    before_regrab(s, jump_strength, delta, has_hits, vertical_velocity, just_pressed, released)
        .after_regrab(has_hits, released, just_pressed)
}

/// The discrete modes of one character: Grounded, Jumping, CoyoteTime,
/// Regrab, and the LongJump and Diving moves. Grounded and Jumping are never
/// present together.
#[derive(Clone, Copy, Debug)]
pub struct LocomotionState {
    grounded: bool,
    jumping: bool,
    coyote_time: Option<CoyoteTime>,
    regrab: bool,
    long_jump: bool,
    diving: bool,
}

impl View for LocomotionState {
    type V = LocomotionView;

    closed spec fn view(&self) -> LocomotionView {
        LocomotionView {
            grounded: self.grounded,
            jumping: self.jumping,
            coyote_time: match self.coyote_time {
                Some(c) => Some(c@),
                None => None,
            },
            regrab: self.regrab,
            long_jump: self.long_jump,
            diving: self.diving,
        }
    }
}

impl LocomotionState {
    /// A character with no mode present.
    pub fn new() -> (s: LocomotionState)
        ensures
            s@.wf(),
            s@ == (LocomotionView {
                grounded: false,
                jumping: false,
                coyote_time: None,
                regrab: false,
                long_jump: false,
                diving: false,
            }),
    {
        LocomotionState {
            grounded: false,
            jumping: false,
            coyote_time: None,
            regrab: false,
            long_jump: false,
            diving: false,
        }
    }

    /// The given combination of modes, with a fresh coyote window when
    /// `coyote_time` is set; refused when it is both grounded and jumping.
    pub fn from_modes(
        grounded: bool,
        jumping: bool,
        coyote_time: bool,
        regrab: bool,
        long_jump: bool,
        diving: bool,
    ) -> (r: Option<LocomotionState>)
        ensures
            r is None <==> grounded && jumping,
            r matches Some(s) ==> s@.wf() && s@ == (LocomotionView {
                grounded,
                jumping,
                coyote_time: if coyote_time { Some(TimerView::fresh(COYOTE_TIME_NS as nat)) } else { None },
                regrab,
                long_jump,
                diving,
            }),
    {
        if grounded && jumping {
            None
        } else {
            let coyote = if coyote_time { Some(CoyoteTime::default()) } else { None };
            Some(LocomotionState { grounded, jumping, coyote_time: coyote, regrab, long_jump, diving })
        }
    }

    pub fn is_grounded(&self) -> (r: bool)
        ensures
            r == self@.grounded,
    {
        self.grounded
    }

    pub fn is_jumping(&self) -> (r: bool)
        ensures
            r == self@.jumping,
    {
        self.jumping
    }

    pub fn has_coyote_time(&self) -> (r: bool)
        ensures
            r == self@.coyote_time is Some,
    {
        self.coyote_time.is_some()
    }

    pub fn is_regrabbing(&self) -> (r: bool)
        ensures
            r == self@.regrab,
    {
        self.regrab
    }

    pub fn is_long_jumping(&self) -> (r: bool)
        ensures
            r == self@.long_jump,
    {
        self.long_jump
    }

    pub fn is_diving(&self) -> (r: bool)
        ensures
            r == self@.diving,
    {
        self.diving
    }
}

/// Ground sensing and suspension for one tick. With ground in reach, the
/// nearest hit gives the spring force to apply and the character becomes
/// grounded unless jumping; without it a grounded character leaves the ground
/// and, unless jumping, gets a fresh coyote window. Returns the force, if
/// any, and whether the character touched down.
pub fn floating_capsule(
    state: &mut LocomotionState,
    character: &Character,
    ground_hits: &Vec<GroundHit>,
    vertical_velocity: i32,
) -> (r: (Option<i128>, bool))
    requires
        old(state)@.wf(),
    ensures
        final(state)@.wf(),
        final(state)@ == old(state)@.after_ground_sensing(ground_hits.len() > 0),
        r.1 == old(state)@.lands(ground_hits.len() > 0),
        ground_hits.len() == 0 ==> r.0 is None,
        ground_hits.len() > 0 ==> r.0 == Some(spring_force_of(
            *character,
            ground_hits@[0].time_of_impact as int,
            vertical_velocity as int,
            ground_hits@[0].surface_vertical_velocity as int,
        ) as i128),
{
    if ground_hits.len() > 0 {
        let nearest = ground_hits[0];
        let force = spring_force(character, nearest.time_of_impact, vertical_velocity, nearest.surface_vertical_velocity);
        let landed = !state.grounded && !state.jumping;
        if landed {
            state.grounded = true;
        }
        (Some(force), landed)
    } else {
        if state.grounded {
            state.grounded = false;
            if !state.jumping {
                state.coyote_time = Some(CoyoteTime::default());
            }
        }
        (None, false)
    }
}

/// Runs the coyote window down; once it has run out it is removed.
pub fn handle_coyote_time(state: &mut LocomotionState, delta_ns: u64)
    requires
        old(state)@.wf(),
    ensures
        final(state)@.wf(),
        final(state)@ == old(state)@.after_coyote_tick(delta_ns as nat),
{
    match state.coyote_time {
        Some(c) => {
            let mut coyote = c;
            coyote.tick(delta_ns);
            if coyote.finished() {
                state.coyote_time = None;
            } else {
                state.coyote_time = Some(coyote);
            }
        },
        None => {},
    }
}

/// Landing cleanup: jumping, long jump and dive all end.
pub fn land(state: &mut LocomotionState)
    requires
        old(state)@.wf(),
    ensures
        final(state)@.wf(),
        final(state)@ == old(state)@.after_landing(),
{
    state.jumping = false;
    state.long_jump = false;
    state.diving = false;
}

/// Jump initiation: grounded or within coyote time, a fresh jump press
/// launches the character. Returns the new vertical velocity when it jumps.
pub fn jump(state: &mut LocomotionState, character: &Character, jump_just_pressed: bool) -> (r: Option<i32>)
    requires
        old(state)@.wf(),
    ensures
        final(state)@.wf(),
        final(state)@ == old(state)@.after_jump(jump_just_pressed),
        r == (if old(state)@.can_jump(jump_just_pressed) { Some(character.jump_strength) } else { None }),
{
    if (state.grounded || state.coyote_time.is_some()) && jump_just_pressed {
        state.jumping = true;
        state.coyote_time = None;
        state.grounded = false;
        Some(character.jump_strength)
    } else {
        None
    }
}

/// Jump cutoff: a jump ends when the button is released or the character
/// stops rising, and the vertical velocity is then zeroed. Returns the new
/// vertical velocity when it is cut.
pub fn handle_jumping(state: &mut LocomotionState, jump_released: bool, vertical_velocity: i32) -> (r: Option<i32>)
    requires
        old(state)@.wf(),
    ensures
        final(state)@.wf(),
        final(state)@ == old(state)@.after_jump_cutoff(jump_released, vertical_velocity as int),
        r == (if old(state)@.cuts_jump(jump_released, vertical_velocity as int) { Some(0i32) } else { None }),
{
    if state.jumping && (jump_released || vertical_velocity <= 0) {
        state.jumping = false;
        Some(0)
    } else {
        None
    }
}

/// Regrab: leaving it on ground contact or release restores the base
/// gravity scale; a fresh jump press in the air without a jump under way
/// enters it with the lighter regrab gravity. Returns the new gravity scale
/// when it changes.
pub fn handle_regrab(
    state: &mut LocomotionState,
    character: &Character,
    has_ground_hits: bool,
    jump_released: bool,
    jump_just_pressed: bool,
) -> (r: Option<i32>)
    requires
        old(state)@.wf(),
    ensures
        final(state)@.wf(),
        final(state)@ == old(state)@.after_regrab(has_ground_hits, jump_released, jump_just_pressed),
        r == (if old(state)@.after_regrab_exit(has_ground_hits, jump_released).enters_regrab(
            has_ground_hits,
            jump_just_pressed,
        ) {
            Some(character.regrab_gravity_scale)
        } else if old(state)@.exits_regrab(has_ground_hits, jump_released) {
            Some(character.base_gravity_scale)
        } else {
            None
        }),
{
    let mut scale: Option<i32> = None;
    if (has_ground_hits || jump_released) && state.regrab {
        state.regrab = false;
        scale = Some(character.base_gravity_scale);
    }
    if jump_just_pressed && !has_ground_hits && !state.jumping && !state.regrab {
        state.regrab = true;
        scale = Some(character.regrab_gravity_scale);
    }
    scale
}

impl LocomotionState {
    /// One controller tick in the fixed order of `locomotion_step`; returns
    /// what the physics world has to apply.
    pub fn tick(&mut self, character: &Character, input: &TickInput) -> (out: TickOutput)
        requires
            old(self)@.wf(),
        ensures
            final(self)@.wf(),
            final(self)@ == locomotion_step(
                old(self)@,
                character.jump_strength as int,
                input.delta_ns as nat,
                input.ground_hits.len() > 0,
                input.vertical_velocity as int,
                input.jump_just_pressed,
                input.jump_released,
            ),
            input.ground_hits.len() == 0 ==> out.force is None,
            input.ground_hits.len() > 0 ==> out.force == Some(spring_force_of(
                *character,
                input.ground_hits@[0].time_of_impact as int,
                input.vertical_velocity as int,
                input.ground_hits@[0].surface_vertical_velocity as int,
            ) as i128),
            out.landed == old(self)@.after_coyote_tick(input.delta_ns as nat).lands(input.ground_hits.len() > 0),
            out.jumped == before_jump(old(self)@, input.delta_ns as nat, input.ground_hits.len() > 0)
                .can_jump(input.jump_just_pressed),
            out.vertical_velocity == (if before_jump(old(self)@, input.delta_ns as nat, input.ground_hits.len() > 0)
                .after_jump(input.jump_just_pressed).cuts_jump(
                    input.jump_released,
                    velocity_at_cutoff(old(self)@, character.jump_strength as int, input.delta_ns as nat,
                        input.ground_hits.len() > 0, input.vertical_velocity as int, input.jump_just_pressed),
                ) {
                Some(0i32)
            } else if out.jumped {
                Some(character.jump_strength)
            } else {
                None
            }),
            ({
                let s5 = before_regrab(old(self)@, character.jump_strength as int, input.delta_ns as nat,
                    input.ground_hits.len() > 0, input.vertical_velocity as int, input.jump_just_pressed,
                    input.jump_released);
                out.gravity_scale == (if s5.after_regrab_exit(input.ground_hits.len() > 0, input.jump_released)
                    .enters_regrab(input.ground_hits.len() > 0, input.jump_just_pressed) {
                    Some(character.regrab_gravity_scale)
                } else if s5.exits_regrab(input.ground_hits.len() > 0, input.jump_released) {
                    Some(character.base_gravity_scale)
                } else {
                    None
                })
            }),
    {
        handle_coyote_time(self, input.delta_ns);
        let (force, landed) = floating_capsule(self, character, &input.ground_hits, input.vertical_velocity);
        if landed {
            land(self);
        }
        let launch = jump(self, character, input.jump_just_pressed);
        let velocity = match launch {
            Some(v) => v,
            None => input.vertical_velocity,
        };
        let cut = handle_jumping(self, input.jump_released, velocity);
        let vertical_velocity = match cut {
            Some(v) => Some(v),
            None => launch,
        };
        let gravity_scale = handle_regrab(
            self,
            character,
            input.ground_hits.len() > 0,
            input.jump_released,
            input.jump_just_pressed,
        );
        TickOutput { force, vertical_velocity, gravity_scale, landed, jumped: launch.is_some() }
    }
}

} // verus!

verus! {

/// The signals one tick reads, as plain values.
pub ghost struct TickSignals {
    pub delta: nat,
    pub has_hits: bool,
    pub vertical_velocity: int,
    pub just_pressed: bool,
    pub released: bool,
}

/// The modes after running `ticks` in order from `s`.
pub open spec fn run_ticks(s: LocomotionView, jump_strength: int, ticks: Seq<TickSignals>) -> LocomotionView
    decreases ticks.len(),
{
    if ticks.len() == 0 {
        s
    } else {
        let t = ticks.last();
        locomotion_step(
            run_ticks(s, jump_strength, ticks.drop_last()),
            jump_strength,
            t.delta,
            t.has_hits,
            t.vertical_velocity,
            t.just_pressed,
            t.released,
        )
    }
}

/// One tick keeps the modes well formed.
pub proof fn lemma_step_keeps_wf(
    s: LocomotionView,
    jump_strength: int,
    delta: nat,
    has_hits: bool,
    vertical_velocity: int,
    just_pressed: bool,
    released: bool,
)
    requires
        s.wf(),
    ensures
        locomotion_step(s, jump_strength, delta, has_hits, vertical_velocity, just_pressed, released).wf(),
{
}

/// Whatever the ticks, a character is never grounded and jumping at once.
pub proof fn lemma_never_grounded_while_jumping(s: LocomotionView, jump_strength: int, ticks: Seq<TickSignals>)
    requires
        s.wf(),
    ensures
        forall|n: int| 0 <= n <= ticks.len() ==> {
            let r = #[trigger] run_ticks(s, jump_strength, ticks.subrange(0, n));
            r.wf() && !(r.grounded && r.jumping)
        },
    decreases ticks.len(),
{
    if ticks.len() > 0 {
        let prefix = ticks.drop_last();
        lemma_never_grounded_while_jumping(s, jump_strength, prefix);
        assert forall|n: int| 0 <= n <= ticks.len() implies {
            let r = #[trigger] run_ticks(s, jump_strength, ticks.subrange(0, n));
            r.wf() && !(r.grounded && r.jumping)
        } by {
            if n < ticks.len() {
                assert(ticks.subrange(0, n) =~= prefix.subrange(0, n));
            } else {
                assert(ticks.subrange(0, n) =~= ticks);
                assert(prefix.subrange(0, prefix.len() as int) =~= prefix);
                let t = ticks.last();
                lemma_step_keeps_wf(
                    run_ticks(s, jump_strength, prefix),
                    jump_strength,
                    t.delta,
                    t.has_hits,
                    t.vertical_velocity,
                    t.just_pressed,
                    t.released,
                );
            }
        }
    }
}

/// Coyote time appears only on the tick the character leaves the ground
/// without jumping, and goes away only when it runs out or a jump uses it.
pub proof fn lemma_coyote_time_lifecycle(
    s: LocomotionView,
    jump_strength: int,
    delta: nat,
    has_hits: bool,
    vertical_velocity: int,
    just_pressed: bool,
    released: bool,
)
    requires
        s.wf(),
    ensures
        ({
            let n = locomotion_step(s, jump_strength, delta, has_hits, vertical_velocity, just_pressed, released);
            &&& s.coyote_time is None && n.coyote_time is Some ==> s.grounded && !n.grounded && !s.jumping && !has_hits
            &&& s.coyote_time is None && n.coyote_time is Some
                ==> n.coyote_time.unwrap() == TimerView::fresh(COYOTE_TIME_NS as nat)
            &&& s.coyote_time is Some && n.coyote_time is None
                ==> s.coyote_time.unwrap().advanced(delta).finished
                || before_jump(s, delta, has_hits).can_jump(just_pressed)
        }),
{
}

} // verus!
