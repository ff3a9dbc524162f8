use crate::timer::{OnceTimer, TimerView};
use vstd::prelude::*;

verus! {

/// How long a press stays buffered after it happened, in nanoseconds.
pub const INPUT_BUFFER_NS: u64 = 166_000_000;

/// Number of logical actions.
pub const ACTION_COUNT: usize = 8;

/// Logical actions a player can perform.
#[derive(Clone, Copy, Debug, PartialEq, Eq, Hash, Default, Structural)]
pub enum PlayerAction {
    #[default]
    Jump,
    Move,
    Interact,
    Crouch,
    CamRotateRight,
    CamRotateLeft,
    CamModeChangePositive,
    CamModeChangeNegative,
}

pub open spec fn action_index(a: PlayerAction) -> int {
    match a {
        PlayerAction::Jump => 0,
        PlayerAction::Move => 1,
        PlayerAction::Interact => 2,
        PlayerAction::Crouch => 3,
        PlayerAction::CamRotateRight => 4,
        PlayerAction::CamRotateLeft => 5,
        PlayerAction::CamModeChangePositive => 6,
        PlayerAction::CamModeChangeNegative => 7,
    }
}

impl PlayerAction {
    /// Position of the action in the fixed list of actions.
    pub fn index(&self) -> (r: usize)
        ensures
            r == action_index(*self),
            r < ACTION_COUNT,
    {
        match self {
            PlayerAction::Jump => 0,
            PlayerAction::Move => 1,
            PlayerAction::Interact => 2,
            PlayerAction::Crouch => 3,
            PlayerAction::CamRotateRight => 4,
            PlayerAction::CamRotateLeft => 5,
            PlayerAction::CamModeChangePositive => 6,
            PlayerAction::CamModeChangeNegative => 7,
        }
    }
}

/// What the buffer knows of one action.
pub struct ActionView {
    /// The action is held down.
    pub pressed: bool,
    /// The press has outlived its buffering window without a release.
    pub stale: bool,
    /// The buffering window of the latest press, while it is open.
    pub buffer: Option<TimerView>,
}

impl ActionView {
    pub open spec fn idle() -> ActionView {
        ActionView { pressed: false, stale: false, buffer: None }
    }

    pub open spec fn wf(self) -> bool {
        self.buffer matches Some(t) ==> t.wf() && !t.finished
    }

    pub open spec fn just_pressed(self) -> bool {
        (self.pressed || self.buffer is Some) && !self.stale
    }

    pub open spec fn released(self) -> bool {
        !self.pressed && self.buffer is None
    }

    /// A press: held down, with a fresh buffering window.
    pub open spec fn after_press(self) -> ActionView {
        ActionView {
            pressed: true,
            stale: self.stale,
            buffer: Some(TimerView::fresh(INPUT_BUFFER_NS as nat)),
        }
    }

    /// Time passing: an open window advances; one that runs out closes and
    /// marks the press stale.
    pub open spec fn after_tick(self, delta: nat) -> ActionView {
        match self.buffer {
            None => self,
            Some(t) => if t.advanced(delta).finished {
                ActionView { pressed: self.pressed, stale: true, buffer: None }
            } else {
                ActionView { pressed: self.pressed, stale: self.stale, buffer: Some(t.advanced(delta)) }
            },
        }
    }
}

struct ActionSlot {
    pressed: bool,
    stale: bool,
    buffer: Option<OnceTimer>,
}

impl ActionSlot {
    closed spec fn view(&self) -> ActionView {
        ActionView {
            pressed: self.pressed,
            stale: self.stale,
            buffer: match self.buffer {
                Some(t) => Some(t@),
                None => None,
            },
        }
    }
}

/// Per-actor buffered action state: a press keeps counting as "just pressed"
/// for a short window, so that a check that runs a little late still sees it.
pub struct InputBuffer {
    slots: Vec<ActionSlot>,
}

impl InputBuffer {
    /// The buffer's state for one action.
    pub closed spec fn action(&self, a: PlayerAction) -> ActionView {
        self.slots@[action_index(a)].view()
    }

    pub closed spec fn wf(&self) -> bool {
        &&& self.slots@.len() == ACTION_COUNT
        &&& forall|i: int| 0 <= i < ACTION_COUNT ==> (#[trigger] self.slots@[i]).view().wf()
    }

    pub fn new() -> (b: InputBuffer)
        ensures
            b.wf(),
            forall|a: PlayerAction| #[trigger] b.action(a) == ActionView::idle(),
    {
        let mut slots: Vec<ActionSlot> = Vec::new();
        let mut i: usize = 0;
        while i < ACTION_COUNT
            invariant
                i <= ACTION_COUNT,
                slots@.len() == i,
                forall|j: int| 0 <= j < i ==> (#[trigger] slots@[j]).view() == ActionView::idle(),
            decreases ACTION_COUNT - i,
        {
            slots.push(ActionSlot { pressed: false, stale: false, buffer: None });
            i = i + 1;
        }
        let b = InputBuffer { slots };
        assert forall|a: PlayerAction| #[trigger] b.action(a) == ActionView::idle() by {
            assert(0 <= action_index(a) < ACTION_COUNT);
        }
        b
    }

    /// The action was pressed and that press is still fresh: either it is held
    /// and has not gone stale, or its buffering window is still open.
    pub fn just_pressed(&self, action: PlayerAction) -> (r: bool)
        requires
            self.wf(),
        ensures
            r == self.action(action).just_pressed(),
    {
        let slot = &self.slots[action.index()];
        (slot.pressed || slot.buffer.is_some()) && !slot.stale
    }

    /// The action is held down.
    pub fn pressed(&self, action: PlayerAction) -> (r: bool)
        requires
            self.wf(),
        ensures
            r == self.action(action).pressed,
    {
        self.slots[action.index()].pressed
    }

    /// The action is neither held nor within its buffering window.
    pub fn released(&self, action: PlayerAction) -> (r: bool)
        requires
            self.wf(),
        ensures
            r == self.action(action).released(),
    {
        let slot = &self.slots[action.index()];
        !slot.pressed && slot.buffer.is_none()
    }

    /// Records a press: the action is held and a new buffering window opens.
    pub fn press(&mut self, action: PlayerAction)
        requires
            old(self).wf(),
        ensures
            final(self).wf(),
            final(self).action(action) == old(self).action(action).after_press(),
            forall|a: PlayerAction| a != action ==> #[trigger] final(self).action(a) == old(self).action(a),
    {
        let i = action.index();
        let stale = self.slots[i].stale;
        let slot = ActionSlot { pressed: true, stale, buffer: Some(OnceTimer::new(INPUT_BUFFER_NS)) };
        self.slots.set(i, slot);
        proof {
            assert forall|a: PlayerAction| a != action implies #[trigger] self.action(a) == old(self).action(a) by {
                assert(action_index(a) != action_index(action));
            }
        }
    }

    /// Records a release: the action is forgotten entirely.
    pub fn release(&mut self, action: PlayerAction)
        requires
            old(self).wf(),
        ensures
            final(self).wf(),
            final(self).action(action) == ActionView::idle(),
            forall|a: PlayerAction| a != action ==> #[trigger] final(self).action(a) == old(self).action(a),
    {
        let i = action.index();
        self.slots.set(i, ActionSlot { pressed: false, stale: false, buffer: None });
        proof {
            assert forall|a: PlayerAction| a != action implies #[trigger] self.action(a) == old(self).action(a) by {
                assert(action_index(a) != action_index(action));
            }
        }
    }

    /// Advances every open buffering window by `delta_ns`; a window that runs
    /// out closes and leaves its action stale.
    pub fn tick(&mut self, delta_ns: u64)
        requires
            old(self).wf(),
        ensures
            final(self).wf(),
            forall|a: PlayerAction| #[trigger] final(self).action(a) == old(self).action(a).after_tick(delta_ns as nat),
    {
        let mut i: usize = 0;
        while i < ACTION_COUNT
            invariant
                self.wf(),
                i <= ACTION_COUNT,
                forall|j: int| 0 <= j < i ==> (#[trigger] self.slots@[j]).view() == old(self).slots@[j].view().after_tick(delta_ns as nat),
                forall|j: int| i <= j < ACTION_COUNT ==> (#[trigger] self.slots@[j]).view() == old(self).slots@[j].view(),
            decreases ACTION_COUNT - i,
        {
            let pressed = self.slots[i].pressed;
            let stale = self.slots[i].stale;
            match self.slots[i].buffer {
                Some(t) => {
                    let mut timer = t;
                    proof {
                        assert(self.slots@[i as int].view().wf());
                    }
                    timer.tick(delta_ns);
                    if timer.finished() {
                        self.slots.set(i, ActionSlot { pressed, stale: true, buffer: None });
                    } else {
                        self.slots.set(i, ActionSlot { pressed, stale, buffer: Some(timer) });
                    }
                },
                None => {},
            }
            i = i + 1;
        }
        proof {
            assert forall|a: PlayerAction| #[trigger] self.action(a) == old(self).action(a).after_tick(delta_ns as nat) by {
                assert(0 <= action_index(a) < ACTION_COUNT);
            }
        }
    }
}

/// One input step: time passes, then this tick's presses and releases are
/// recorded, releases last.
pub fn buffer_inputs(
    buffer: &mut InputBuffer,
    delta_ns: u64,
    just_pressed: &Vec<PlayerAction>,
    just_released: &Vec<PlayerAction>,
)
    requires
        old(buffer).wf(),
    ensures
        final(buffer).wf(),
        forall|a: PlayerAction| #[trigger] final(buffer).action(a) == (
            if just_released@.contains(a) {
                ActionView::idle()
            } else if just_pressed@.contains(a) {
                old(buffer).action(a).after_tick(delta_ns as nat).after_press()
            } else {
                old(buffer).action(a).after_tick(delta_ns as nat)
            }),
{
    buffer.tick(delta_ns);
    let ghost ticked = *buffer;
    let mut i: usize = 0;
    while i < just_pressed.len()
        invariant
            buffer.wf(),
            i <= just_pressed.len(),
            forall|a: PlayerAction| #[trigger] buffer.action(a) == (
                if just_pressed@.subrange(0, i as int).contains(a) {
                    ticked.action(a).after_press()
                } else {
                    ticked.action(a)
                }),
        decreases just_pressed.len() - i,
    {
        buffer.press(just_pressed[i]);
        proof {
            assert forall|a: PlayerAction| #[trigger] just_pressed@.subrange(0, i + 1).contains(a)
                == (just_pressed@.subrange(0, i as int).contains(a) || a == just_pressed@[i as int]) by {
                let s = just_pressed@.subrange(0, i + 1);
                if a == just_pressed@[i as int] {
                    assert(s[i as int] == a);
                }
                if just_pressed@.subrange(0, i as int).contains(a) {
                    let k = choose|k: int| 0 <= k < i && just_pressed@.subrange(0, i as int)[k] == a;
                    assert(s[k] == a);
                }
                if s.contains(a) {
                    let k = choose|k: int| 0 <= k < i + 1 && s[k] == a;
                    if k < i {
                        assert(just_pressed@.subrange(0, i as int)[k] == a);
                    }
                }
            }
        }
        i = i + 1;
    }
    assert(just_pressed@.subrange(0, just_pressed@.len() as int) =~= just_pressed@);
    let ghost pressed_all = *buffer;
    let mut j: usize = 0;
    while j < just_released.len()
        invariant
            buffer.wf(),
            j <= just_released.len(),
            forall|a: PlayerAction| #[trigger] buffer.action(a) == (
                if just_released@.subrange(0, j as int).contains(a) {
                    ActionView::idle()
                } else {
                    pressed_all.action(a)
                }),
        decreases just_released.len() - j,
    {
        buffer.release(just_released[j]);
        proof {
            assert forall|a: PlayerAction| #[trigger] just_released@.subrange(0, j + 1).contains(a)
                == (just_released@.subrange(0, j as int).contains(a) || a == just_released@[j as int]) by {
                let s = just_released@.subrange(0, j + 1);
                if a == just_released@[j as int] {
                    assert(s[j as int] == a);
                }
                if just_released@.subrange(0, j as int).contains(a) {
                    let k = choose|k: int| 0 <= k < j && just_released@.subrange(0, j as int)[k] == a;
                    assert(s[k] == a);
                }
                if s.contains(a) {
                    let k = choose|k: int| 0 <= k < j + 1 && s[k] == a;
                    if k < j {
                        assert(just_released@.subrange(0, j as int)[k] == a);
                    }
                }
            }
        }
        j = j + 1;
    }
    assert(just_released@.subrange(0, just_released@.len() as int) =~= just_released@);
}

} // verus!
