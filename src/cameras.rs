use vstd::prelude::*;

verus! {

/// The keys that move the camera, in the order in which a frame applies them.
#[derive(Clone, Copy, Debug, PartialEq, Eq, Structural)]
pub enum MoveKey {
    PageDown,
    PageUp,
    ArrowDown,
    ArrowLeft,
    ArrowRight,
    ArrowUp,
}

/// Number of movement keys.
pub const MOVE_KEY_COUNT: usize = 6;

/// An axis of the camera's view space.
#[derive(Clone, Copy, Debug, PartialEq, Eq, Structural)]
pub enum Axis {
    X,
    Y,
    Z,
}

/// One step of camera movement along an axis, by the key speed towards the
/// positive end of the axis when `positive` holds, else towards the negative end.
#[derive(Clone, Copy, Debug, PartialEq, Eq, Structural)]
pub struct CameraStep {
    pub axis: Axis,
    pub positive: bool,
}

/// Position of a key in the order in which a frame applies them.
pub open spec fn key_index(k: MoveKey) -> int {
    match k {
        MoveKey::PageDown => 0,
        MoveKey::PageUp => 1,
        MoveKey::ArrowDown => 2,
        MoveKey::ArrowLeft => 3,
        MoveKey::ArrowRight => 4,
        MoveKey::ArrowUp => 5,
    }
}

/// The key at a position of that order.
pub open spec fn key_at(i: int) -> MoveKey {
    if i == 0 {
        MoveKey::PageDown
    } else if i == 1 {
        MoveKey::PageUp
    } else if i == 2 {
        MoveKey::ArrowDown
    } else if i == 3 {
        MoveKey::ArrowLeft
    } else if i == 4 {
        MoveKey::ArrowRight
    } else {
        MoveKey::ArrowUp
    }
}

/// The step a held key makes each frame: the arrows move forward, backward
/// and sideways, the page keys up and down.
pub open spec fn step_of(k: MoveKey) -> CameraStep {
    match k {
        MoveKey::ArrowUp => CameraStep { axis: Axis::Z, positive: true },
        MoveKey::ArrowDown => CameraStep { axis: Axis::Z, positive: false },
        MoveKey::ArrowLeft => CameraStep { axis: Axis::X, positive: false },
        MoveKey::ArrowRight => CameraStep { axis: Axis::X, positive: true },
        MoveKey::PageUp => CameraStep { axis: Axis::Y, positive: true },
        MoveKey::PageDown => CameraStep { axis: Axis::Y, positive: false },
    }
}

/// The steps of the held keys among the first `n` keys, in key order.
pub open spec fn held_steps(held: Set<MoveKey>, n: int) -> Seq<CameraStep>
    decreases n,
{
    if n <= 0 {
        Seq::empty()
    } else if held.contains(key_at(n - 1)) {
        held_steps(held, n - 1).push(step_of(key_at(n - 1)))
    } else {
        held_steps(held, n - 1)
    }
}

fn index_of(k: MoveKey) -> (r: usize)
    ensures
        r == key_index(k),
        key_at(r as int) == k,
{
    match k {
        MoveKey::PageDown => 0,
        MoveKey::PageUp => 1,
        MoveKey::ArrowDown => 2,
        MoveKey::ArrowLeft => 3,
        MoveKey::ArrowRight => 4,
        MoveKey::ArrowUp => 5,
    }
}

fn key_of(i: usize) -> (r: MoveKey)
    requires
        i < MOVE_KEY_COUNT,
    ensures
        r == key_at(i as int),
        key_index(r) == i,
{
    if i == 0 {
        MoveKey::PageDown
    } else if i == 1 {
        MoveKey::PageUp
    } else if i == 2 {
        MoveKey::ArrowDown
    } else if i == 3 {
        MoveKey::ArrowLeft
    } else if i == 4 {
        MoveKey::ArrowRight
    } else {
        MoveKey::ArrowUp
    }
}

fn step_for(k: MoveKey) -> (r: CameraStep)
    ensures
        r == step_of(k),
{
    match k {
        MoveKey::ArrowUp => CameraStep { axis: Axis::Z, positive: true },
        MoveKey::ArrowDown => CameraStep { axis: Axis::Z, positive: false },
        MoveKey::ArrowLeft => CameraStep { axis: Axis::X, positive: false },
        MoveKey::ArrowRight => CameraStep { axis: Axis::X, positive: true },
        MoveKey::PageUp => CameraStep { axis: Axis::Y, positive: true },
        MoveKey::PageDown => CameraStep { axis: Axis::Y, positive: false },
    }
}

/// The movement keys held down at the moment.
pub struct MovementKeys {
    pressed: Vec<bool>,
}

impl View for MovementKeys {
    type V = Set<MoveKey>;

    closed spec fn view(&self) -> Set<MoveKey> {
        Set::new(|k: MoveKey| self.pressed@[key_index(k)])
    }
}

impl MovementKeys {
    pub closed spec fn wf(&self) -> bool {
        self.pressed@.len() == MOVE_KEY_COUNT
    }

    pub fn new() -> (r: Self)
        ensures
            r.wf(),
            r@ == Set::<MoveKey>::empty(),
    {
        let r = MovementKeys { pressed: vec![false, false, false, false, false, false] };
        assert(r@ =~= Set::<MoveKey>::empty());
        r
    }

    /// A movement key went down or up.
    pub fn key_event(&mut self, key: MoveKey, state: crate::window::ButtonState)
        requires
            old(self).wf(),
        ensures
            final(self).wf(),
            final(self)@ == if state == crate::window::ButtonState::Pressed {
                old(self)@.insert(key)
            } else {
                old(self)@.remove(key)
            },
    {
        let i = index_of(key);
        let pressed = match state {
            crate::window::ButtonState::Pressed => true,
            crate::window::ButtonState::Released => false,
        };
        self.pressed.set(i, pressed);
        assert(final(self)@ =~= if state == crate::window::ButtonState::Pressed {
            old(self)@.insert(key)
        } else {
            old(self)@.remove(key)
        });
    }

    pub fn is_empty(&self) -> (r: bool)
        requires
            self.wf(),
        ensures
            r == (self@ == Set::<MoveKey>::empty()),
    {
        let mut i: usize = 0;
        while i < MOVE_KEY_COUNT
            invariant
                i <= MOVE_KEY_COUNT,
                self.wf(),
                forall|j: int| 0 <= j < i ==> !self.pressed@[j],
            decreases MOVE_KEY_COUNT - i,
        {
            if self.pressed[i] {
                let k = key_of(i);
                assert(self@.contains(k));
                return false;
            }
            i = i + 1;
        }
        assert(self@ =~= Set::<MoveKey>::empty());
        true
    }

    /// The steps that the held keys make in one frame, in key order.
    pub fn pending_steps(&self) -> (r: Vec<CameraStep>)
        requires
            self.wf(),
        ensures
            r@ == held_steps(self@, MOVE_KEY_COUNT as int),
    {
        let mut r: Vec<CameraStep> = Vec::new();
        let mut i: usize = 0;
        while i < MOVE_KEY_COUNT
            invariant
                i <= MOVE_KEY_COUNT,
                self.wf(),
                r@ == held_steps(self@, i as int),
            decreases MOVE_KEY_COUNT - i,
        {
            let k = key_of(i);
            if self.pressed[i] {
                r.push(step_for(k));
            }
            i = i + 1;
        }
        r
    }
}

} // verus!
