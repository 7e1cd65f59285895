//! Keys, the intents they stand for, and the motion that the intents ask of
//! the camera on one tick.

use vstd::prelude::*;

verus! {

/// The keys that the scene responds to. Every other key is `Other`.
#[derive(Debug, Clone, Copy, PartialEq, Eq, Structural)]
pub enum Key {
    KeyW,
    KeyS,
    KeyA,
    KeyD,
    Space,
    ShiftLeft,
    ShiftRight,
    ArrowLeft,
    ArrowRight,
    ArrowUp,
    ArrowDown,
    Digit1,
    Digit2,
    Digit3,
    Digit4,
    Digit5,
    Digit6,
    Digit7,
    Other,
}

/// Which movements and rotations are being asked for: one flag per held key.
#[derive(Debug, Clone, Copy, PartialEq, Eq, Structural)]
pub struct Intents {
    pub move_forward: bool,
    pub move_backward: bool,
    pub move_left: bool,
    pub move_right: bool,
    pub move_up: bool,
    pub move_down: bool,
    pub rotate_left: bool,
    pub rotate_right: bool,
    pub rotate_up: bool,
    pub rotate_down: bool,
}

/// Radians of rotation input per second of a held rotation key; with time in
/// nanoseconds, nanoradians per nanosecond.
pub const TURN_RATE: i128 = 2;

/// What the held keys ask of the free-flying camera on one tick of `dt`
/// nanoseconds.
///
/// `forward`, `right` and `up` are the net movement along the camera's
/// forward vector, its right vector and the world's up axis: 1, 0 or -1
/// times the camera's speed for `dt`. `delta_yaw` and `delta_pitch` are the
/// rotation inputs in nanoradians, before the camera's sensitivity.
#[derive(Debug, Clone, Copy, PartialEq, Eq, Structural)]
pub struct MotionPlan {
    pub dt: u64,
    pub forward: i8,
    pub right: i8,
    pub up: i8,
    pub delta_yaw: i128,
    pub delta_pitch: i128,
}

/// One held key against its opposite: `amount` for the one, as much back for
/// the other, so nothing when both or neither are held.
pub open spec fn net(positive: bool, negative: bool, amount: int) -> int {
    (if positive { amount } else { 0 }) - (if negative { amount } else { 0 })
}

impl MotionPlan {
    /// Whether the camera is to rotate at all. A camera that is not asked to
    /// rotate keeps its pitch even where it lies outside the range that
    /// rotating clamps it to.
    pub open spec fn rotates_spec(self) -> bool {
        self.delta_yaw != 0 || self.delta_pitch != 0
    }

    /// Whether the camera is to rotate at all.
    pub fn rotates(&self) -> (rotates: bool)
        ensures
            rotates == self.rotates_spec(),
    {
        self.delta_yaw != 0 || self.delta_pitch != 0
    }
}

impl Intents {
    /// No key held.
    pub open spec fn none() -> Intents {
        Intents {
            move_forward: false,
            move_backward: false,
            move_left: false,
            move_right: false,
            move_up: false,
            move_down: false,
            rotate_left: false,
            rotate_right: false,
            rotate_up: false,
            rotate_down: false,
        }
    }

    /// The intents after `key` went down (`pressed`) or up. The digit keys
    /// and the keys without a meaning hold no intent.
    pub open spec fn with_key(self, key: Key, pressed: bool) -> Intents {
        match key {
            Key::KeyW => Intents { move_forward: pressed, ..self },
            Key::KeyS => Intents { move_backward: pressed, ..self },
            Key::KeyA => Intents { move_left: pressed, ..self },
            Key::KeyD => Intents { move_right: pressed, ..self },
            Key::Space => Intents { move_up: pressed, ..self },
            Key::ShiftLeft | Key::ShiftRight => Intents { move_down: pressed, ..self },
            Key::ArrowLeft => Intents { rotate_left: pressed, ..self },
            Key::ArrowRight => Intents { rotate_right: pressed, ..self },
            Key::ArrowUp => Intents { rotate_up: pressed, ..self },
            Key::ArrowDown => Intents { rotate_down: pressed, ..self },
            _ => self,
        }
    }

    /// The motion asked for over `dt` nanoseconds. Opposite keys held
    /// together cancel.
    pub open spec fn motion_spec(self, dt: u64) -> MotionPlan {
        MotionPlan {
            dt,
            forward: net(self.move_forward, self.move_backward, 1) as i8,
            right: net(self.move_right, self.move_left, 1) as i8,
            up: net(self.move_up, self.move_down, 1) as i8,
            delta_yaw: net(self.rotate_right, self.rotate_left, TURN_RATE * dt) as i128,
            delta_pitch: net(self.rotate_up, self.rotate_down, TURN_RATE * dt) as i128,
        }
    }

    /// No key held.
    pub fn new() -> (intents: Intents)
        ensures
            intents == Intents::none(),
    {
        Intents {
            move_forward: false,
            move_backward: false,
            move_left: false,
            move_right: false,
            move_up: false,
            move_down: false,
            rotate_left: false,
            rotate_right: false,
            rotate_up: false,
            rotate_down: false,
        }
    }

    /// Records that `key` went down (`pressed`) or up.
    pub fn input(&mut self, key: Key, pressed: bool)
        ensures
            *final(self) == old(self).with_key(key, pressed),
    {
        let held = *self;
        *self = match key {
            Key::KeyW => Intents { move_forward: pressed, ..held },
            Key::KeyS => Intents { move_backward: pressed, ..held },
            Key::KeyA => Intents { move_left: pressed, ..held },
            Key::KeyD => Intents { move_right: pressed, ..held },
            Key::Space => Intents { move_up: pressed, ..held },
            Key::ShiftLeft | Key::ShiftRight => Intents { move_down: pressed, ..held },
            Key::ArrowLeft => Intents { rotate_left: pressed, ..held },
            Key::ArrowRight => Intents { rotate_right: pressed, ..held },
            Key::ArrowUp => Intents { rotate_up: pressed, ..held },
            Key::ArrowDown => Intents { rotate_down: pressed, ..held },
            _ => held,
        };
    }

    /// The motion that the held keys ask of the camera over `dt`
    /// nanoseconds.
    pub fn update_camera(&self, dt: u64) -> (plan: MotionPlan)
        ensures
            plan == self.motion_spec(dt),
    {
        let mut forward: i8 = 0;
        let mut right: i8 = 0;
        let mut up: i8 = 0;
        if self.move_forward {
            forward += 1;
        }
        if self.move_backward {
            forward -= 1;
        }
        if self.move_left {
            right -= 1;
        }
        if self.move_right {
            right += 1;
        }
        if self.move_up {
            up += 1;
        }
        if self.move_down {
            up -= 1;
        }
        let turn: i128 = TURN_RATE * (dt as i128);
        let mut delta_yaw: i128 = 0;
        let mut delta_pitch: i128 = 0;
        if self.rotate_left {
            delta_yaw -= turn;
        }
        if self.rotate_right {
            delta_yaw += turn;
        }
        if self.rotate_up {
            delta_pitch += turn;
        }
        if self.rotate_down {
            delta_pitch -= turn;
        }
        MotionPlan { dt, forward, right, up, delta_yaw, delta_pitch }
    }
}

/// How many keys ask for a viewpoint.
pub const WARP_KEY_COUNT: usize = 7;

/// The viewpoint whose key `key` is: the digit keys stand for the viewpoints
/// in order.
pub open spec fn warp_index(key: Key) -> Option<usize> {
    match key {
        Key::Digit1 => Some(0usize),
        Key::Digit2 => Some(1usize),
        Key::Digit3 => Some(2usize),
        Key::Digit4 => Some(3usize),
        Key::Digit5 => Some(4usize),
        Key::Digit6 => Some(5usize),
        Key::Digit7 => Some(6usize),
        _ => None,
    }
}

/// The viewpoint that a key event asks for, given which viewpoint keys were
/// down before it: a viewpoint key asks once, when it goes down. While it
/// stays down its repeats ask for nothing, nor does its going up.
pub open spec fn warp_request(key: Key, pressed: bool, held: Seq<bool>) -> Option<usize> {
    match warp_index(key) {
        Some(index) => if pressed && !held[index as int] {
            Some(index)
        } else {
            None
        },
        None => None,
    }
}

/// Which viewpoint keys are down after a key event.
pub open spec fn held_after(key: Key, pressed: bool, held: Seq<bool>) -> Seq<bool> {
    match warp_index(key) {
        Some(index) => held.update(index as int, pressed),
        None => held,
    }
}

/// The viewpoint, if any, whose key `key` is.
pub fn warp_key(key: Key) -> (index: Option<usize>)
    ensures
        index == warp_index(key),
        index matches Some(i) ==> i < WARP_KEY_COUNT,
{
    match key {
        Key::Digit1 => Some(0),
        Key::Digit2 => Some(1),
        Key::Digit3 => Some(2),
        Key::Digit4 => Some(3),
        Key::Digit5 => Some(4),
        Key::Digit6 => Some(5),
        Key::Digit7 => Some(6),
        _ => None,
    }
}

/// Which of the viewpoint keys are down.
pub struct WarpKeys {
    held: Vec<bool>,
}

impl View for WarpKeys {
    type V = Seq<bool>;

    closed spec fn view(&self) -> Seq<bool> {
        self.held@
    }
}

impl WarpKeys {
    /// There is one flag for each viewpoint key.
    pub open spec fn wf(&self) -> bool {
        self@.len() == WARP_KEY_COUNT
    }

    /// No viewpoint key down.
    pub fn new() -> (keys: WarpKeys)
        ensures
            keys.wf(),
            keys@ == Seq::new(WARP_KEY_COUNT as nat, |i: int| false),
    {
        let mut held: Vec<bool> = Vec::new();
        while held.len() < WARP_KEY_COUNT
            invariant
                held.len() <= WARP_KEY_COUNT,
                held@ == Seq::new(held.len() as nat, |i: int| false),
            decreases WARP_KEY_COUNT - held.len(),
        {
            held.push(false);
            assert(held@ =~= Seq::new(held.len() as nat, |i: int| false));
        }
        WarpKeys { held }
    }

    /// Whether the key of viewpoint `index` is down.
    pub fn is_held(&self, index: usize) -> (held: bool)
        requires
            self.wf(),
            index < WARP_KEY_COUNT,
        ensures
            held == self@[index as int],
    {
        self.held[index]
    }

    /// Takes a key going down (`pressed`) or up, and returns the viewpoint
    /// that the event asks for.
    pub fn input(&mut self, key: Key, pressed: bool) -> (asked: Option<usize>)
        requires
            old(self).wf(),
        ensures
            final(self).wf(),
            final(self)@ == held_after(key, pressed, old(self)@),
            asked == warp_request(key, pressed, old(self)@),
    {
        match warp_key(key) {
            Some(index) => {
                let was_held = self.held[index];
                self.held.set(index, pressed);
                if pressed && !was_held {
                    Some(index)
                } else {
                    None
                }
            },
            None => None,
        }
    }
}

/// A key changes at most the one intent it stands for, and pressing then
/// releasing it leaves that intent off whatever went before. The viewpoint
/// keys hold no intent.
pub proof fn lemma_release_clears_intent(intents: Intents, key: Key)
    ensures
        intents.with_key(key, true).with_key(key, false) == intents.with_key(key, false),
        warp_index(key) is Some ==> intents.with_key(key, true) == intents,
{
}

/// A viewpoint key asks once each time it goes down: the event that follows
/// its going down asks for nothing unless the key went up in between.
pub proof fn lemma_warp_key_fires_once(key: Key, held: Seq<bool>, again: bool)
    requires
        held.len() == WARP_KEY_COUNT,
    ensures
        warp_request(key, again, held_after(key, true, held)) is None,
        warp_index(key) is Some ==> warp_request(key, true, held_after(key, false, held))
            == warp_index(key),
{
}

} // verus!
