use vstd::prelude::*;

verus! {

/// A key of the keyboard, as far as the controls tell keys apart.
#[derive(Clone, Copy, Debug, PartialEq, Eq, Structural)]
pub enum Key {
    W,
    S,
    A,
    D,
    Up,
    Down,
    Left,
    Right,
    Space,
    LShift,
    /// Any key that drives no movement.
    Other,
}

/// One of the six movement inputs of the player.
#[derive(Clone, Copy, Debug, PartialEq, Eq, Structural)]
pub enum Movement {
    Forward,
    Backward,
    Left,
    Right,
    Up,
    Down,
}

/// The movement input that a key drives, if any: `W`/`Up` forward,
/// `S`/`Down` backward, `A`/`Left` left, `D`/`Right` right, `Space` up and
/// `LShift` down.
pub open spec fn movement_of_key(key: Key) -> Option<Movement> {
    match key {
        Key::W | Key::Up => Some(Movement::Forward),
        Key::S | Key::Down => Some(Movement::Backward),
        Key::A | Key::Left => Some(Movement::Left),
        Key::D | Key::Right => Some(Movement::Right),
        Key::Space => Some(Movement::Up),
        Key::LShift => Some(Movement::Down),
        Key::Other => None,
    }
}

/// The position of a movement input in the six input slots.
pub open spec fn slot_of(m: Movement) -> int {
    match m {
        Movement::Forward => 0,
        Movement::Backward => 1,
        Movement::Left => 2,
        Movement::Right => 3,
        Movement::Up => 4,
        Movement::Down => 5,
    }
}

/// The held inputs after `key` went to state `pressed`.
pub open spec fn apply_key(held: Seq<bool>, key: Key, pressed: bool) -> Seq<bool> {
    match movement_of_key(key) {
        Some(m) => held.update(slot_of(m), pressed),
        None => held,
    }
}

/// The amount of an axis driven by a positive and a negative input:
/// 1, -1, or 0 when both or neither are held.
pub open spec fn axis_amount(positive: bool, negative: bool) -> int {
    (if positive { 1int } else { 0int }) - (if negative { 1int } else { 0int })
}

/// Which movement input a key drives.
pub fn movement_of(key: Key) -> (m: Option<Movement>)
    ensures
        m == movement_of_key(key),
{
    match key {
        Key::W | Key::Up => Some(Movement::Forward),
        Key::S | Key::Down => Some(Movement::Backward),
        Key::A | Key::Left => Some(Movement::Left),
        Key::D | Key::Right => Some(Movement::Right),
        Key::Space => Some(Movement::Up),
        Key::LShift => Some(Movement::Down),
        Key::Other => None,
    }
}

/// The slot of a movement input.
pub fn slot(m: Movement) -> (i: usize)
    ensures
        i == slot_of(m),
        i < 6,
{
    match m {
        Movement::Forward => 0,
        Movement::Backward => 1,
        Movement::Left => 2,
        Movement::Right => 3,
        Movement::Up => 4,
        Movement::Down => 5,
    }
}

/// The state of the six movement inputs: each one is held or released.
#[derive(Clone, Copy, Debug)]
pub struct MoveKeys {
    forward: bool,
    backward: bool,
    left: bool,
    right: bool,
    up: bool,
    down: bool,
}

impl View for MoveKeys {
    type V = Seq<bool>;

    /// The inputs in slot order: forward, backward, left, right, up, down.
    closed spec fn view(&self) -> Seq<bool> {
        seq![self.forward, self.backward, self.left, self.right, self.up, self.down]
    }
}

impl MoveKeys {
    /// All six inputs released.
    pub fn new() -> (k: MoveKeys)
        ensures
            k@ == seq![false, false, false, false, false, false],
    {
        MoveKeys { forward: false, backward: false, left: false, right: false, up: false, down: false }
    }

    /// Whether a movement input is held.
    pub fn is_held(&self, m: Movement) -> (b: bool)
        ensures
            b == self@[slot_of(m)],
    {
        match m {
            Movement::Forward => self.forward,
            Movement::Backward => self.backward,
            Movement::Left => self.left,
            Movement::Right => self.right,
            Movement::Up => self.up,
            Movement::Down => self.down,
        }
    }

    /// Records that `key` was pressed (`pressed`) or released (`!pressed`).
    /// Returns whether the key drives a movement input; only that input
    /// changes, and a key that drives none leaves the state as it was.
    pub fn process_keyboard(&mut self, key: Key, pressed: bool) -> (handled: bool)
        ensures
            handled == movement_of_key(key).is_some(),
            final(self)@ == apply_key(old(self)@, key, pressed),
    {
        match movement_of(key) {
            Some(Movement::Forward) => {
                self.forward = pressed;
                true
            },
            Some(Movement::Backward) => {
                self.backward = pressed;
                true
            },
            Some(Movement::Left) => {
                self.left = pressed;
                true
            },
            Some(Movement::Right) => {
                self.right = pressed;
                true
            },
            Some(Movement::Up) => {
                self.up = pressed;
                true
            },
            Some(Movement::Down) => {
                self.down = pressed;
                true
            },
            None => false,
        }
    }

    /// Forward input minus backward input.
    pub fn forward_amount(&self) -> (a: i8)
        ensures
            a == axis_amount(self@[0], self@[1]),
    {
        (if self.forward { 1i8 } else { 0i8 }) - (if self.backward { 1i8 } else { 0i8 })
    }

    /// Right input minus left input.
    pub fn strafe_amount(&self) -> (a: i8)
        ensures
            a == axis_amount(self@[3], self@[2]),
    {
        (if self.right { 1i8 } else { 0i8 }) - (if self.left { 1i8 } else { 0i8 })
    }

    /// Up input minus down input.
    pub fn vertical_amount(&self) -> (a: i8)
        ensures
            a == axis_amount(self@[4], self@[5]),
    {
        (if self.up { 1i8 } else { 0i8 }) - (if self.down { 1i8 } else { 0i8 })
    }
}


/// There are six movement inputs.
pub proof fn lemma_six_inputs(keys: &MoveKeys)
    ensures
        keys@.len() == 6,
{
}

/// Of two events on the same key, the later one decides: the earlier one
/// leaves no trace.
pub proof fn lemma_last_event_wins(held: Seq<bool>, key: Key, first: bool, second: bool)
    requires
        held.len() == 6,
    ensures
        apply_key(apply_key(held, key, first), key, second) == apply_key(held, key, second),
{
    assert(apply_key(apply_key(held, key, first), key, second) =~= apply_key(held, key, second));
}

/// Repeating an event (such as a key repeat while held) changes nothing.
pub proof fn lemma_repeat_is_idempotent(held: Seq<bool>, key: Key, pressed: bool)
    requires
        held.len() == 6,
    ensures
        apply_key(apply_key(held, key, pressed), key, pressed) == apply_key(held, key, pressed),
{
    lemma_last_event_wins(held, key, pressed, pressed);
}

/// Pressing a key and releasing it again restores the input it drives to
/// released, whatever its state was before.
pub proof fn lemma_press_then_release(held: Seq<bool>, key: Key)
    requires
        held.len() == 6,
        movement_of_key(key) is Some,
    ensures
        !apply_key(apply_key(held, key, true), key, false)[slot_of(movement_of_key(key)->0)],
        apply_key(apply_key(held, key, true), key, false).len() == 6,
{
}

/// Keys that drive the same input (such as `W` and `Up`) act alike.
pub proof fn lemma_alias_keys_agree(held: Seq<bool>, k1: Key, k2: Key, pressed: bool)
    requires
        movement_of_key(k1) == movement_of_key(k2),
    ensures
        apply_key(held, k1, pressed) == apply_key(held, k2, pressed),
{
}

/// Events on keys that drive different inputs commute; so do events that do
/// not conflict on one input.
pub proof fn lemma_events_commute(held: Seq<bool>, k1: Key, p1: bool, k2: Key, p2: bool)
    requires
        held.len() == 6,
        !(movement_of_key(k1) is Some && movement_of_key(k1) == movement_of_key(k2) && p1 != p2),
    ensures
        apply_key(apply_key(held, k1, p1), k2, p2) == apply_key(apply_key(held, k2, p2), k1, p1),
{
    assert(apply_key(apply_key(held, k1, p1), k2, p2) =~= apply_key(apply_key(held, k2, p2), k1, p1));
}

/// An axis amount is -1, 0 or 1, and two opposite inputs held together
/// cancel.
pub proof fn lemma_axis_amount(positive: bool, negative: bool)
    ensures
        -1 <= axis_amount(positive, negative) <= 1,
        positive == negative ==> axis_amount(positive, negative) == 0,
        axis_amount(positive, negative) == 1 <==> (positive && !negative),
        axis_amount(positive, negative) == -1 <==> (!positive && negative),
{
}

} // verus!
