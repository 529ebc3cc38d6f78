use vstd::prelude::*;

verus! {

/// One of the three axes along which the body moves, one at a time.
#[derive(Clone, Copy, Debug, PartialEq, Eq, Structural)]
pub enum Axis {
    X,
    Y,
    Z,
}

/// The component of a three-vector that belongs to an axis.
pub open spec fn index_of_axis(axis: Axis) -> int {
    match axis {
        Axis::X => 0,
        Axis::Y => 1,
        Axis::Z => 2,
    }
}

/// The index of an axis in a three-vector.
pub fn axis_index(axis: Axis) -> (i: usize)
    ensures
        i == index_of_axis(axis),
        i < 3,
{
    match axis {
        Axis::X => 0,
        Axis::Y => 1,
        Axis::Z => 2,
    }
}

/// The unit mask of an axis, handed to a collision query so that only the
/// push along that axis is reported: 1 on the axis, 0 elsewhere.
pub fn axis_mask(axis: Axis) -> (m: (i8, i8, i8))
    ensures
        m.0 == (if axis == Axis::X { 1i8 } else { 0i8 }),
        m.1 == (if axis == Axis::Y { 1i8 } else { 0i8 }),
        m.2 == (if axis == Axis::Z { 1i8 } else { 0i8 }),
{
    match axis {
        Axis::X => (1, 0, 0),
        Axis::Y => (0, 1, 0),
        Axis::Z => (0, 0, 1),
    }
}

/// Whether the body stands on something or is in the air.
#[derive(Clone, Copy, Debug)]
pub struct Footing {
    pub in_air: bool,
}

/// What a non-zero move along one axis does to the footing, once the
/// collision query has answered: a vertical move that hits something lands
/// the body and one that hits nothing leaves it in the air; a horizontal
/// move leaves the footing as it was.
pub open spec fn footing_after(axis: Axis, collided: bool, in_air: bool) -> bool {
    if axis == Axis::Y {
        !collided
    } else {
        in_air
    }
}

/// A jump starts only from the ground, while the jump (up) input is held.
pub open spec fn jump_starts(in_air: bool, jump_held: bool) -> bool {
    !in_air && jump_held
}

impl Footing {
    /// A body starts in the air.
    pub fn new() -> (f: Footing)
        ensures
            f.in_air,
    {
        Footing { in_air: true }
    }

    /// Settles a non-zero move along `axis` whose collision query answered
    /// `collided`. Returns whether the move is stopped: the velocity along
    /// the axis drops to zero and the body is pushed out of what it hit.
    pub fn after_move(&mut self, axis: Axis, collided: bool) -> (stop: bool)
        ensures
            stop == collided,
            final(self).in_air == footing_after(axis, collided, old(self).in_air),
    {
        match axis {
            Axis::Y => {
                self.in_air = !collided;
            },
            _ => {},
        }
        collided
    }

    /// Whether a jump starts now: only from the ground, while the jump
    /// (up) input is held.
    pub fn starts_jump(&self, jump_held: bool) -> (b: bool)
        ensures
            b == jump_starts(self.in_air, jump_held),
    {
        !self.in_air && jump_held
    }
}

/// A jump never starts in the air.
pub proof fn lemma_no_jump_in_air(in_air: bool, jump_held: bool)
    ensures
        in_air ==> !jump_starts(in_air, jump_held),
{
}

/// After a vertical move the body is in the air exactly when the move hit
/// nothing, whatever the footing was before; horizontal moves never change
/// the footing.
pub proof fn lemma_vertical_move_decides_footing(axis: Axis, collided: bool, in_air: bool)
    ensures
        axis == Axis::Y ==> footing_after(axis, collided, in_air) == !collided,
        axis != Axis::Y ==> footing_after(axis, collided, in_air) == in_air,
{
}

/// A landing lasts through any number of horizontal moves: after a vertical
/// move that hit something, moves along X and Z keep the body on the ground,
/// so a jump can start.
pub proof fn lemma_landing_allows_jump(in_air: bool, hx: bool, hz: bool)
    ensures
        ({
            let after_y = footing_after(Axis::Y, true, in_air);
            let after_x = footing_after(Axis::X, hx, after_y);
            let after_z = footing_after(Axis::Z, hz, after_x);
            !after_z && jump_starts(after_z, true)
        }),
{
}

} // verus!
