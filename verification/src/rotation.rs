//! Quarter-turn rotations of a shape, and the transform they apply to a
//! tile offset.

use vstd::prelude::*;

verus! {

/// The rotation of the dragged shape, in quarter turns.
#[derive(Clone, Copy, Debug, PartialEq, Eq, Structural)]
pub enum Rotation {
    R0,
    R90,
    R180,
    R270,
}

impl Rotation {
    /// The rotation as degrees: 0, 90, 180 or 270.
    pub open spec fn degrees_spec(self) -> int {
        match self {
            Rotation::R0 => 0,
            Rotation::R90 => 90,
            Rotation::R180 => 180,
            Rotation::R270 => 270,
        }
    }

    /// The rotation as degrees.
    pub fn degrees(&self) -> (d: u32)
        ensures
            d == self.degrees_spec(),
    {
        match self {
            Rotation::R0 => 0,
            Rotation::R90 => 90,
            Rotation::R180 => 180,
            Rotation::R270 => 270,
        }
    }

    /// One quarter turn in the given direction: the new angle is
    /// `(current + 90 * direction + 360) mod 360`, direction 1 or -1.
    pub fn rotate(&self, direction: i32) -> (r: Rotation)
        requires
            direction == 1 || direction == -1,
        ensures
            r.degrees_spec() == (self.degrees_spec() + 90 * direction + 360) % 360,
    {
        if direction == 1 {
            match self {
                Rotation::R0 => Rotation::R90,
                Rotation::R90 => Rotation::R180,
                Rotation::R180 => Rotation::R270,
                Rotation::R270 => Rotation::R0,
            }
        } else {
            match self {
                Rotation::R0 => Rotation::R270,
                Rotation::R90 => Rotation::R0,
                Rotation::R180 => Rotation::R90,
                Rotation::R270 => Rotation::R180,
            }
        }
    }
}

/// The rotation transform on a reference-relative tile offset `(row, col)`:
/// a quarter turn maps `(r, c)` to `(c, -r)`, a half turn to `(-r, -c)`,
/// three quarters to `(-c, r)`.
pub open spec fn rotate_offset_spec(p: (int, int), rot: Rotation) -> (int, int) {
    match rot {
        Rotation::R0 => p,
        Rotation::R90 => (p.1, -p.0),
        Rotation::R180 => (-p.0, -p.1),
        Rotation::R270 => (-p.1, p.0),
    }
}

/// Law: rotation is a group of order four.  Four quarter turns return every
/// tile offset to its original value.
pub proof fn lemma_rotate_four_times_identity(p: (int, int))
    ensures
        rotate_offset_spec(
            rotate_offset_spec(
                rotate_offset_spec(rotate_offset_spec(p, Rotation::R90), Rotation::R90),
                Rotation::R90,
            ),
            Rotation::R90,
        ) == p,
{
}

/// Law: two half turns are the identity on every tile offset.
pub proof fn lemma_rotate_half_turn_twice_identity(p: (int, int))
    ensures
        rotate_offset_spec(rotate_offset_spec(p, Rotation::R180), Rotation::R180) == p,
{
}

/// Composing quarter turns agrees with the rotation state: turning the state
/// once more applies one more quarter turn to every offset.
pub proof fn lemma_rotate_offset_compose(p: (int, int), rot: Rotation)
    ensures
        rotate_offset_spec(rotate_offset_spec(p, rot), Rotation::R90) == rotate_offset_spec(
            p,
            rot.spec_rotate_once(),
        ),
{
}

impl Rotation {
    /// The state after one clockwise quarter turn.
    pub open spec fn spec_rotate_once(self) -> Rotation {
        match self {
            Rotation::R0 => Rotation::R90,
            Rotation::R90 => Rotation::R180,
            Rotation::R180 => Rotation::R270,
            Rotation::R270 => Rotation::R0,
        }
    }
}

} // verus!
