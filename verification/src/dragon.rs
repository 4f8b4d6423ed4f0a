use vstd::prelude::*;

verus! {

/// The player-controlled entity. It falls under gravity, advances one cell to
/// the right per physics tick, and rises when the player flaps.
///
/// Vertical velocity is held in tenths of a cell per tick, so that the
/// gravity increment (two tenths), the terminal velocity (twenty tenths) and
/// the flap impulse (minus twenty tenths) are all exact integers.
#[derive(Clone, Copy, PartialEq, Eq, Structural, Debug)]
pub struct Dragon {
    pub x: i32,
    pub y: i32,
    pub velocity_tenths: i32,
}

/// Whole cells moved by a velocity of `v` tenths: division by ten rounded
/// toward zero, as truncation of the fractional velocity demands.
pub open spec fn tenths_to_cells(v: int) -> int {
    if v >= 0 {
        v / 10
    } else {
        -((-v) / 10)
    }
}

/// Velocity after one tick of gravity: two tenths faster downward, unless the
/// terminal velocity of twenty tenths has already been reached.
pub open spec fn next_velocity(v: int) -> int {
    if v < 20 {
        v + 2
    } else {
        v
    }
}

/// Vertical position after moving by velocity `v` from row `y`, clamped so the
/// dragon never leaves the field through the top.
pub open spec fn step_y(y: int, v: int) -> int {
    let moved: int = y + tenths_to_cells(v);
    if moved < 0 {
        0
    } else {
        moved
    }
}

/// The dragon one physics tick later: gravity applied to the velocity first,
/// then the vertical move by the new velocity, then one cell to the right.
pub open spec fn advanced(d: Dragon) -> Dragon {
    Dragon {
        x: (d.x + 1) as i32,
        y: step_y(d.y as int, next_velocity(d.velocity_tenths as int)) as i32,
        velocity_tenths: next_velocity(d.velocity_tenths as int) as i32,
    }
}

/// The dragon after a flap: velocity reset to twenty tenths upward, position
/// untouched.
pub open spec fn flapped(d: Dragon) -> Dragon {
    Dragon { velocity_tenths: -20i32, ..d }
}

impl Dragon {
    /// Every velocity the game can produce: a multiple of two tenths between
    /// the flap impulse and the terminal velocity.
    pub open spec fn wf(self) -> bool {
        &&& -20 <= self.velocity_tenths <= 20
        &&& self.velocity_tenths % 2 == 0
    }

    pub fn new(x: i32, y: i32) -> (d: Dragon)
        ensures
            d == (Dragon { x, y, velocity_tenths: 0 }),
            d.wf(),
    {
        Dragon { x, y, velocity_tenths: 0 }
    }

    /// One physics tick: gravity, then the move, then the clamp at the top of
    /// the field.
    pub fn gravity_and_move(&mut self)
        requires
            old(self).wf(),
            old(self).x < i32::MAX,
            i32::MIN + 2 <= old(self).y <= i32::MAX - 2,
        ensures
            *final(self) == advanced(*old(self)),
            final(self).y >= 0,
            final(self).wf(),
            old(self).velocity_tenths < 20 ==> final(self).velocity_tenths
                == old(self).velocity_tenths + 2,
            final(self).velocity_tenths <= 20,
    {
        if self.velocity_tenths < 20 {
            self.velocity_tenths = self.velocity_tenths + 2;
        }
        let v: i32 = self.velocity_tenths;
        let dy: i32 = if v >= 0 {
            ((v as u32) / 10) as i32
        } else {
            -((((-v) as u32) / 10) as i32)
        };
        self.y = self.y + dy;
        self.x = self.x + 1;
        if self.y < 0 {
            self.y = 0;
        }
    }

    /// A flap: the velocity becomes exactly twenty tenths upward, whatever it
    /// was before.
    pub fn flap(&mut self)
        ensures
            *final(self) == flapped(*old(self)),
            final(self).velocity_tenths == -20,
    {
        self.velocity_tenths = -20;
    }
}

/// Gravity never drives the velocity past the terminal cap: from any valid
/// velocity one tick gains exactly two tenths while still below the cap, and
/// once at the cap the velocity stays there forever.
pub proof fn lemma_velocity_capped(d: Dragon)
    requires
        d.wf(),
    ensures
        d.velocity_tenths < 20 ==> next_velocity(d.velocity_tenths as int)
            == d.velocity_tenths + 2,
        next_velocity(d.velocity_tenths as int) <= 20,
        d.velocity_tenths == 20 ==> next_velocity(d.velocity_tenths as int) == 20,
{
}

/// Flapping is idempotent: a second flap leaves the dragon exactly as the
/// first left it.
pub proof fn lemma_flap_idempotent(d: Dragon)
    ensures
        flapped(flapped(d)) == flapped(d),
{
}

/// The clamp keeps the vertical position non-negative whatever the previous
/// position and velocity were.
pub proof fn lemma_step_y_nonnegative(y: int, v: int)
    ensures
        step_y(y, v) >= 0,
{
}

/// While the dragon is falling or level, a physics tick never moves it up:
/// with no flap the vertical position is monotone downward on the screen.
pub proof fn lemma_advance_y_monotone(d: Dragon)
    requires
        d.wf(),
        d.velocity_tenths >= 0,
        0 <= d.y <= i32::MAX - 2,
    ensures
        advanced(d).y >= d.y,
{
}

} // verus!
