use vstd::prelude::*;
use bracket_lib::random::RandomNumberGenerator;
use crate::dragon::Dragon;
use crate::rng::rng_new;
use crate::rng::rng_range;
use crate::GAP_Y_MAX;
use crate::GAP_Y_MIN;

verus! {

/// One wall with a gap, standing at a horizontal position in the same
/// coordinate space as the dragon's. The gap is centered at `gap_y` and spans
/// `size` rows; the wall fills every other row of the field.
#[derive(Clone, Copy, PartialEq, Eq, Structural, Debug)]
pub struct Obstacle {
    pub x: i32,
    pub gap_y: i32,
    pub size: i32,
}

/// The gap size the difficulty rule assigns at a given score: twenty rows at
/// the start, one fewer per point, never below two.
pub open spec fn gap_size_for(score: int) -> int {
    if 20 - score > 2 {
        20 - score
    } else {
        2
    }
}

impl Obstacle {
    /// Every obstacle the game can produce: the gap is centered inside the
    /// fixed vertical band and its size follows the difficulty rule for some
    /// non-negative score.
    pub open spec fn wf(self) -> bool {
        &&& 2 <= self.size <= 20
        &&& GAP_Y_MIN <= self.gap_y < GAP_Y_MAX
    }

    /// First row (exclusive) below the top wall segment: rows `0..gap_top()`
    /// are wall.
    pub open spec fn gap_top(self) -> int {
        self.gap_y - self.size / 2
    }

    /// First row (inclusive) of the bottom wall segment: rows from
    /// `gap_bottom()` down to the bottom of the field are wall.
    pub open spec fn gap_bottom(self) -> int {
        self.gap_y + self.size / 2
    }

    /// The collision rule: the dragon hits the obstacle exactly when it stands
    /// in the obstacle's column and outside the gap.
    pub open spec fn hits(self, dragon: Dragon) -> bool {
        &&& self.x == dragon.x
        &&& (dragon.y < self.gap_top() || dragon.y > self.gap_bottom())
    }

    /// A fresh obstacle at position `x` for the given score: the gap center is
    /// drawn at random from the fixed band, the gap size follows the
    /// difficulty rule exactly.
    pub fn new(x: i32, score: i32) -> (o: Obstacle)
        requires
            0 <= score,
        ensures
            o.x == x,
            o.size == gap_size_for(score as int),
            GAP_Y_MIN <= o.gap_y < GAP_Y_MAX,
            o.wf(),
    {
        let mut random: RandomNumberGenerator = rng_new();
        let gap_y: i32 = rng_range(&mut random, GAP_Y_MIN, GAP_Y_MAX);
        let size: i32 = if 20 - score > 2 {
            20 - score
        } else {
            2
        };
        Obstacle { x, gap_y, size }
    }

    /// The boundary rows of the gap, for drawing the two wall segments: the
    /// top wall covers the rows before the first value, the bottom wall the
    /// rows from the second value on.
    pub fn gap_bounds(&self) -> (b: (i32, i32))
        requires
            self.wf(),
        ensures
            b.0 == self.gap_top(),
            b.1 == self.gap_bottom(),
    {
        let half: i32 = ((self.size as u32) / 2) as i32;
        (self.gap_y - half, self.gap_y + half)
    }

    /// Whether the dragon has hit this obstacle: a single-instant check in the
    /// obstacle's own column, true exactly when the dragon sits above or below
    /// the gap there.
    pub fn hit_obstacle(&self, dragon: &Dragon) -> (r: bool)
        requires
            self.wf(),
        ensures
            r == self.hits(*dragon),
    {
        let x_matching: bool = self.x == dragon.x;
        let half: i32 = ((self.size as u32) / 2) as i32;
        let y_top_matching: bool = dragon.y < self.gap_y - half;
        let y_bottom_matching: bool = dragon.y > self.gap_y + half;
        x_matching && (y_top_matching || y_bottom_matching)
    }
}

/// The difficulty rule never opens the gap past its floor: for every score the
/// size is at least two, and past a score of eighteen it stays exactly two.
pub proof fn lemma_gap_size_floor(score: int)
    ensures
        gap_size_for(score) >= 2,
        score >= 18 ==> gap_size_for(score) == 2,
        score <= 18 ==> gap_size_for(score) == 20 - score,
{
}

} // verus!
