use vstd::prelude::*;
use crate::dragon::advanced;
use crate::dragon::flapped;
use crate::dragon::Dragon;
use crate::obstacle::gap_size_for;
use crate::obstacle::Obstacle;
use crate::DRAGON_START_X;
use crate::DRAGON_START_Y;
use crate::FRAME_DURATION_MS;
use crate::GAP_Y_MAX;
use crate::GAP_Y_MIN;
use crate::SCREEN_HEIGHT;
use crate::SCREEN_WIDTH;

verus! {

/// The three modes of the controller; exactly one is active at a time.
#[derive(Clone, Copy, PartialEq, Eq, Structural, Debug)]
pub enum GameMode {
    Menu,
    Playing,
    End,
}

/// The one pressed key the host hands over per tick, already narrowed to the
/// keys the game reacts to; any other key is delivered as no key at all.
#[derive(Clone, Copy, PartialEq, Eq, Structural, Debug)]
pub enum Key {
    P,
    Q,
    Space,
}

/// What a playing tick asks the host to draw, captured at the moment the
/// original drew it: after physics and input, before the obstacle is
/// replaced. The dragon's glyph goes to column zero at `dragon_y`; the
/// obstacle's wall fills column `obstacle_screen_x` on every row before
/// `wall_top_end` and from `wall_bottom_start` to the bottom of the field.
#[derive(Clone, Copy, PartialEq, Eq, Structural, Debug)]
pub struct Frame {
    pub dragon_y: i32,
    pub score: i32,
    pub obstacle_screen_x: i32,
    pub wall_top_end: i32,
    pub wall_bottom_start: i32,
}

/// What one controller tick hands back to the host: whether the player asked
/// to quit, and, when the game was in play, the frame to draw.
#[derive(Clone, Copy, Debug)]
pub struct TickOutput {
    pub quit: bool,
    pub frame: Option<Frame>,
}

/// The dragon as every fresh game starts it: at the fixed starting position,
/// not yet moving.
pub open spec fn start_dragon() -> Dragon {
    Dragon { x: DRAGON_START_X, y: DRAGON_START_Y, velocity_tenths: 0i32 }
}

/// The whole game: one dragon, one live obstacle, the score, the mode, and
/// the frame-time accumulator that gates the physics cadence.
#[derive(Clone, Copy, PartialEq, Eq, Structural, Debug)]
pub struct State {
    pub mode: GameMode,
    pub dragon: Dragon,
    pub frame_time_ms: i32,
    pub obstacle: Obstacle,
    pub score: i32,
}

impl State {
    /// Every state the game can reach: both entities valid, the accumulator
    /// between zero and the physics threshold, the score non-negative, the
    /// dragon inside the field vertically, and the obstacle standing no
    /// further than one screen ahead of the dragon and at most one cell
    /// behind it.
    pub open spec fn wf(self) -> bool {
        &&& self.dragon.wf()
        &&& self.obstacle.wf()
        &&& 0 <= self.frame_time_ms <= FRAME_DURATION_MS
        &&& 0 <= self.score
        &&& 0 <= self.dragon.y
        &&& self.dragon.x <= self.obstacle.x + 1
        &&& self.obstacle.x <= self.dragon.x + SCREEN_WIDTH
    }

    /// A freshly initialized session: the dragon at its starting position,
    /// the score and the accumulator at zero, and the first obstacle one
    /// screen width ahead with the widest gap. The gap center is random, so
    /// only its band is stated.
    pub open spec fn is_reset(self) -> bool {
        &&& self.dragon == start_dragon()
        &&& self.frame_time_ms == 0
        &&& self.score == 0
        &&& self.obstacle.x == SCREEN_WIDTH
        &&& self.obstacle.size == 20
        &&& GAP_Y_MIN <= self.obstacle.gap_y < GAP_Y_MAX
    }
}

/// Whether this tick's accumulated frame time crosses the physics threshold,
/// so that one physics step runs.
pub open spec fn physics_due(pre: State, elapsed_ms: int) -> bool {
    pre.frame_time_ms + elapsed_ms > FRAME_DURATION_MS
}

/// The dragon after this tick's physics: advanced once when the threshold is
/// crossed, untouched otherwise.
pub open spec fn dragon_after_physics(pre: State, elapsed_ms: int) -> Dragon {
    if physics_due(pre, elapsed_ms) {
        advanced(pre.dragon)
    } else {
        pre.dragon
    }
}

/// The dragon after this tick's physics and input: a pressed space bar flaps
/// it, any other input leaves it alone.
pub open spec fn dragon_after_input(pre: State, elapsed_ms: int, key: Option<Key>) -> Dragon {
    let d: Dragon = dragon_after_physics(pre, elapsed_ms);
    if key == Some(Key::Space) {
        flapped(d)
    } else {
        d
    }
}

/// Whether the dragon passes the obstacle this tick: its horizontal position,
/// after physics, stands beyond the obstacle's.
pub open spec fn pass_occurs(pre: State, elapsed_ms: int, key: Option<Key>) -> bool {
    dragon_after_input(pre, elapsed_ms, key).x > pre.obstacle.x
}

/// Everything one playing tick does, as a relation between the state before,
/// the state after, and the frame handed back for drawing. The gap center of
/// a newly spawned obstacle is random, so of it only the band is stated; all
/// other fields are pinned exactly.
pub open spec fn play_step(
    pre: State,
    elapsed_ms: int,
    key: Option<Key>,
    post: State,
    frame: Frame,
) -> bool {
    let d2: Dragon = dragon_after_input(pre, elapsed_ms, key);
    let pass: bool = pass_occurs(pre, elapsed_ms, key);
    let score2: int = if pass {
        pre.score + 1
    } else {
        pre.score as int
    };
    &&& post.dragon == d2
    &&& post.frame_time_ms == (if physics_due(pre, elapsed_ms) {
        0
    } else {
        pre.frame_time_ms + elapsed_ms
    })
    &&& post.score == score2
    &&& pass ==> post.obstacle.x == d2.x + SCREEN_WIDTH
    &&& pass ==> post.obstacle.size == gap_size_for(score2)
    &&& pass ==> GAP_Y_MIN <= post.obstacle.gap_y < GAP_Y_MAX
    &&& !pass ==> post.obstacle == pre.obstacle
    &&& post.mode == (if d2.y > SCREEN_HEIGHT || post.obstacle.hits(d2) {
        GameMode::End
    } else {
        pre.mode
    })
    &&& frame.dragon_y == d2.y
    &&& frame.score == pre.score
    &&& frame.obstacle_screen_x == pre.obstacle.x - d2.x
    &&& frame.wall_top_end == pre.obstacle.gap_top()
    &&& frame.wall_bottom_start == pre.obstacle.gap_bottom()
}

/// Everything one menu or end-screen tick does: the play key starts a fresh
/// session, the quit key asks the host to terminate, anything else changes
/// nothing.
pub open spec fn menu_step(pre: State, key: Option<Key>, post: State, quit: bool) -> bool {
    &&& key == Some(Key::P) ==> post.is_reset() && post.mode == GameMode::Playing && !quit
    &&& key == Some(Key::Q) ==> post == pre && quit
    &&& key != Some(Key::P) && key != Some(Key::Q) ==> post == pre && !quit
}

impl State {
    /// A brand-new game, waiting in the menu.
    pub fn new() -> (s: State)
        ensures
            s.is_reset(),
            s.mode == GameMode::Menu,
            s.wf(),
    {
        State {
            mode: GameMode::Menu,
            dragon: Dragon::new(DRAGON_START_X, DRAGON_START_Y),
            frame_time_ms: 0,
            obstacle: Obstacle::new(SCREEN_WIDTH, 0),
            score: 0,
        }
    }

    /// Full re-initialization into play mode: a fresh dragon at the starting
    /// position, a fresh obstacle one screen ahead, score and accumulator
    /// back to zero.
    pub fn restart(&mut self)
        ensures
            final(self).is_reset(),
            final(self).mode == GameMode::Playing,
            final(self).wf(),
    {
        self.dragon = Dragon::new(DRAGON_START_X, DRAGON_START_Y);
        self.obstacle = Obstacle::new(SCREEN_WIDTH, 0);
        self.frame_time_ms = 0;
        self.score = 0;
        self.mode = GameMode::Playing;
    }

    /// One playing tick: accumulate frame time and run at most one physics
    /// step, flap on a pressed space bar, hand back the frame to draw, then
    /// score and replace a passed obstacle, and finally fall into the end
    /// mode when the dragon leaves the field or hits the wall.
    pub fn play(&mut self, elapsed_ms: i32, key: Option<Key>) -> (frame: Frame)
        requires
            old(self).wf(),
            0 <= elapsed_ms <= i32::MAX - FRAME_DURATION_MS,
            old(self).dragon.x <= i32::MAX - SCREEN_WIDTH - 1,
            old(self).dragon.y <= i32::MAX - 2,
            old(self).score < i32::MAX,
        ensures
            play_step(*old(self), elapsed_ms as int, key, *final(self), frame),
            final(self).wf(),
    {
        self.frame_time_ms = self.frame_time_ms + elapsed_ms;
        if self.frame_time_ms > FRAME_DURATION_MS {
            self.frame_time_ms = 0;
            self.dragon.gravity_and_move();
        }

        if let Some(Key::Space) = key {
            self.dragon.flap();
        }

        let bounds: (i32, i32) = self.obstacle.gap_bounds();
        let frame = Frame {
            dragon_y: self.dragon.y,
            score: self.score,
            obstacle_screen_x: self.obstacle.x - self.dragon.x,
            wall_top_end: bounds.0,
            wall_bottom_start: bounds.1,
        };

        if self.dragon.x > self.obstacle.x {
            self.score = self.score + 1;
            self.obstacle = Obstacle::new(self.dragon.x + SCREEN_WIDTH, self.score);
        }

        if self.dragon.y > SCREEN_HEIGHT || self.obstacle.hit_obstacle(&self.dragon) {
            self.mode = GameMode::End;
        }

        frame
    }

    /// One menu tick's input handling: the play key starts a session, the
    /// quit key requests termination, anything else waits.
    pub fn main_menu(&mut self, key: Option<Key>) -> (quit: bool)
        ensures
            menu_step(*old(self), key, *final(self), quit),
            old(self).wf() ==> final(self).wf(),
    {
        match key {
            Some(Key::P) => {
                self.restart();
                false
            },
            Some(Key::Q) => true,
            _ => false,
        }
    }

    /// One end-screen tick's input handling: the play key restarts a session,
    /// the quit key requests termination, anything else waits.
    pub fn dead(&mut self, key: Option<Key>) -> (quit: bool)
        ensures
            menu_step(*old(self), key, *final(self), quit),
            old(self).wf() ==> final(self).wf(),
    {
        match key {
            Some(Key::P) => {
                self.restart();
                false
            },
            Some(Key::Q) => true,
            _ => false,
        }
    }

    /// One host tick: dispatch on the current mode. In the menu and on the
    /// end screen only input is handled and nothing is drawn by the game
    /// itself; in play mode the full playing tick runs and its frame comes
    /// back for drawing.
    pub fn tick(&mut self, elapsed_ms: i32, key: Option<Key>) -> (out: TickOutput)
        requires
            old(self).wf(),
            0 <= elapsed_ms <= i32::MAX - FRAME_DURATION_MS,
            old(self).dragon.x <= i32::MAX - SCREEN_WIDTH - 1,
            old(self).dragon.y <= i32::MAX - 2,
            old(self).score < i32::MAX,
        ensures
            final(self).wf(),
            old(self).mode == GameMode::Menu || old(self).mode == GameMode::End ==> menu_step(
                *old(self),
                key,
                *final(self),
                out.quit,
            ) && out.frame is None,
            old(self).mode == GameMode::Playing ==> !out.quit && (out.frame matches Some(f)
                && play_step(*old(self), elapsed_ms as int, key, *final(self), f)),
    {
        match self.mode {
            GameMode::Menu => {
                let quit: bool = self.main_menu(key);
                TickOutput { quit, frame: None }
            },
            GameMode::Playing => {
                let frame: Frame = self.play(elapsed_ms, key);
                TickOutput { quit: false, frame: Some(frame) }
            },
            GameMode::End => {
                let quit: bool = self.dead(key);
                TickOutput { quit, frame: None }
            },
        }
    }
}

/// Passing is scored exactly once: the tick in which the dragon first stands
/// beyond the obstacle adds one point and installs a new obstacle one full
/// screen width ahead, so the dragon is behind it again and the same pass
/// cannot be counted a second time; a tick without a pass changes neither
/// the score nor the obstacle.
pub proof fn lemma_pass_scoring(
    pre: State,
    elapsed_ms: int,
    key: Option<Key>,
    post: State,
    frame: Frame,
)
    requires
        play_step(pre, elapsed_ms, key, post, frame),
    ensures
        pass_occurs(pre, elapsed_ms, key) ==> post.score == pre.score + 1,
        pass_occurs(pre, elapsed_ms, key) ==> post.obstacle.x == post.dragon.x + SCREEN_WIDTH,
        pass_occurs(pre, elapsed_ms, key) ==> post.dragon.x < post.obstacle.x,
        !pass_occurs(pre, elapsed_ms, key) ==> post.score == pre.score && post.obstacle
            == pre.obstacle,
{
}

} // verus!
