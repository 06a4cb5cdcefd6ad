//! The submarine: gravity, jumps and the idle bob.
//!
//! Velocities are in thousandths of a pixel per frame and angles in
//! millionths of a radian, so that every step is exact integer arithmetic.

use crate::draw::{DrawCommand, SpriteId};
use crate::geometry::Rect;
use crate::state::{GameState, Phase};
use crate::theme::{Color, Theme};
use crate::units::{to_pixels, whole_pixels};
use vstd::prelude::*;

verus! {

/// Downward pull: 0.2 pixels per frame, each frame.
pub const GRAVITY: i32 = 200;

/// Velocity right after a jump: 5 pixels per frame upwards.
pub const JUMP_STRENGTH: i32 = -5000;

/// Largest speed in either direction: 10 pixels per frame.
pub const MAX_VELOCITY: i32 = 10_000;

/// Extent of the submarine on screen and of its hit box.
pub const SUB_WIDTH: u32 = 50;

pub const SUB_HEIGHT: u32 = 45;

/// Advance of the bob per frame: 0.04 radians.
pub const BOB_STEP: i32 = 40_000;

/// A full turn, at which the bob angle wraps.
pub const FULL_TURN: i32 = 6_283_185;

/// The angle that marks a sunk submarine: 180 radians.
pub const CAPSIZED: i32 = 180_000_000;

/// Largest vertical offset of the bob, in pixels.
pub const BOB_AMPLITUDE: i32 = 10;

/// `v` limited to the range from `-MAX_VELOCITY` to `MAX_VELOCITY`.
pub open spec fn clamped(v: int) -> int {
    if v < -MAX_VELOCITY {
        -MAX_VELOCITY as int
    } else if v > MAX_VELOCITY {
        MAX_VELOCITY as int
    } else {
        v
    }
}

/// The player's submarine.
#[derive(Clone, Copy, Debug, PartialEq, Eq)]
pub struct Sub {
    /// Where the submarine starts each run.
    pub initial_x: i32,
    pub initial_y: i32,
    pub x: i32,
    pub y: i32,
    /// Phase of the idle bob, or `CAPSIZED`.
    pub angle: i32,
    /// Vertical velocity, positive downwards.
    pub velocity: i32,
    pub gravity: i32,
    pub jump_strength: i32,
    /// Colour in which the submarine is drawn.
    pub tint: Color,
}

impl Sub {
    /// Validity: the angle is a bob phase or the capsized mark.
    pub open spec fn wf(&self) -> bool {
        0 <= self.angle <= CAPSIZED
    }

    /// Whether a frame of falling keeps `y` representable. Falling below the
    /// window is caught by the floor; this is about rising without end.
    pub open spec fn can_fall(&self) -> bool {
        i32::MIN <= self.y + whole_pixels(self.velocity + self.gravity)
    }

    /// The submarine after a frame of play in a window of the given height:
    /// level, pulled by gravity, moved by the whole pixels of its velocity,
    /// the velocity then limited. On sinking below the window's lower edge it
    /// is put on the edge and stopped.
    pub open spec fn fallen(self, window_height: int) -> Sub {
        let v = self.velocity + self.gravity;
        let y = self.y + whole_pixels(v);
        if y > window_height {
            Sub { angle: 0, y: window_height as i32, velocity: 0, ..self }
        } else {
            Sub { angle: 0, y: y as i32, velocity: clamped(v) as i32, ..self }
        }
    }

    /// The submarine after a frame in the phase of `state`: bobbing on in
    /// pregame, falling during play, capsized once the run is over.
    pub open spec fn updated(self, state: &GameState) -> Sub {
        match state.phase() {
            Phase::Pregame => Sub {
                angle: ((self.angle + BOB_STEP) % (FULL_TURN as int)) as i32,
                ..self
            },
            Phase::Playing => self.fallen(state.window_height as int),
            Phase::GameOver => Sub { angle: CAPSIZED, ..self },
        }
    }

    /// The submarine back at its start: in place, level and at rest.
    pub open spec fn restarted(self) -> Sub {
        Sub { x: self.initial_x, y: self.initial_y, angle: 0, velocity: 0, ..self }
    }

    /// The submarine after `n` frames of play.
    pub open spec fn fallen_n(self, window_height: int, n: nat) -> Sub
        decreases n,
    {
        if n == 0 {
            self
        } else {
            self.fallen_n(window_height, (n - 1) as nat).fallen(window_height)
        }
    }

    /// Whether `bob` can be the vertical offset of the pose: within the
    /// amplitude, and none at all while the submarine is level.
    pub open spec fn admits_bob(&self, bob: i32) -> bool {
        &&& -BOB_AMPLITUDE <= bob <= BOB_AMPLITUDE
        &&& self.angle == 0 ==> bob == 0
        &&& i32::MIN <= self.y + bob <= i32::MAX
    }

    /// The rectangle that the submarine fills when its pose is offset by `bob`.
    pub open spec fn hit_box(&self, bob: i32) -> Rect {
        Rect { x: self.x, y: (self.y + bob) as i32, w: SUB_WIDTH, h: SUB_HEIGHT }
    }

    /// The picture of the submarine when its pose is offset by `bob`: where
    /// its hit box is, tilted by its velocity, one thousandth of a degree
    /// per unit.
    pub open spec fn picture(&self, bob: i32) -> DrawCommand {
        DrawCommand::Sprite {
            sprite: SpriteId::Submarine,
            tint: self.tint,
            dest: self.hit_box(bob),
            rotation: self.velocity,
            flip_h: false,
            flip_v: false,
        }
    }

    /// Whether speeds and positions are in the range that play keeps them
    /// in: no speed beyond the limit, and the submarine at most one frame's
    /// travel above the window.
    pub open spec fn steady(&self) -> bool {
        &&& -MAX_VELOCITY <= self.velocity <= MAX_VELOCITY
        &&& -MAX_VELOCITY <= self.jump_strength <= MAX_VELOCITY
        &&& -MAX_VELOCITY <= self.gravity <= MAX_VELOCITY
        &&& 0 <= self.initial_y
        &&& -2 * whole_pixels(MAX_VELOCITY as int) <= self.y
    }

    /// A submarine that starts at `(x, y)`: level, at rest, with the standard
    /// gravity and jump strength, not tinted.
    pub open spec fn fresh(x: i32, y: i32) -> Sub {
        Sub {
            initial_x: x,
            initial_y: y,
            x,
            y,
            angle: 0,
            velocity: 0,
            gravity: GRAVITY,
            jump_strength: JUMP_STRENGTH,
            tint: (255u8, 255u8, 255u8),
        }
    }

    /// A submarine that starts at `(x, y)`; see `fresh`.
    pub fn new(x: i32, y: i32) -> (s: Self)
        ensures
            s == Sub::fresh(x, y),
            s.wf(),
    {
        Sub {
            initial_x: x,
            initial_y: y,
            x,
            y,
            angle: 0,
            velocity: 0,
            gravity: GRAVITY,
            jump_strength: JUMP_STRENGTH,
            tint: (255, 255, 255),
        }
    }

    /// One frame in the phase of `state`.
    pub fn update(&mut self, state: &GameState)
        requires
            old(self).wf(),
            state.window_height <= i32::MAX,
            state.phase() == Phase::Playing ==> old(self).can_fall(),
        ensures
            *final(self) == old(self).updated(state),
            final(self).wf(),
            state.phase() == Phase::Playing ==> -MAX_VELOCITY <= final(self).velocity
                <= MAX_VELOCITY,
    {
        if !state.game_started && !state.game_over {
            self.angle = (self.angle + BOB_STEP) % FULL_TURN;
        }
        if state.game_over {
            self.angle = CAPSIZED;
        }
        if state.game_started && !state.game_over {
            self.angle = 0;
            let v: i64 = self.velocity as i64 + self.gravity as i64;
            let y: i64 = self.y as i64 + to_pixels(v);
            if y > state.window_height as i64 {
                self.y = state.window_height as i32;
                self.velocity = 0;
            } else {
                self.y = y as i32;
                self.velocity = if v < -(MAX_VELOCITY as i64) {
                    -MAX_VELOCITY
                } else if v > MAX_VELOCITY as i64 {
                    MAX_VELOCITY
                } else {
                    v as i32
                };
            }
        }
    }

    /// A jump: the velocity becomes the jump strength, whatever it was.
    pub fn jump(&mut self)
        ensures
            *final(self) == (Sub { velocity: old(self).jump_strength, ..*old(self) }),
    {
        self.velocity = self.jump_strength;
    }

    /// Takes the submarine colour of `theme`; position and motion stay.
    pub fn switch_theme(&mut self, theme: &Theme)
        ensures
            *final(self) == (Sub { tint: theme.sub, ..*old(self) }),
    {
        self.tint = theme.sub;
    }

    /// Puts the submarine back at its start, level and at rest.
    pub fn reset(&mut self)
        ensures
            *final(self) == old(self).restarted(),
            final(self).wf(),
    {
        self.x = self.initial_x;
        self.y = self.initial_y;
        self.angle = 0;
        self.velocity = 0;
    }

    /// The picture of the submarine; see `picture`.
    pub fn render(&self, bob: i32) -> (cmd: DrawCommand)
        requires
            self.admits_bob(bob),
        ensures
            cmd == self.picture(bob),
    {
        DrawCommand::Sprite {
            sprite: SpriteId::Submarine,
            tint: self.tint,
            dest: Rect::new(self.x, self.y + bob, SUB_WIDTH, SUB_HEIGHT),
            rotation: self.velocity,
            flip_h: false,
            flip_v: false,
        }
    }

    /// The hit box: one rectangle, where the submarine is drawn.
    pub fn get_bounding_boxes(&self, bob: i32) -> (boxes: Vec<Rect>)
        requires
            self.admits_bob(bob),
        ensures
            boxes@ == seq![self.hit_box(bob)],
    {
        let mut boxes: Vec<Rect> = Vec::new();
        boxes.push(Rect::new(self.x, self.y + bob, SUB_WIDTH, SUB_HEIGHT));
        assert(boxes@ =~= seq![self.hit_box(bob)]);
        boxes
    }
}

/// After a frame of play the velocity lies within the limit, whatever it
/// was before and however often gravity has been added.
pub proof fn lemma_velocity_is_clamped(s: Sub, window_height: int, n: nat)
    requires
        n > 0,
    ensures
        -MAX_VELOCITY <= s.fallen_n(window_height, n).velocity <= MAX_VELOCITY,
    decreases n,
{
    let before = s.fallen_n(window_height, (n - 1) as nat);
    assert(s.fallen_n(window_height, n) == before.fallen(window_height));
}

/// Resetting restores the start position and rest, depends on nothing but
/// the start position, and resetting twice is resetting once.
pub proof fn lemma_reset_restores(s: Sub, t: Sub)
    ensures
        s.restarted().x == s.initial_x,
        s.restarted().y == s.initial_y,
        s.restarted().velocity == 0,
        s.restarted().angle == 0,
        s.restarted().restarted() == s.restarted(),
        (Sub { x: t.x, y: t.y, angle: t.angle, velocity: t.velocity, ..s }).restarted()
            == s.restarted(),
{
}

} // verus!
