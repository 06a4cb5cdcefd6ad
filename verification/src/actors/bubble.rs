//! Bubbles: a pool of particles that rise, drift left and pop.
//!
//! Positions and speeds of bubbles are in thousandths of a pixel.

use crate::draw::{DrawCommand, SpriteId, SpriteSizes};
use crate::geometry::Rect;
use crate::rng::random_range;
use crate::state::{GameState, MAX_WINDOW_WIDTH};
use crate::theme::{Color, Theme};
use crate::units::{to_pixels, whole_pixels, SUBPIXELS};
use vstd::prelude::*;

verus! {

/// Bubbles start up to this many pixels beyond the window's right edge.
pub const BUBBLE_OVERHANG: i64 = 300;

/// Lower bound of the draw for the height at which a bubble pops.
pub const POP_DRAW_MIN: i64 = -200;

/// No bubble pops higher than this: it is just above the window.
pub const POP_FLOOR: i64 = -20;

/// Fastest rise of a bubble: 3 pixels per frame.
pub const RISE_MIN: i64 = -3000;

/// Upper bound, exclusive, of the rise: half a pixel per frame.
pub const RISE_MAX: i64 = -500;

/// One bubble.
#[derive(Clone, Copy, Debug, PartialEq, Eq)]
pub struct Bubble {
    pub x: i64,
    pub y: i64,
    /// Height at which the bubble pops.
    pub max_y: i64,
    /// Vertical velocity; negative, since bubbles rise.
    pub velocity_y: i64,
    /// Which of the bubble pictures shows it.
    pub texture_idx: usize,
}

impl Bubble {
    /// Whether the bubble has popped or drifted out at the left.
    pub open spec fn is_finished(self) -> bool {
        self.y < self.max_y || self.x < 0
    }

    /// Validity: the bubble is alive, rises at a regular speed, and lies in
    /// the range that positions of bubbles can take.
    pub open spec fn wf(self) -> bool {
        &&& !self.is_finished()
        &&& self.x <= (i32::MAX as int) * SUBPIXELS
        &&& self.y <= (i32::MAX as int) * SUBPIXELS
        &&& POP_FLOOR * SUBPIXELS <= self.max_y
        &&& RISE_MIN <= self.velocity_y < RISE_MAX
    }

    /// The bubble made from the given draws in a window of height `height`:
    /// it starts `x_px` pixels from the left on the lower window edge and
    /// pops at `pop_px` pixels, or at the floor where that is higher up.
    pub open spec fn spawned(
        x_px: int,
        height: int,
        pop_px: int,
        velocity_y: int,
        texture_idx: usize,
    ) -> Bubble {
        Bubble {
            x: (x_px * SUBPIXELS) as i64,
            y: (height * SUBPIXELS) as i64,
            max_y: ((if pop_px < POP_FLOOR {
                POP_FLOOR as int
            } else {
                pop_px
            }) * SUBPIXELS) as i64,
            velocity_y: velocity_y as i64,
            texture_idx,
        }
    }

    /// Whether the bubble can have come fresh out of `generate` for a window
    /// of the given size and `textures` pictures.
    pub open spec fn fresh(self, width: int, height: int, textures: int) -> bool {
        exists|x_px: int, pop_px: int|
            {
                &&& 0 <= x_px < width + BUBBLE_OVERHANG
                &&& POP_DRAW_MIN <= pop_px < height / 2
                &&& RISE_MIN <= self.velocity_y < RISE_MAX
                &&& self.texture_idx < textures
                &&& self == #[trigger] Bubble::spawned(
                    x_px,
                    height,
                    pop_px,
                    self.velocity_y as int,
                    self.texture_idx,
                )
            }
    }

    /// The bubble after a frame at the given scroll speed: risen and
    /// drifted, or `None` where it has then popped or left the window.
    pub open spec fn stepped(self, speed: int) -> Option<Bubble> {
        let moved = Bubble {
            x: (self.x - speed * SUBPIXELS) as i64,
            y: (self.y + self.velocity_y) as i64,
            ..self
        };
        if moved.is_finished() {
            None
        } else {
            Some(moved)
        }
    }

    /// The picture of the bubble, at the whole pixels of its position.
    pub open spec fn picture(self, tint: Color, sizes: &SpriteSizes) -> DrawCommand {
        DrawCommand::Sprite {
            sprite: SpriteId::Bubble(self.texture_idx),
            tint,
            dest: Rect {
                x: whole_pixels(self.x as int) as i32,
                y: whole_pixels(self.y as int) as i32,
                w: sizes.bubbles@[self.texture_idx as int].w,
                h: sizes.bubbles@[self.texture_idx as int].h,
            },
            rotation: 0,
            flip_h: false,
            flip_v: false,
        }
    }

    pub fn new(x: i64, y: i64, max_y: i64, velocity_y: i64, texture_idx: usize) -> (b: Self)
        ensures
            b == (Bubble { x, y, max_y, velocity_y, texture_idx }),
    {
        Self { x, y, velocity_y, max_y, texture_idx }
    }

    /// The bubble made from the given draws; see `spawned`.
    pub fn from_draws(
        x_px: i32,
        height: i32,
        pop_px: i32,
        velocity_y: i64,
        texture_idx: usize,
    ) -> (b: Self)
        requires
            0 <= x_px,
            0 <= height,
            pop_px < height,
            RISE_MIN <= velocity_y < RISE_MAX,
        ensures
            b == Bubble::spawned(
                x_px as int,
                height as int,
                pop_px as int,
                velocity_y as int,
                texture_idx,
            ),
            b.wf(),
    {
        let max_y: i64 = if (pop_px as i64) < POP_FLOOR {
            POP_FLOOR
        } else {
            pop_px as i64
        };
        Self::new(
            x_px as i64 * SUBPIXELS as i64,
            height as i64 * SUBPIXELS as i64,
            max_y * SUBPIXELS as i64,
            velocity_y,
            texture_idx,
        )
    }

    /// Whether the bubble has popped or drifted out at the left.
    pub fn finished(&self) -> (gone: bool)
        ensures
            gone == self.is_finished(),
    {
        self.y < self.max_y || self.x < 0
    }

    /// Lets the bubble rise by its velocity and drift left by `speed` pixels.
    pub fn update(&mut self, speed: i32)
        requires
            i64::MIN <= old(self).x - speed * SUBPIXELS <= i64::MAX,
            i64::MIN <= old(self).y + old(self).velocity_y <= i64::MAX,
        ensures
            *final(self) == (Bubble {
                x: (old(self).x - speed * SUBPIXELS) as i64,
                y: (old(self).y + old(self).velocity_y) as i64,
                ..*old(self)
            }),
    {
        self.x = self.x - speed as i64 * SUBPIXELS as i64;
        self.y = self.y + self.velocity_y;
    }
}

/// The bubbles of `bubbles` after a frame at the given scroll speed: each
/// risen and drifted, the finished ones dropped, the order kept.
pub open spec fn drifted(bubbles: Seq<Bubble>, speed: int) -> Seq<Bubble> {
    bubbles.filter_map(|b: Bubble| b.stepped(speed))
}

/// How many of `bubbles` finish in a frame at the given scroll speed.
pub open spec fn leaving(bubbles: Seq<Bubble>, speed: int) -> nat {
    bubbles.filter(|b: Bubble| b.stepped(speed).is_none()).len()
}

/// The pool after one update: topped up with `fresh` where it was short of
/// `max_bubbles`, then drifted.
pub open spec fn pool_after(
    bubbles: Seq<Bubble>,
    max_bubbles: int,
    fresh: Bubble,
    speed: int,
) -> Seq<Bubble> {
    drifted(topped_up(bubbles, max_bubbles, fresh), speed)
}

/// The pool with `fresh` added where it was short of `max_bubbles`.
pub open spec fn topped_up(bubbles: Seq<Bubble>, max_bubbles: int, fresh: Bubble) -> Seq<Bubble> {
    if bubbles.len() < max_bubbles {
        bubbles.push(fresh)
    } else {
        bubbles
    }
}

/// A pool of bubbles that is kept topped up to `max_bubbles`.
pub struct Bubbles {
    pub bubbles: Vec<Bubble>,
    /// Size of the pool.
    pub max_bubbles: usize,
    /// Number of bubble pictures to choose from.
    pub texture_count: usize,
    /// Colour in which the bubbles are drawn.
    pub tint: Color,
}

impl Bubbles {
    /// Validity: the pool is not over-full, there is a picture to choose,
    /// and every bubble is valid and shown by one of the pictures.
    pub open spec fn wf(&self) -> bool {
        &&& self.bubbles@.len() <= self.max_bubbles
        &&& 1 <= self.texture_count <= i64::MAX
        &&& forall|i: int|
            0 <= i < self.bubbles@.len() ==> {
                &&& (#[trigger] self.bubbles@[i]).wf()
                &&& self.bubbles@[i].texture_idx < self.texture_count
            }
    }

    /// Whether `self` can be what one frame in `state` makes of `before`:
    /// the pool of `before`, topped up with a fresh bubble where it was
    /// short, then drifted.
    pub open spec fn follows(&self, before: &Bubbles, state: &GameState) -> bool {
        &&& self.max_bubbles == before.max_bubbles
        &&& self.texture_count == before.texture_count
        &&& self.tint == before.tint
        &&& exists|fresh: Bubble|
            {
                &&& #[trigger] fresh.fresh(
                    state.window_width as int,
                    state.window_height as int,
                    before.texture_count as int,
                )
                &&& self.bubbles@ == pool_after(
                    before.bubbles@,
                    before.max_bubbles as int,
                    fresh,
                    state.x_speed as int,
                )
            }
    }

    /// The pictures that show the bubbles, one per bubble, in pool order.
    pub open spec fn frame(&self, sizes: &SpriteSizes) -> Seq<DrawCommand> {
        Seq::new(self.bubbles@.len(), |i: int| self.bubbles@[i].picture(self.tint, sizes))
    }

    /// A full pool of `max_bubbles` fresh bubbles for a window of the given
    /// size, shown by `texture_count` pictures and not tinted.
    pub fn new(max_bubbles: usize, texture_count: usize, w: u32, h: u32) -> (s: Self)
        requires
            1 <= texture_count <= i64::MAX,
            w <= MAX_WINDOW_WIDTH,
            h <= i32::MAX,
        ensures
            s.wf(),
            s.bubbles@.len() == max_bubbles,
            s.max_bubbles == max_bubbles,
            s.texture_count == texture_count,
            s.tint == (255u8, 255u8, 255u8),
            forall|i: int|
                0 <= i < max_bubbles ==> (#[trigger] s.bubbles@[i]).fresh(
                    w as int,
                    h as int,
                    texture_count as int,
                ),
    {
        let mut s = Self { bubbles: Vec::new(), max_bubbles, texture_count, tint: (255, 255, 255) };
        let mut i: usize = 0;
        while i < max_bubbles
            invariant
                i <= max_bubbles,
                s.bubbles@.len() == i,
                s.max_bubbles == max_bubbles,
                s.texture_count == texture_count,
                s.tint == (255u8, 255u8, 255u8),
                1 <= texture_count <= i64::MAX,
                w <= MAX_WINDOW_WIDTH,
                h <= i32::MAX,
                forall|k: int|
                    0 <= k < i ==> {
                        &&& (#[trigger] s.bubbles@[k]).wf()
                        &&& s.bubbles@[k].texture_idx < texture_count
                        &&& s.bubbles@[k].fresh(w as int, h as int, texture_count as int)
                    },
            decreases max_bubbles - i,
        {
            let b = s.generate(w as i32, h as i32);
            s.bubbles.push(b);
            i = i + 1;
        }
        s
    }

    /// A fresh bubble for a window of the given size: somewhere along the
    /// lower edge or up to `BUBBLE_OVERHANG` pixels beyond its right end,
    /// popping somewhere in the upper half, rising at a speed from
    /// `RISE_MIN` up to `RISE_MAX`, shown by any of the pictures.
    pub fn generate(&self, w: i32, h: i32) -> (b: Bubble)
        requires
            0 <= w <= MAX_WINDOW_WIDTH,
            0 <= h,
            1 <= self.texture_count <= i64::MAX,
        ensures
            b.fresh(w as int, h as int, self.texture_count as int),
            b.wf(),
            b.texture_idx < self.texture_count,
    {
        let x = random_range(0, w as i64 + BUBBLE_OVERHANG);
        let pop = random_range(POP_DRAW_MIN, (h / 2) as i64);
        let velocity_y = random_range(RISE_MIN, RISE_MAX);
        let texture_idx = random_range(0, self.texture_count as i64);
        let b = Bubble::from_draws(x as i32, h, pop as i32, velocity_y, texture_idx as usize);
        assert(b == Bubble::spawned(
            x as int,
            h as int,
            pop as int,
            b.velocity_y as int,
            b.texture_idx,
        ));
        b
    }

    /// Adds `fresh` where the pool is short of its size.
    pub fn top_up(&mut self, fresh: Bubble)
        requires
            old(self).wf(),
            fresh.wf(),
            fresh.texture_idx < old(self).texture_count,
        ensures
            final(self).wf(),
            final(self).bubbles@ == topped_up(
                old(self).bubbles@,
                old(self).max_bubbles as int,
                fresh,
            ),
            final(self).max_bubbles == old(self).max_bubbles,
            final(self).texture_count == old(self).texture_count,
            final(self).tint == old(self).tint,
    {
        if self.bubbles.len() < self.max_bubbles {
            self.bubbles.push(fresh);
        }
    }

    /// Lets every bubble rise and drift left by `x_speed` pixels and drops
    /// those that are then finished.
    pub fn drift(&mut self, x_speed: i32)
        requires
            old(self).wf(),
            0 <= x_speed,
        ensures
            final(self).wf(),
            final(self).bubbles@ == drifted(old(self).bubbles@, x_speed as int),
            final(self).max_bubbles == old(self).max_bubbles,
            final(self).texture_count == old(self).texture_count,
            final(self).tint == old(self).tint,
    {
        let ghost before = self.bubbles@;
        let ghost step = |b: Bubble| b.stepped(x_speed as int);
        let n = self.bubbles.len();
        let mut kept: Vec<Bubble> = Vec::new();
        let mut i: usize = 0;
        while i < n
            invariant
                i <= n,
                n == self.bubbles@.len(),
                self.bubbles@ == before,
                0 <= x_speed,
                step == |b: Bubble| b.stepped(x_speed as int),
                kept@ == before.take(i as int).filter_map(step),
                kept@.len() <= i,
                forall|k: int|
                    0 <= k < before.len() ==> {
                        &&& (#[trigger] before[k]).wf()
                        &&& before[k].texture_idx < self.texture_count
                    },
                forall|k: int|
                    0 <= k < kept@.len() ==> {
                        &&& (#[trigger] kept@[k]).wf()
                        &&& kept@[k].texture_idx < self.texture_count
                    },
            decreases n - i,
        {
            let mut b = self.bubbles[i];
            proof {
                before.lemma_filter_map_take_succ(step, i as int);
                assert(before[i as int].wf());
            }
            b.update(x_speed);
            if !b.finished() {
                kept.push(b);
            }
            i = i + 1;
        }
        assert(before.take(n as int) =~= before);
        self.bubbles = kept;
    }

    /// One frame: a pool short of its size gets one fresh bubble; then all
    /// bubbles rise and drift, and the finished ones leave.
    pub fn update(&mut self, state: &GameState)
        requires
            old(self).wf(),
            state.wf(),
        ensures
            final(self).wf(),
            final(self).follows(old(self), state),
    {
        let fresh = self.generate(state.window_width as i32, state.window_height as i32);
        self.top_up(fresh);
        self.drift(state.x_speed);
        assert(fresh.fresh(
            state.window_width as int,
            state.window_height as int,
            old(self).texture_count as int,
        ));
    }

    /// Takes the bubble colour of `theme`; the bubbles stay as they are.
    pub fn switch_theme(&mut self, theme: &Theme)
        ensures
            *final(self) == (Bubbles { tint: theme.bubbles, ..*old(self) }),
    {
        self.tint = theme.bubbles;
    }

    /// Bubbles flow on from run to run: nothing changes.
    pub fn reset(&mut self)
        ensures
            *final(self) == *old(self),
    {
    }

    /// The draw commands for the bubbles; see `frame`.
    pub fn render(&self, sizes: &SpriteSizes) -> (cmds: Vec<DrawCommand>)
        requires
            self.wf(),
            sizes.bubbles@.len() == self.texture_count,
        ensures
            cmds@ == self.frame(sizes),
    {
        let n = self.bubbles.len();
        let mut cmds: Vec<DrawCommand> = Vec::new();
        let mut i: usize = 0;
        while i < n
            invariant
                i <= n,
                n == self.bubbles@.len(),
                self.wf(),
                sizes.bubbles@.len() == self.texture_count,
                cmds@.len() == i,
                forall|k: int|
                    0 <= k < i ==> #[trigger] cmds@[k] == self.bubbles@[k].picture(
                        self.tint,
                        sizes,
                    ),
            decreases n - i,
        {
            let b = self.bubbles[i];
            assert(b.wf() && b.texture_idx < self.texture_count);
            let size = sizes.bubbles[b.texture_idx];
            cmds.push(
                DrawCommand::Sprite {
                    sprite: SpriteId::Bubble(b.texture_idx),
                    tint: self.tint,
                    dest: Rect::new(to_pixels(b.x) as i32, to_pixels(b.y) as i32, size.w, size.h),
                    rotation: 0,
                    flip_h: false,
                    flip_v: false,
                },
            );
            i = i + 1;
        }
        assert(cmds@ =~= self.frame(sizes));
        cmds
    }
}

/// Of the bubbles in a pool, each either stays or leaves in a frame.
pub proof fn lemma_stay_or_leave(bubbles: Seq<Bubble>, speed: int)
    ensures
        drifted(bubbles, speed).len() + leaving(bubbles, speed) == bubbles.len(),
    decreases bubbles.len(),
{
    let leaves = |b: Bubble| b.stepped(speed).is_none();
    reveal(Seq::filter);
    if bubbles.len() > 0 {
        lemma_stay_or_leave(bubbles.drop_last(), speed);
        assert(leaves(bubbles.last()) == bubbles.last().stepped(speed).is_none());
    }
}

/// A pool never holds more than `max_bubbles` bubbles: an update of a pool
/// within its size leaves it within its size.
pub proof fn lemma_pool_stays_within_size(
    bubbles: Seq<Bubble>,
    max_bubbles: int,
    fresh: Bubble,
    speed: int,
)
    requires
        bubbles.len() <= max_bubbles,
    ensures
        pool_after(bubbles, max_bubbles, fresh, speed).len() <= max_bubbles,
{
    lemma_stay_or_leave(topped_up(bubbles, max_bubbles, fresh), speed);
}

/// The size of a pool after an update: one more where it was short, less
/// the bubbles that left in this frame. So a pool from which nothing leaves
/// grows by one per update until it is full.
pub proof fn lemma_pool_size_after(
    bubbles: Seq<Bubble>,
    max_bubbles: int,
    fresh: Bubble,
    speed: int,
)
    ensures
        pool_after(bubbles, max_bubbles, fresh, speed).len() == bubbles.len() + (if bubbles.len()
            < max_bubbles {
            1int
        } else {
            0int
        }) - leaving(topped_up(bubbles, max_bubbles, fresh), speed),
{
    lemma_stay_or_leave(topped_up(bubbles, max_bubbles, fresh), speed);
}

/// While at most one bubble leaves per frame, a pool that is full or one
/// short of it stays full or one short of it.
pub proof fn lemma_pool_stays_nearly_full(
    bubbles: Seq<Bubble>,
    max_bubbles: int,
    fresh: Bubble,
    speed: int,
)
    requires
        max_bubbles - 1 <= bubbles.len() <= max_bubbles,
        leaving(topped_up(bubbles, max_bubbles, fresh), speed) <= 1,
    ensures
        max_bubbles - 1 <= pool_after(bubbles, max_bubbles, fresh, speed).len() <= max_bubbles,
{
    lemma_stay_or_leave(topped_up(bubbles, max_bubbles, fresh), speed);
}

/// A pool that has dropped two short of its size is within one of it again
/// after the next update, if no bubble leaves in that one.
pub proof fn lemma_pool_recovers(bubbles: Seq<Bubble>, max_bubbles: int, fresh: Bubble, speed: int)
    requires
        max_bubbles - 2 <= bubbles.len() <= max_bubbles,
        leaving(topped_up(bubbles, max_bubbles, fresh), speed) == 0,
    ensures
        max_bubbles - 1 <= pool_after(bubbles, max_bubbles, fresh, speed).len(),
{
    lemma_stay_or_leave(topped_up(bubbles, max_bubbles, fresh), speed);
}

} // verus!
