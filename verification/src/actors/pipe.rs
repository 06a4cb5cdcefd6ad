//! Obstacles: pairs of pipes with a gap between them, scrolling leftwards.

use crate::draw::{DrawCommand, Size, SpriteId, SpriteSizes};
use crate::geometry::Rect;
use crate::rng::random_range;
use crate::state::{GameState, MIN_WINDOW_HEIGHT};
use crate::theme::{Color, Theme};
use vstd::prelude::*;

verus! {

/// Width at which a pipe body is drawn.
pub const PIPE_WIDTH: u32 = 50;

/// A pipe is dropped once its left edge is further left than this.
pub const PIPE_GONE_X: i32 = -50;

/// Free space kept between a gap and the upper and lower window edge.
pub const GAP_MARGIN: u32 = 50;

/// Smallest height of a gap.
pub const GAP_MIN: u32 = 150;

/// Upper bound, exclusive, on the height of a gap.
pub const GAP_MAX: u32 = 250;

/// Smallest number of frames between two pipes.
pub const SPAWN_DELAY_MIN: i64 = 75;

/// Upper bound, exclusive, on the number of frames between two pipes.
pub const SPAWN_DELAY_MAX: i64 = 200;

/// How far a hit box sticks out to the left of its pipe.
pub const HITBOX_PAD: i32 = 5;

/// Width of a hit box: the pipe and the padding on both sides.
pub const HITBOX_WIDTH: u32 = 60;

/// How far the upper hit box reaches below the gap's upper edge, where the
/// cap of the upper pipe hangs.
pub const HITBOX_CAP: u32 = 20;

/// Height of the lower hit box.
pub const HITBOX_DEPTH: u32 = 600;

/// One obstacle. The upper pipe hangs from the top of the window down to
/// `top_offset`; the lower one stands from `bottom_offset` downwards.
#[derive(Clone, Copy, Debug, PartialEq, Eq)]
pub struct Pipe {
    /// Left edge of the pipe.
    pub x: i32,
    /// Lower edge of the upper pipe.
    pub top_offset: i32,
    /// Upper edge of the lower pipe.
    pub bottom_offset: i32,
}

impl Pipe {
    /// Height of the gap.
    pub open spec fn gap(self) -> int {
        self.bottom_offset - self.top_offset
    }

    /// Whether the pipe has scrolled out of sight.
    pub open spec fn is_finished(self) -> bool {
        self.x < PIPE_GONE_X
    }

    /// The gap does not lie above the window's top edge and is not upside down.
    pub open spec fn well_shaped(self) -> bool {
        0 <= self.top_offset <= self.bottom_offset
    }

    /// The gap has a regular height and lies inside a window of the given
    /// height, clear of both edges by the margin.
    pub open spec fn fits(self, window_height: int) -> bool {
        &&& GAP_MARGIN <= self.top_offset
        &&& self.bottom_offset <= window_height - GAP_MARGIN
        &&& GAP_MIN <= self.gap() < GAP_MAX
    }

    /// The pipe after a frame at the given scroll speed: moved left, or
    /// `None` where that takes it out of sight.
    pub open spec fn stepped(self, speed: int) -> Option<Pipe> {
        if self.x - speed < PIPE_GONE_X {
            None
        } else {
            Some(Pipe { x: (self.x - speed) as i32, ..self })
        }
    }

    pub fn new(x: i32, top_offset: i32, bottom_offset: i32) -> (p: Self)
        ensures
            p == (Pipe { x, top_offset, bottom_offset }),
    {
        Self { x, top_offset, bottom_offset }
    }

    /// The pipe at `x` whose gap starts at `hole_offset` and is `hole_size` high.
    pub fn from_hole(x: i32, hole_offset: u32, hole_size: u32) -> (p: Self)
        requires
            hole_offset + hole_size <= i32::MAX,
        ensures
            p == (Pipe {
                x,
                top_offset: hole_offset as i32,
                bottom_offset: (hole_offset + hole_size) as i32,
            }),
            p.well_shaped(),
            p.gap() == hole_size,
    {
        Self::new(x, hole_offset as i32, (hole_offset + hole_size) as i32)
    }

    /// Whether the pipe has scrolled out of sight.
    pub fn finished(&self) -> (gone: bool)
        ensures
            gone == self.is_finished(),
    {
        self.x < PIPE_GONE_X
    }

    /// Moves the pipe left by `speed` pixels.
    pub fn update(&mut self, speed: i32)
        requires
            i32::MIN <= old(self).x - speed <= i32::MAX,
        ensures
            *final(self) == (Pipe { x: (old(self).x - speed) as i32, ..*old(self) }),
    {
        self.x = self.x - speed;
    }

    /// The two rectangles that the submarine must not touch: the upper pipe
    /// with its cap, and the lower pipe.
    pub open spec fn hit_boxes(self) -> Seq<Rect> {
        seq![
            Rect {
                x: (self.x - HITBOX_PAD) as i32,
                y: 0,
                w: HITBOX_WIDTH,
                h: (self.top_offset + HITBOX_CAP) as u32,
            },
            Rect {
                x: (self.x - HITBOX_PAD) as i32,
                y: self.bottom_offset,
                w: HITBOX_WIDTH,
                h: HITBOX_DEPTH,
            },
        ]
    }

    /// The four pictures that show the obstacle, back to front: the upper
    /// body and its cap, both mirrored top to bottom, then the lower body and
    /// its cap. A cap is drawn 20 pixels narrower and 10 lower than its
    /// picture; the lower body ends 50 pixels below the height of its picture.
    pub open spec fn pictures(self, tint: Color, body: Size, cap: Size) -> Seq<DrawCommand> {
        let cap_w = (cap.w - 20) as u32;
        let cap_h = (cap.h - 10) as u32;
        seq![
            DrawCommand::Sprite {
                sprite: SpriteId::PipeBody,
                tint,
                dest: Rect { x: self.x, y: 0, w: PIPE_WIDTH, h: self.top_offset as u32 },
                rotation: 0,
                flip_h: false,
                flip_v: true,
            },
            DrawCommand::Sprite {
                sprite: SpriteId::PipeCap,
                tint,
                dest: Rect {
                    x: (self.x - 7) as i32,
                    y: (self.top_offset - 10) as i32,
                    w: cap_w,
                    h: cap_h,
                },
                rotation: 0,
                flip_h: false,
                flip_v: true,
            },
            DrawCommand::Sprite {
                sprite: SpriteId::PipeBody,
                tint,
                dest: Rect {
                    x: self.x,
                    y: self.bottom_offset,
                    w: PIPE_WIDTH,
                    h: (body.h + 50 - self.bottom_offset) as u32,
                },
                rotation: 0,
                flip_h: false,
                flip_v: false,
            },
            DrawCommand::Sprite {
                sprite: SpriteId::PipeCap,
                tint,
                dest: Rect { x: (self.x - 7) as i32, y: self.bottom_offset, w: cap_w, h: cap_h },
                rotation: 0,
                flip_h: false,
                flip_v: false,
            },
        ]
    }
}

/// The pipes of `pipes` after a frame at the given scroll speed: each moved
/// left, those out of sight dropped, the order kept.
pub open spec fn scrolled(pipes: Seq<Pipe>, speed: int) -> Seq<Pipe> {
    pipes.filter_map(|p: Pipe| p.stepped(speed))
}

/// The obstacles on screen, oldest first, and the schedule of the next one.
pub struct Pipes {
    pub pipes: Vec<Pipe>,
    /// A pipe is due in the first frame whose number exceeds this.
    pub next_pipe_at: i64,
    /// Colour in which the pipes are drawn.
    pub tint: Color,
}

impl Pipes {
    /// Validity: every pipe is well shaped and none is out of sight.
    pub open spec fn wf(&self) -> bool {
        forall|i: int|
            0 <= i < self.pipes@.len() ==> {
                &&& (#[trigger] self.pipes@[i]).well_shaped()
                &&& !self.pipes@[i].is_finished()
            }
    }

    /// Whether a pipe is due in the frame that `state` counts.
    pub open spec fn spawn_due(&self, state: &GameState) -> bool {
        state.fc > self.next_pipe_at
    }

    /// Whether the pictures of the given sizes can show every pipe: the cap
    /// picture is large enough to be trimmed, and the body picture, drawn 50
    /// pixels lower, reaches down to every gap.
    pub open spec fn drawable(&self, sizes: &SpriteSizes) -> bool {
        &&& sizes.pipe_cap.w >= 20
        &&& sizes.pipe_cap.h >= 10
        &&& sizes.pipe_body.h + 50 <= u32::MAX
        &&& forall|i: int|
            0 <= i < self.pipes@.len() ==> (#[trigger] self.pipes@[i]).bottom_offset
                <= sizes.pipe_body.h + 50
    }

    /// Whether `self` can be what one frame in `state` makes of `before`:
    /// where no pipe was due, the pipes of `before` scrolled on; where one
    /// was, they and a new pipe at the window's right edge, whose gap fits
    /// the window, scrolled on, with the next pipe scheduled
    /// `SPAWN_DELAY_MIN` up to `SPAWN_DELAY_MAX` frames ahead.
    pub open spec fn follows(&self, before: &Pipes, state: &GameState) -> bool {
        &&& self.tint == before.tint
        &&& !before.spawn_due(state) ==> {
            &&& self.pipes@ == scrolled(before.pipes@, state.x_speed as int)
            &&& self.next_pipe_at == before.next_pipe_at
        }
        &&& before.spawn_due(state) ==> {
            &&& SPAWN_DELAY_MIN <= self.next_pipe_at - state.fc < SPAWN_DELAY_MAX
            &&& exists|p: Pipe|
                {
                    &&& #[trigger] p.fits(state.window_height as int)
                    &&& p.x == state.window_width
                    &&& self.pipes@ == scrolled(before.pipes@.push(p), state.x_speed as int)
                }
        }
    }

    /// The pictures that show the pipes: those of each pipe, oldest pipe first.
    pub open spec fn frame(&self, sizes: &SpriteSizes) -> Seq<DrawCommand> {
        Seq::new(
            4 * self.pipes@.len(),
            |i: int| self.pipes@[i / 4].pictures(self.tint, sizes.pipe_body, sizes.pipe_cap)[i % 4],
        )
    }

    /// The hit boxes of all pipes: those of each pipe, oldest pipe first.
    pub open spec fn hit_boxes(&self) -> Seq<Rect> {
        Seq::new(2 * self.pipes@.len(), |i: int| self.pipes@[i / 2].hit_boxes()[i % 2])
    }

    /// No pipes, the first one due at once, drawn in the pipe colour of `theme`.
    pub fn new(theme: &Theme) -> (s: Self)
        ensures
            s.wf(),
            s.pipes@.len() == 0,
            s.next_pipe_at == 0,
            s.tint == theme.pipes,
    {
        Self { pipes: Vec::new(), next_pipe_at: 0, tint: theme.pipes }
    }

    /// A new pipe at `x` for a window of the given height. The height of the
    /// gap is drawn uniformly from `GAP_MIN..GAP_MAX`, then its upper edge
    /// from the room that the margins leave.
    pub fn generate(&self, x: i32, height: u32) -> (p: Pipe)
        requires
            MIN_WINDOW_HEIGHT <= height <= i32::MAX,
        ensures
            p.x == x,
            p.fits(height as int),
            p.well_shaped(),
    {
        let hole_size = random_range(GAP_MIN as i64, GAP_MAX as i64);
        let hole_offset = random_range(
            GAP_MARGIN as i64,
            height as i64 - hole_size - GAP_MARGIN as i64,
        );
        Pipe::from_hole(x, hole_offset as u32, hole_size as u32)
    }

    /// Whether a pipe is due in the frame that `state` counts.
    pub fn is_spawn_due(&self, state: &GameState) -> (due: bool)
        ensures
            due == self.spawn_due(state),
    {
        state.fc > self.next_pipe_at
    }

    /// Takes `pipe` in as the newest obstacle and schedules the one after it.
    pub fn spawn(&mut self, pipe: Pipe, next_pipe_at: i64)
        requires
            old(self).wf(),
            pipe.well_shaped(),
            !pipe.is_finished(),
        ensures
            final(self).wf(),
            final(self).pipes@ == old(self).pipes@.push(pipe),
            final(self).next_pipe_at == next_pipe_at,
            final(self).tint == old(self).tint,
    {
        self.pipes.push(pipe);
        self.next_pipe_at = next_pipe_at;
    }

    /// Moves every pipe left by `x_speed` pixels and drops those that are
    /// then out of sight.
    pub fn advance(&mut self, x_speed: i32)
        requires
            old(self).wf(),
            0 <= x_speed,
        ensures
            final(self).wf(),
            final(self).pipes@ == scrolled(old(self).pipes@, x_speed as int),
            final(self).next_pipe_at == old(self).next_pipe_at,
            final(self).tint == old(self).tint,
    {
        let ghost before = self.pipes@;
        let ghost step = |p: Pipe| p.stepped(x_speed as int);
        let n = self.pipes.len();
        let mut kept: Vec<Pipe> = Vec::new();
        let mut i: usize = 0;
        while i < n
            invariant
                i <= n,
                n == self.pipes@.len(),
                self.pipes@ == before,
                0 <= x_speed,
                step == |p: Pipe| p.stepped(x_speed as int),
                kept@ == before.take(i as int).filter_map(step),
                forall|k: int|
                    0 <= k < before.len() ==> {
                        &&& (#[trigger] before[k]).well_shaped()
                        &&& !before[k].is_finished()
                    },
                forall|k: int|
                    0 <= k < kept@.len() ==> {
                        &&& (#[trigger] kept@[k]).well_shaped()
                        &&& !kept@[k].is_finished()
                    },
            decreases n - i,
        {
            let mut p = self.pipes[i];
            proof {
                before.lemma_filter_map_take_succ(step, i as int);
            }
            if p.x as i64 - x_speed as i64 >= i32::MIN as i64 {
                p.update(x_speed);
                if !p.finished() {
                    kept.push(p);
                }
            }
            i = i + 1;
        }
        assert(before.take(n as int) =~= before);
        self.pipes = kept;
    }

    /// One frame: where a pipe is due, a newly generated one enters at the
    /// window's right edge and the next is scheduled `SPAWN_DELAY_MIN` up to
    /// `SPAWN_DELAY_MAX` frames ahead; then all pipes scroll.
    pub fn update(&mut self, state: &GameState)
        requires
            old(self).wf(),
            state.wf(),
        ensures
            final(self).wf(),
            final(self).follows(old(self), state),
    {
        if self.is_spawn_due(state) {
            let new_pipe = self.generate(state.window_width as i32, state.window_height);
            let delay = random_range(SPAWN_DELAY_MIN, SPAWN_DELAY_MAX);
            self.spawn(new_pipe, state.fc + delay);
            self.advance(state.x_speed);
            assert(new_pipe.fits(state.window_height as int));
        } else {
            self.advance(state.x_speed);
        }
    }

    /// Takes the pipe colour of `theme`; the pipes stay where they are.
    pub fn switch_theme(&mut self, theme: &Theme)
        ensures
            *final(self) == (Pipes { tint: theme.pipes, ..*old(self) }),
    {
        self.tint = theme.pipes;
    }

    /// Removes all pipes and makes the first pipe of the next run due at once.
    pub fn reset(&mut self)
        ensures
            final(self).wf(),
            final(self).pipes@.len() == 0,
            final(self).next_pipe_at == 0,
            final(self).tint == old(self).tint,
    {
        self.pipes.clear();
        self.next_pipe_at = 0;
    }

    /// Whether pictures of the given sizes can show every pipe; see `drawable`.
    pub fn is_drawable(&self, sizes: &SpriteSizes) -> (ok: bool)
        ensures
            ok == self.drawable(sizes),
    {
        if sizes.pipe_cap.w < 20 || sizes.pipe_cap.h < 10 || sizes.pipe_body.h > u32::MAX - 50 {
            return false;
        }
        let reach = sizes.pipe_body.h as i64 + 50;
        let n = self.pipes.len();
        let mut i: usize = 0;
        while i < n
            invariant
                i <= n,
                n == self.pipes@.len(),
                reach == sizes.pipe_body.h + 50,
                forall|k: int| 0 <= k < i ==> (#[trigger] self.pipes@[k]).bottom_offset <= reach,
            decreases n - i,
        {
            if self.pipes[i].bottom_offset as i64 > reach {
                return false;
            }
            i = i + 1;
        }
        true
    }

    /// The draw commands for the pipes; see `frame`.
    pub fn render(&self, sizes: &SpriteSizes) -> (cmds: Vec<DrawCommand>)
        requires
            self.wf(),
            self.drawable(sizes),
        ensures
            cmds@ == self.frame(sizes),
    {
        let body = sizes.pipe_body;
        let cap = sizes.pipe_cap;
        let cap_w = cap.w - 20;
        let cap_h = cap.h - 10;
        let n = self.pipes.len();
        let mut cmds: Vec<DrawCommand> = Vec::new();
        let mut i: usize = 0;
        while i < n
            invariant
                i <= n,
                n == self.pipes@.len(),
                self.wf(),
                self.drawable(sizes),
                body == sizes.pipe_body,
                cap == sizes.pipe_cap,
                cap_w == cap.w - 20,
                cap_h == cap.h - 10,
                cmds@.len() == 4 * i,
                forall|k: int| 0 <= k < 4 * i ==> cmds@[k] == self.frame(sizes)[k],
            decreases n - i,
        {
            let pipe = self.pipes[i];
            assert(pipe.well_shaped() && !pipe.is_finished());
            cmds.push(
                DrawCommand::Sprite {
                    sprite: SpriteId::PipeBody,
                    tint: self.tint,
                    dest: Rect::new(pipe.x, 0, PIPE_WIDTH, pipe.top_offset as u32),
                    rotation: 0,
                    flip_h: false,
                    flip_v: true,
                },
            );
            cmds.push(
                DrawCommand::Sprite {
                    sprite: SpriteId::PipeCap,
                    tint: self.tint,
                    dest: Rect::new(pipe.x - 7, pipe.top_offset - 10, cap_w, cap_h),
                    rotation: 0,
                    flip_h: false,
                    flip_v: true,
                },
            );
            cmds.push(
                DrawCommand::Sprite {
                    sprite: SpriteId::PipeBody,
                    tint: self.tint,
                    dest: Rect::new(
                        pipe.x,
                        pipe.bottom_offset,
                        PIPE_WIDTH,
                        body.h + 50 - pipe.bottom_offset as u32,
                    ),
                    rotation: 0,
                    flip_h: false,
                    flip_v: false,
                },
            );
            cmds.push(
                DrawCommand::Sprite {
                    sprite: SpriteId::PipeCap,
                    tint: self.tint,
                    dest: Rect::new(pipe.x - 7, pipe.bottom_offset, cap_w, cap_h),
                    rotation: 0,
                    flip_h: false,
                    flip_v: false,
                },
            );
            i = i + 1;
        }
        assert(cmds@ =~= self.frame(sizes));
        cmds
    }

    /// The hit boxes of all pipes; see `hit_boxes`.
    pub fn get_bounding_boxes(&self) -> (boxes: Vec<Rect>)
        requires
            self.wf(),
        ensures
            boxes@ == self.hit_boxes(),
    {
        let n = self.pipes.len();
        let mut boxes: Vec<Rect> = Vec::new();
        let mut i: usize = 0;
        while i < n
            invariant
                i <= n,
                n == self.pipes@.len(),
                self.wf(),
                boxes@.len() == 2 * i,
                forall|k: int| 0 <= k < 2 * i ==> boxes@[k] == self.hit_boxes()[k],
            decreases n - i,
        {
            let pipe = self.pipes[i];
            assert(pipe.well_shaped() && !pipe.is_finished());
            let left = pipe.x - HITBOX_PAD;
            boxes.push(Rect::new(left, 0, HITBOX_WIDTH, pipe.top_offset as u32 + HITBOX_CAP));
            boxes.push(Rect::new(left, pipe.bottom_offset, HITBOX_WIDTH, HITBOX_DEPTH));
            i = i + 1;
        }
        assert(boxes@ =~= self.hit_boxes());
        boxes
    }
}

/// The pipes of `pipes` after `n` frames at the given scroll speed.
pub open spec fn scrolled_n(pipes: Seq<Pipe>, speed: int, n: nat) -> Seq<Pipe>
    decreases n,
{
    if n == 0 {
        pipes
    } else {
        scrolled(scrolled_n(pipes, speed, (n - 1) as nat), speed)
    }
}

/// A pipe in sight that scrolls at a constant speed is still there after
/// `n` frames just if `n` times the speed has not taken it beyond
/// `PIPE_GONE_X`, and it has then moved left by that much; once gone, it
/// stays gone.
pub proof fn lemma_pipe_leaves(p: Pipe, speed: int, n: nat)
    requires
        !p.is_finished(),
        0 <= speed,
    ensures
        p.x - n * speed < PIPE_GONE_X ==> scrolled_n(seq![p], speed, n) == Seq::<Pipe>::empty(),
        p.x - n * speed >= PIPE_GONE_X ==> scrolled_n(seq![p], speed, n) == seq![
            Pipe { x: (p.x - n * speed) as i32, ..p },
        ],
    decreases n,
{
    let step = |q: Pipe| q.stepped(speed);
    if n == 0 {
        assert(n * speed == 0) by (nonlinear_arith)
            requires
                n == 0,
        ;
        assert(seq![p] =~= seq![Pipe { x: (p.x - n * speed) as i32, ..p }]);
    } else {
        let m = (n - 1) as nat;
        lemma_pipe_leaves(p, speed, m);
        assert(n * speed == m * speed + speed) by (nonlinear_arith)
            requires
                n == m + 1,
        ;
        assert(0 <= m * speed) by (nonlinear_arith)
            requires
                0 <= speed,
                0 <= m,
        ;
        if p.x - m * speed < PIPE_GONE_X {
            assert(Seq::<Pipe>::empty().filter_map(step) =~= Seq::<Pipe>::empty());
        } else {
            let q = Pipe { x: (p.x - m * speed) as i32, ..p };
            Seq::lemma_filter_map_singleton(q, step);
            assert(scrolled_n(seq![p], speed, n) == seq![q].filter_map(step));
            if p.x - n * speed >= PIPE_GONE_X {
                assert(step(q) == Some(Pipe { x: (p.x - n * speed) as i32, ..p }));
            } else {
                assert(step(q).is_none());
            }
        }
    }
}

} // verus!
