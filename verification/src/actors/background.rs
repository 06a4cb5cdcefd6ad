//! The backdrop: water, sand with drifting speckles, and passing sea creatures.

use crate::draw::{DrawCommand, SpriteId, SpriteSizes};
use crate::geometry::Rect;
use crate::rng::random_range;
use crate::state::GameState;
use crate::theme::{Color, Theme};
use vstd::prelude::*;

verus! {

/// Number of speckles in the sand.
pub const SPECKLES: usize = 100;

/// Where a speckle re-enters once it has left at the left edge.
pub const SPECKLE_ENTRY_X: i32 = 800;

/// The band in which speckles lie: from this height ...
pub const SPECKLE_Y_MIN: i32 = 400;

/// ... up to, but not including, this one.
pub const SPECKLE_Y_MAX: i32 = 600;

/// Edge length of a speckle.
pub const SPECKLE_SIZE: u32 = 2;

/// The band in which creatures pass: from this height ...
pub const FAUNA_Y_MIN: i32 = 450;

/// ... up to, but not including, this one.
pub const FAUNA_Y_MAX: i32 = 550;

/// A creature is dropped once its left edge is further left than this.
pub const FAUNA_GONE_X: i32 = -100;

/// The first creature appears before this frame.
pub const FIRST_FAUNA_BEFORE: i64 = 100;

/// Smallest number of frames between two creatures.
pub const FAUNA_DELAY_MIN: i64 = 50;

/// Upper bound, exclusive, on the number of frames between two creatures.
pub const FAUNA_DELAY_MAX: i64 = 300;

/// A creature passing in the background.
#[derive(Clone, Copy, Debug, PartialEq, Eq)]
pub struct BackgroundObject {
    pub x: i32,
    pub y: i32,
    /// Which of the creature pictures shows it.
    pub texture_idx: usize,
}

impl BackgroundObject {
    /// Whether the creature has scrolled out of sight.
    pub open spec fn is_gone(self) -> bool {
        self.x < FAUNA_GONE_X
    }

    /// The creature after a frame at the given scroll speed: moved left, or
    /// `None` where that takes it out of sight.
    pub open spec fn stepped(self, speed: int) -> Option<BackgroundObject> {
        if self.x - speed < FAUNA_GONE_X {
            None
        } else {
            Some(BackgroundObject { x: (self.x - speed) as i32, ..self })
        }
    }

    /// Whether the creature can have just entered a window of the given
    /// width: at its right edge, inside the band, shown by one of `textures` pictures.
    pub open spec fn entering(self, width: int, textures: int) -> bool {
        &&& self.x == width
        &&& FAUNA_Y_MIN <= self.y < FAUNA_Y_MAX
        &&& self.texture_idx < textures
    }

    /// The picture of the creature, in the natural size of its picture.
    pub open spec fn picture(self, tint: Color, sizes: &SpriteSizes) -> DrawCommand {
        DrawCommand::Sprite {
            sprite: SpriteId::Fauna(self.texture_idx),
            tint,
            dest: Rect {
                x: self.x,
                y: self.y,
                w: sizes.fauna@[self.texture_idx as int].w,
                h: sizes.fauna@[self.texture_idx as int].h,
            },
            rotation: 0,
            flip_h: false,
            flip_v: false,
        }
    }

    pub fn new(x: i32, y: i32, texture_idx: usize) -> (o: Self)
        ensures
            o == (BackgroundObject { x, y, texture_idx }),
    {
        Self { x, y, texture_idx }
    }

    /// Moves the creature left by `x_speed` pixels.
    pub fn update(&mut self, x_speed: i32)
        requires
            i32::MIN <= old(self).x - x_speed <= i32::MAX,
        ensures
            *final(self) == (BackgroundObject { x: (old(self).x - x_speed) as i32, ..*old(self) }),
    {
        self.x = self.x - x_speed;
    }

    /// Whether the creature has scrolled out of sight.
    pub fn is_finished(&self) -> (gone: bool)
        ensures
            gone == self.is_gone(),
    {
        self.x < FAUNA_GONE_X
    }
}

/// The creatures of `objects` after a frame at the given scroll speed: each
/// moved left, those out of sight dropped, the order kept.
pub open spec fn passed(objects: Seq<BackgroundObject>, speed: int) -> Seq<BackgroundObject> {
    objects.filter_map(|o: BackgroundObject| o.stepped(speed))
}

/// Whether `p` is a place where a speckle can lie.
pub open spec fn speckle_in_band(p: (i32, i32)) -> bool {
    0 <= p.0 <= SPECKLE_ENTRY_X && SPECKLE_Y_MIN <= p.1 < SPECKLE_Y_MAX
}

/// A speckle after a frame at the given scroll speed: moved left, or, once
/// it has left at the left edge, back at the entry at height `fresh_y`.
pub open spec fn speckle_after(p: (i32, i32), speed: int, fresh_y: i32) -> (i32, i32) {
    if p.0 - speed < 0 {
        (SPECKLE_ENTRY_X, fresh_y)
    } else {
        ((p.0 - speed) as i32, p.1)
    }
}

/// A speckle after a frame; see `speckle_after`.
pub fn move_speckle(p: (i32, i32), x_speed: i32, fresh_y: i32) -> (q: (i32, i32))
    requires
        0 <= x_speed,
        0 <= p.0,
    ensures
        q == speckle_after(p, x_speed as int, fresh_y),
{
    if (p.0 as i64) - (x_speed as i64) < 0 {
        (SPECKLE_ENTRY_X, fresh_y)
    } else {
        (p.0 - x_speed, p.1)
    }
}

/// The backdrop and what passes in it.
pub struct Background {
    /// The creatures in sight, oldest first.
    pub objects: Vec<BackgroundObject>,
    /// A creature is due in the first frame whose number reaches this.
    pub new_object_at_fc: i64,
    /// Number of creature pictures to choose from.
    pub texture_count: usize,
    /// The speckles in the sand, as `(x, y)`.
    pub sand_highlights: Vec<(i32, i32)>,
    /// Colour in which the creatures are drawn.
    pub tint: Color,
}

impl Background {
    /// Validity: there is a picture to choose, every creature is in sight
    /// and shown by one of the pictures, and every speckle lies in its band.
    pub open spec fn wf(&self) -> bool {
        &&& 1 <= self.texture_count <= i64::MAX
        &&& forall|i: int|
            0 <= i < self.objects@.len() ==> {
                &&& !(#[trigger] self.objects@[i]).is_gone()
                &&& self.objects@[i].texture_idx < self.texture_count
            }
        &&& forall|i: int|
            0 <= i < self.sand_highlights@.len() ==> speckle_in_band(
                #[trigger] self.sand_highlights@[i],
            )
    }

    /// Whether a creature is due in the frame that `state` counts.
    pub open spec fn spawn_due(&self, state: &GameState) -> bool {
        state.fc >= self.new_object_at_fc
    }

    /// Whether `now` can be the speckles of `before` one frame later.
    pub open spec fn speckles_moved(
        before: Seq<(i32, i32)>,
        now: Seq<(i32, i32)>,
        speed: int,
    ) -> bool {
        &&& now.len() == before.len()
        &&& forall|i: int|
            0 <= i < before.len() ==> {
                &&& speckle_in_band(#[trigger] now[i])
                &&& now[i] == speckle_after(before[i], speed, now[i].1)
            }
    }

    /// Whether `self` can be what one frame in `state` makes of `before`:
    /// the speckles moved; where no creature was due, the creatures of
    /// `before` moved on; where one was, they and a new one entering at the
    /// window's right edge moved on, with the next creature scheduled
    /// `FAUNA_DELAY_MIN` up to `FAUNA_DELAY_MAX` frames ahead.
    pub open spec fn follows(&self, before: &Background, state: &GameState) -> bool {
        &&& self.texture_count == before.texture_count
        &&& self.tint == before.tint
        &&& Self::speckles_moved(
            before.sand_highlights@,
            self.sand_highlights@,
            state.x_speed as int,
        )
        &&& !before.spawn_due(state) ==> {
            &&& self.objects@ == passed(before.objects@, state.x_speed as int)
            &&& self.new_object_at_fc == before.new_object_at_fc
        }
        &&& before.spawn_due(state) ==> {
            &&& FAUNA_DELAY_MIN <= self.new_object_at_fc - state.fc < FAUNA_DELAY_MAX
            &&& exists|o: BackgroundObject|
                {
                    &&& #[trigger] o.entering(
                        state.window_width as int,
                        before.texture_count as int,
                    )
                    &&& self.objects@ == passed(before.objects@.push(o), state.x_speed as int)
                }
        }
    }

    /// A backdrop without creatures, the first of them due before frame
    /// `FIRST_FAUNA_BEFORE`, with `SPECKLES` speckles strewn over the sand,
    /// drawn in the first fauna colour of the active palette.
    pub fn new(state: &GameState, texture_count: usize) -> (s: Self)
        requires
            state.theme.wf(),
            1 <= texture_count <= i64::MAX,
        ensures
            s.wf(),
            s.objects@.len() == 0,
            0 <= s.new_object_at_fc < FIRST_FAUNA_BEFORE,
            s.texture_count == texture_count,
            s.sand_highlights@.len() == SPECKLES,
            forall|i: int|
                0 <= i < SPECKLES ==> (#[trigger] s.sand_highlights@[i]).0 < SPECKLE_ENTRY_X,
            s.tint == state.theme@.current().fauna_color_1,
    {
        let tint = state.theme.current().fauna_color_1;
        let mut sand_highlights: Vec<(i32, i32)> = Vec::new();
        let mut i: usize = 0;
        while i < SPECKLES
            invariant
                i <= SPECKLES,
                sand_highlights@.len() == i,
                forall|k: int|
                    0 <= k < i ==> speckle_in_band(#[trigger] sand_highlights@[k])
                        && sand_highlights@[k].0 < SPECKLE_ENTRY_X,
            decreases SPECKLES - i,
        {
            let x = random_range(0, SPECKLE_ENTRY_X as i64);
            let y = random_range(SPECKLE_Y_MIN as i64, SPECKLE_Y_MAX as i64);
            sand_highlights.push((x as i32, y as i32));
            i = i + 1;
        }
        let first = random_range(0, FIRST_FAUNA_BEFORE);
        Self { objects: Vec::new(), new_object_at_fc: first, texture_count, sand_highlights, tint }
    }

    /// Whether a creature is due in the frame that `state` counts.
    pub fn is_spawn_due(&self, state: &GameState) -> (due: bool)
        ensures
            due == self.spawn_due(state),
    {
        state.fc >= self.new_object_at_fc
    }

    /// Takes `object` in as the newest creature and schedules the one after it.
    pub fn spawn(&mut self, object: BackgroundObject, next_at: i64)
        requires
            old(self).wf(),
            !object.is_gone(),
            object.texture_idx < old(self).texture_count,
        ensures
            final(self).wf(),
            *final(self) == (Background {
                objects: final(self).objects,
                new_object_at_fc: next_at,
                ..*old(self)
            }),
            final(self).objects@ == old(self).objects@.push(object),
    {
        self.objects.push(object);
        self.new_object_at_fc = next_at;
    }

    /// Moves every speckle left by `x_speed` pixels; one that leaves at the
    /// left edge re-enters at a height drawn from its band.
    pub fn move_speckles(&mut self, x_speed: i32)
        requires
            old(self).wf(),
            0 <= x_speed,
        ensures
            final(self).wf(),
            *final(self) == (Background {
                sand_highlights: final(self).sand_highlights,
                ..*old(self)
            }),
            Self::speckles_moved(
                old(self).sand_highlights@,
                final(self).sand_highlights@,
                x_speed as int,
            ),
    {
        let ghost before = self.sand_highlights@;
        let n = self.sand_highlights.len();
        let mut moved: Vec<(i32, i32)> = Vec::new();
        let mut i: usize = 0;
        while i < n
            invariant
                i <= n,
                n == before.len(),
                self.sand_highlights@ == before,
                0 <= x_speed,
                moved@.len() == i,
                forall|k: int| 0 <= k < n ==> speckle_in_band(#[trigger] before[k]),
                forall|k: int|
                    0 <= k < i ==> {
                        &&& speckle_in_band(#[trigger] moved@[k])
                        &&& moved@[k] == speckle_after(before[k], x_speed as int, moved@[k].1)
                    },
            decreases n - i,
        {
            let p = self.sand_highlights[i];
            assert(speckle_in_band(before[i as int]));
            let q = if (p.0 as i64) - (x_speed as i64) < 0 {
                let fresh_y = random_range(SPECKLE_Y_MIN as i64, SPECKLE_Y_MAX as i64);
                move_speckle(p, x_speed, fresh_y as i32)
            } else {
                move_speckle(p, x_speed, p.1)
            };
            moved.push(q);
            i = i + 1;
        }
        self.sand_highlights = moved;
    }

    /// Moves every creature left by `x_speed` pixels and drops those that
    /// are then out of sight.
    pub fn advance(&mut self, x_speed: i32)
        requires
            old(self).wf(),
            0 <= x_speed,
        ensures
            final(self).wf(),
            *final(self) == (Background { objects: final(self).objects, ..*old(self) }),
            final(self).objects@ == passed(old(self).objects@, x_speed as int),
    {
        let ghost before = self.objects@;
        let ghost step = |o: BackgroundObject| o.stepped(x_speed as int);
        let n = self.objects.len();
        let mut kept: Vec<BackgroundObject> = Vec::new();
        let mut i: usize = 0;
        while i < n
            invariant
                i <= n,
                n == self.objects@.len(),
                self.objects@ == before,
                0 <= x_speed,
                step == |o: BackgroundObject| o.stepped(x_speed as int),
                kept@ == before.take(i as int).filter_map(step),
                forall|k: int|
                    0 <= k < before.len() ==> {
                        &&& !(#[trigger] before[k]).is_gone()
                        &&& before[k].texture_idx < self.texture_count
                    },
                forall|k: int|
                    0 <= k < kept@.len() ==> {
                        &&& !(#[trigger] kept@[k]).is_gone()
                        &&& kept@[k].texture_idx < self.texture_count
                    },
            decreases n - i,
        {
            let mut o = self.objects[i];
            proof {
                before.lemma_filter_map_take_succ(step, i as int);
                assert(!before[i as int].is_gone());
            }
            if o.x as i64 - x_speed as i64 >= i32::MIN as i64 {
                o.update(x_speed);
                if !o.is_finished() {
                    kept.push(o);
                }
            }
            i = i + 1;
        }
        assert(before.take(n as int) =~= before);
        self.objects = kept;
    }

    /// One frame: the speckles move; where a creature is due, one enters at
    /// the window's right edge and the next is scheduled `FAUNA_DELAY_MIN`
    /// up to `FAUNA_DELAY_MAX` frames ahead; then the creatures move.
    pub fn update(&mut self, state: &GameState)
        requires
            old(self).wf(),
            state.wf(),
        ensures
            final(self).wf(),
            final(self).follows(old(self), state),
    {
        self.move_speckles(state.x_speed);
        if self.is_spawn_due(state) {
            let y = random_range(FAUNA_Y_MIN as i64, FAUNA_Y_MAX as i64);
            let texture_idx = random_range(0, self.texture_count as i64);
            let object = BackgroundObject::new(
                state.window_width as i32,
                y as i32,
                texture_idx as usize,
            );
            let delay = random_range(FAUNA_DELAY_MIN, FAUNA_DELAY_MAX);
            self.spawn(object, state.fc + delay);
            self.advance(state.x_speed);
            assert(object.entering(state.window_width as int, old(self).texture_count as int));
        } else {
            self.advance(state.x_speed);
        }
    }

    /// Takes the first fauna colour of `theme`; nothing moves.
    pub fn switch_theme(&mut self, theme: &Theme)
        ensures
            *final(self) == (Background { tint: theme.fauna_color_1, ..*old(self) }),
    {
        self.tint = theme.fauna_color_1;
    }

    /// The backdrop flows on from run to run: nothing changes.
    pub fn reset(&mut self)
        ensures
            *final(self) == *old(self),
    {
    }
}

impl Background {
    /// The sand: the lower third of the window.
    pub open spec fn sand_rect(state: &GameState) -> Rect {
        let top = state.window_height - state.window_height / 3;
        Rect { x: 0, y: top as i32, w: state.window_width, h: (state.window_height - top) as u32 }
    }

    /// The backdrop of a frame, back to front: the water over the whole
    /// canvas, the sand, the speckles, then the creatures, oldest first.
    pub open spec fn frame(&self, state: &GameState, sizes: &SpriteSizes) -> Seq<DrawCommand> {
        let theme = state.theme@.current();
        let speckles = self.sand_highlights@;
        let objects = self.objects@;
        Seq::new(
            2 + speckles.len() + objects.len(),
            |i: int|
                if i == 0 {
                    DrawCommand::Clear { color: theme.water }
                } else if i == 1 {
                    DrawCommand::FillRect { color: theme.sand, rect: Self::sand_rect(state) }
                } else if i < 2 + speckles.len() {
                    DrawCommand::FillRect {
                        color: theme.sand_highlight,
                        rect: Rect {
                            x: speckles[i - 2].0,
                            y: speckles[i - 2].1,
                            w: SPECKLE_SIZE,
                            h: SPECKLE_SIZE,
                        },
                    }
                } else {
                    objects[i - 2 - speckles.len()].picture(self.tint, sizes)
                },
        )
    }

    /// The draw commands of the backdrop; see `frame`.
    pub fn render(&self, state: &GameState, sizes: &SpriteSizes) -> (cmds: Vec<DrawCommand>)
        requires
            self.wf(),
            state.wf(),
            sizes.fauna@.len() == self.texture_count,
        ensures
            cmds@ == self.frame(state, sizes),
    {
        let theme = state.theme.current();
        let ww = state.window_width;
        let wh = state.window_height;
        let mut cmds: Vec<DrawCommand> = Vec::new();
        cmds.push(DrawCommand::Clear { color: theme.water });
        let y = wh - (wh / 3);
        cmds.push(
            DrawCommand::FillRect { color: theme.sand, rect: Rect::new(0, y as i32, ww, wh - y) },
        );
        let ns = self.sand_highlights.len();
        let mut i: usize = 0;
        while i < ns
            invariant
                i <= ns,
                ns == self.sand_highlights@.len(),
                *theme == state.theme@.current(),
                cmds@.len() == 2 + i,
                forall|k: int| 0 <= k < 2 + i ==> cmds@[k] == self.frame(state, sizes)[k],
            decreases ns - i,
        {
            let p = self.sand_highlights[i];
            cmds.push(
                DrawCommand::FillRect {
                    color: theme.sand_highlight,
                    rect: Rect::new(p.0, p.1, SPECKLE_SIZE, SPECKLE_SIZE),
                },
            );
            i = i + 1;
        }
        let no = self.objects.len();
        let mut j: usize = 0;
        while j < no
            invariant
                j <= no,
                no == self.objects@.len(),
                ns == self.sand_highlights@.len(),
                self.wf(),
                sizes.fauna@.len() == self.texture_count,
                cmds@.len() == 2 + ns + j,
                forall|k: int| 0 <= k < 2 + ns + j ==> cmds@[k] == self.frame(state, sizes)[k],
            decreases no - j,
        {
            let o = self.objects[j];
            assert(!o.is_gone() && o.texture_idx < self.texture_count);
            let size = sizes.fauna[o.texture_idx];
            cmds.push(
                DrawCommand::Sprite {
                    sprite: SpriteId::Fauna(o.texture_idx),
                    tint: self.tint,
                    dest: Rect::new(o.x, o.y, size.w, size.h),
                    rotation: 0,
                    flip_h: false,
                    flip_v: false,
                },
            );
            j = j + 1;
        }
        assert(cmds@ =~= self.frame(state, sizes));
        cmds
    }
}

} // verus!
