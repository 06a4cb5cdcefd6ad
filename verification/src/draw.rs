//! What a frame looks like, as a list of commands for whoever draws it.

use crate::geometry::Rect;
use crate::theme::Color;
use vstd::prelude::*;

verus! {

/// A picture that the embedding program has loaded. Bubbles and sea creatures
/// come in several variants, told apart by a small index.
#[derive(Clone, Copy, Debug, PartialEq, Eq)]
pub enum SpriteId {
    Submarine,
    PipeBody,
    PipeCap,
    Bubble(usize),
    Fauna(usize),
}

/// Pixel extent of a loaded picture.
#[derive(Clone, Copy, Debug, PartialEq, Eq)]
pub struct Size {
    pub w: u32,
    pub h: u32,
}

/// The extents of the loaded pictures that layout depends on.
#[derive(Debug, PartialEq, Eq)]
pub struct SpriteSizes {
    pub pipe_body: Size,
    pub pipe_cap: Size,
    /// One entry per bubble variant.
    pub bubbles: Vec<Size>,
    /// One entry per sea-creature variant.
    pub fauna: Vec<Size>,
}

/// A line of text on screen, by what it says.
#[derive(Clone, Copy, Debug, PartialEq, Eq)]
pub enum Label {
    /// Invitation shown before the first run.
    PressSpace,
    /// Invitation shown after a run has ended.
    YouSunk,
    /// The running score and the best so far.
    Score { score: i64, high_score: i64 },
}

/// One drawing step. A frame is a sequence of these, painted in order.
#[derive(Clone, Copy, Debug, PartialEq, Eq)]
pub enum DrawCommand {
    /// Fill the whole canvas.
    Clear { color: Color },
    /// Fill a rectangle.
    FillRect { color: Color, rect: Rect },
    /// Paint a picture, tinted, scaled into `dest`, turned clockwise by
    /// `rotation` thousandths of a degree about its centre and mirrored as
    /// the flags say.
    Sprite { sprite: SpriteId, tint: Color, dest: Rect, rotation: i32, flip_h: bool, flip_v: bool },
    /// Paint a line of text scaled into `dest`.
    Text { label: Label, color: Color, dest: Rect },
}

} // verus!
