//! The score line.

use crate::draw::{DrawCommand, Label};
use crate::geometry::Rect;
use crate::state::GameState;
use crate::theme::Theme;
use vstd::prelude::*;

verus! {

/// The score display. It keeps nothing: what it shows is in the game state.
#[derive(Clone, Copy, Debug, PartialEq, Eq)]
pub struct Score {}

impl Score {
    /// Where the score line is written.
    pub open spec fn place() -> Rect {
        Rect { x: 20, y: 10, w: 300, h: 30 }
    }

    pub fn new() -> (s: Self)
        ensures
            s == (Score {  }),
    {
        Score {  }
    }

    /// The score line: the frame counter and the high score of `state`, in
    /// the text colour of the active palette.
    pub fn render(&self, state: &GameState) -> (cmd: DrawCommand)
        requires
            state.theme.wf(),
        ensures
            cmd == (DrawCommand::Text {
                label: Label::Score { score: state.fc, high_score: state.high_score },
                color: state.theme@.current().text,
                dest: Self::place(),
            }),
    {
        let theme = state.theme.current();
        DrawCommand::Text {
            label: Label::Score { score: state.fc, high_score: state.high_score },
            color: theme.text,
            dest: Rect::new(20, 10, 300, 30),
        }
    }

    /// Nothing to do: the score is the frame counter.
    pub fn update(&mut self, state: &GameState)
        ensures
            *final(self) == *old(self),
    {
    }

    /// Nothing to do: the colour is looked up when drawing.
    pub fn switch_theme(&mut self, theme: &Theme)
        ensures
            *final(self) == *old(self),
    {
    }

    /// Nothing to do.
    pub fn reset(&mut self)
        ensures
            *final(self) == *old(self),
    {
    }
}

} // verus!
