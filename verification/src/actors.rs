//! The actors: everything that moves or is drawn.

pub mod background;
pub mod bubble;
pub mod pipe;
pub mod score;
pub mod sub;

use crate::actors::background::Background;
use crate::actors::bubble::Bubbles;
use crate::actors::pipe::Pipes;
use crate::actors::score::Score;
use crate::actors::sub::Sub;
use crate::state::{GameState, Phase};
use crate::theme::Theme;
use vstd::prelude::*;

verus! {

/// One of each actor. The set is fixed; what comes and goes are the pipes,
/// bubbles and creatures that the actors own.
pub struct Actors {
    pub sub: Sub,
    pub bubbles: Bubbles,
    pub pipes: Pipes,
    pub background: Background,
    pub score: Score,
}

impl Actors {
    /// Validity: that of every actor.
    pub open spec fn wf(&self) -> bool {
        &&& self.sub.wf()
        &&& self.bubbles.wf()
        &&& self.pipes.wf()
        &&& self.background.wf()
    }

    /// Whether every actor is drawn in its colour of `theme`.
    pub open spec fn tinted_by(&self, theme: Theme) -> bool {
        &&& self.sub.tint == theme.sub
        &&& self.bubbles.tint == theme.bubbles
        &&& self.pipes.tint == theme.pipes
        &&& self.background.tint == theme.fauna_color_1
    }

    /// The actors re-tinted to `theme`: each in its colour, all else as it was.
    pub open spec fn themed(self, theme: Theme) -> Actors {
        Actors {
            sub: Sub { tint: theme.sub, ..self.sub },
            bubbles: Bubbles { tint: theme.bubbles, ..self.bubbles },
            pipes: Pipes { tint: theme.pipes, ..self.pipes },
            background: Background { tint: theme.fauna_color_1, ..self.background },
            score: self.score,
        }
    }

    /// Whether `self` can be what one frame in `state` makes of `before`:
    /// each actor one frame on.
    pub open spec fn follows(&self, before: &Actors, state: &GameState) -> bool {
        &&& self.sub == before.sub.updated(state)
        &&& self.bubbles.follows(&before.bubbles, state)
        &&& self.pipes.follows(&before.pipes, state)
        &&& self.background.follows(&before.background, state)
        &&& self.score == before.score
    }

    /// Whether `self` is `before` made ready for a new run: the submarine
    /// back at its start, no pipes and the first one due at once, the
    /// bubbles and the backdrop untouched.
    pub open spec fn is_reset_of(&self, before: &Actors) -> bool {
        &&& self.sub == before.sub.restarted()
        &&& self.pipes.pipes@.len() == 0
        &&& self.pipes.next_pipe_at == 0
        &&& self.pipes.tint == before.pipes.tint
        &&& self.bubbles == before.bubbles
        &&& self.background == before.background
        &&& self.score == before.score
    }

    /// Re-tints every actor to `theme`. Nothing moves.
    pub fn switch_theme(&mut self, theme: &Theme)
        ensures
            *final(self) == old(self).themed(*theme),
            final(self).tinted_by(*theme),
    {
        self.background.switch_theme(theme);
        self.sub.switch_theme(theme);
        self.bubbles.switch_theme(theme);
        self.pipes.switch_theme(theme);
        self.score.switch_theme(theme);
    }

    /// Makes the actors ready for a new run.
    pub fn reset(&mut self)
        requires
            old(self).wf(),
        ensures
            final(self).wf(),
            final(self).is_reset_of(old(self)),
    {
        self.background.reset();
        self.sub.reset();
        self.bubbles.reset();
        self.pipes.reset();
        self.score.reset();
    }

    /// One frame for every actor: backdrop, submarine, bubbles, pipes, score.
    pub fn update(&mut self, state: &GameState)
        requires
            old(self).wf(),
            state.wf(),
            state.phase() == Phase::Playing ==> old(self).sub.can_fall(),
        ensures
            final(self).wf(),
            final(self).follows(old(self), state),
    {
        self.background.update(state);
        self.sub.update(state);
        self.bubbles.update(state);
        self.pipes.update(state);
        self.score.update(state);
    }
}

/// Re-tinting is cosmetic: it touches no position, is idempotent, the last
/// palette wins, and the actors then wear it.
pub proof fn lemma_theming_is_cosmetic(a: Actors, first: Theme, last: Theme)
    ensures
        a.themed(last).themed(last) == a.themed(last),
        a.themed(first).themed(last) == a.themed(last),
        a.themed(last).tinted_by(last),
        a.tinted_by(last) ==> a.themed(last) == a,
        a.themed(last).sub == (Sub { tint: last.sub, ..a.sub }),
        a.themed(last).bubbles.bubbles == a.bubbles.bubbles,
        a.themed(last).pipes.pipes == a.pipes.pipes,
        a.themed(last).pipes.next_pipe_at == a.pipes.next_pipe_at,
        a.themed(last).background.objects == a.background.objects,
        a.themed(last).background.sand_highlights == a.background.sand_highlights,
{
}

} // verus!
