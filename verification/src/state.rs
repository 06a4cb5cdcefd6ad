//! The state that every actor reads each frame, and the phases of a run.

use crate::theme::{builtin_themes, ThemeSwitcher};
use vstd::prelude::*;

verus! {

/// Scroll speed of a fresh game, in pixels per frame.
pub const DEFAULT_X_SPEED: i32 = 3;

/// The lowest window in which every obstacle fits: the widest gap, and a
/// margin of 50 pixels above and below the band in which its top may fall.
pub const MIN_WINDOW_HEIGHT: u32 = 350;

/// The widest window. Bubbles start up to 300 pixels beyond the right edge,
/// and that position has to stay representable.
pub const MAX_WINDOW_WIDTH: u32 = 2_147_483_347;

/// The last frame of a run. Spawn times are scheduled up to 300 frames ahead
/// of the frame counter and have to stay representable.
pub const FRAME_LIMIT: i64 = i64::MAX - 300;

/// Where the game stands.
#[derive(Clone, Copy, Debug, PartialEq, Eq, Structural)]
pub enum Phase {
    /// Waiting for the player; the submarine bobs in place.
    Pregame,
    /// A run is under way.
    Playing,
    /// The run has ended and awaits `finish_run`.
    GameOver,
}

/// Shared game state.
pub struct GameState {
    /// True once the player has started the run; false before it and after conceding.
    pub game_started: bool,
    /// True once the run has ended.
    pub game_over: bool,
    /// Frames elapsed in the current run; this is the score.
    pub fc: i64,
    /// Best score of any finished run.
    pub high_score: i64,
    /// Leftward scroll of the world, in pixels per frame.
    pub x_speed: i32,
    pub window_height: u32,
    pub window_width: u32,
    /// The palettes and the active one.
    pub theme: ThemeSwitcher,
    /// Number of finished runs.
    pub run_count: i32,
}

impl GameState {
    /// Whether a window of this size can host the game.
    pub open spec fn window_fits(width: u32, height: u32) -> bool {
        width <= MAX_WINDOW_WIDTH && MIN_WINDOW_HEIGHT <= height <= i32::MAX
    }

    /// Validity: counters are non-negative and leave room for scheduling, the
    /// world scrolls leftwards, the window can host the game, and the theme
    /// cursor is valid.
    pub open spec fn wf(&self) -> bool {
        &&& 0 <= self.fc <= FRAME_LIMIT
        &&& 0 <= self.high_score
        &&& 0 <= self.run_count
        &&& 0 <= self.x_speed
        &&& Self::window_fits(self.window_width, self.window_height)
        &&& self.theme.wf()
    }

    /// The phase that the two flags encode.
    pub open spec fn phase(&self) -> Phase {
        if self.game_over {
            Phase::GameOver
        } else if self.game_started {
            Phase::Playing
        } else {
            Phase::Pregame
        }
    }

    /// The state once the player has started the run.
    pub open spec fn started(self) -> GameState {
        GameState { game_started: true, ..self }
    }

    /// The state once the player has given the run up.
    pub open spec fn conceded(self) -> GameState {
        GameState { game_started: false, game_over: true, ..self }
    }

    /// The state once the submarine has hit something.
    pub open spec fn collided(self) -> GameState {
        GameState { game_over: true, ..self }
    }

    /// The state one frame into the future: the counter is one higher.
    pub open spec fn ticked(self) -> GameState {
        GameState { fc: (self.fc + 1) as i64, ..self }
    }

    /// The state after `n` frames.
    pub open spec fn ticked_n(self, n: nat) -> GameState
        decreases n,
    {
        if n == 0 {
            self
        } else {
            self.ticked_n((n - 1) as nat).ticked()
        }
    }

    /// The state once the current run has been booked: the high score has
    /// taken in the run's score, the run is counted, and the game is back in
    /// pregame at frame zero.
    pub open spec fn run_finished(self) -> GameState {
        GameState {
            game_started: false,
            game_over: false,
            fc: 0,
            high_score: if self.fc > self.high_score { self.fc } else { self.high_score },
            run_count: (self.run_count + 1) as i32,
            ..self
        }
    }

    /// The state after a run that reached `score` frames has been played
    /// from here and booked.
    pub open spec fn after_run(self, score: i64) -> GameState {
        (GameState { fc: score, ..self }).run_finished()
    }

    /// The state after the runs with the given scores, in order.
    pub open spec fn after_runs(self, scores: Seq<i64>) -> GameState
        decreases scores.len(),
    {
        if scores.len() == 0 {
            self
        } else {
            self.after_runs(scores.drop_last()).after_run(scores.last())
        }
    }

    /// A fresh state for a window of the given size: pregame, frame zero, no
    /// score yet, the default scroll speed and the first built-in palette.
    pub fn new(window_width: u32, window_height: u32) -> (s: Self)
        requires
            Self::window_fits(window_width, window_height),
        ensures
            s.wf(),
            s.phase() == Phase::Pregame,
            !s.game_started,
            s.fc == 0,
            s.high_score == 0,
            s.run_count == 0,
            s.x_speed == DEFAULT_X_SPEED,
            s.window_width == window_width,
            s.window_height == window_height,
            s.theme@.themes == builtin_themes(),
            s.theme@.index == 0,
    {
        GameState {
            game_started: false,
            game_over: false,
            fc: 0,
            high_score: 0,
            x_speed: DEFAULT_X_SPEED,
            window_height,
            window_width,
            theme: ThemeSwitcher::new(),
            run_count: 0,
        }
    }

    /// The current phase.
    pub fn current_phase(&self) -> (p: Phase)
        ensures
            p == self.phase(),
    {
        if self.game_over {
            Phase::GameOver
        } else if self.game_started {
            Phase::Playing
        } else {
            Phase::Pregame
        }
    }

    /// Takes over a new window size; nothing else changes.
    pub fn resize(&mut self, window_width: u32, window_height: u32)
        requires
            Self::window_fits(window_width, window_height),
        ensures
            *final(self) == (GameState { window_width, window_height, ..*old(self) }),
    {
        self.window_width = window_width;
        self.window_height = window_height;
    }

    /// The player starts the run.
    pub fn start_run(&mut self)
        ensures
            *final(self) == old(self).started(),
    {
        self.game_started = true;
    }

    /// The player gives the run up: it is over, and no longer counts as started.
    pub fn concede(&mut self)
        ensures
            *final(self) == old(self).conceded(),
            final(self).phase() == Phase::GameOver,
    {
        self.game_over = true;
        self.game_started = false;
    }

    /// The submarine has hit something: the run is over.
    pub fn collide(&mut self)
        ensures
            *final(self) == old(self).collided(),
            final(self).phase() == Phase::GameOver,
    {
        self.game_over = true;
    }

    /// Counts one frame of play.
    pub fn tick(&mut self)
        requires
            old(self).fc < FRAME_LIMIT,
        ensures
            *final(self) == old(self).ticked(),
            final(self).fc == old(self).fc + 1,
    {
        self.fc = self.fc + 1;
    }

    /// Books the run that has just ended and returns to pregame.
    pub fn finish_run(&mut self)
        requires
            old(self).run_count < i32::MAX,
        ensures
            *final(self) == old(self).run_finished(),
            final(self).phase() == Phase::Pregame,
    {
        if self.fc > self.high_score {
            self.high_score = self.fc;
        }
        self.run_count = self.run_count + 1;
        self.fc = 0;
        self.game_started = false;
        self.game_over = false;
    }
}

/// The largest of `floor` and the members of `scores`.
pub open spec fn max_score(floor: int, scores: Seq<i64>) -> int
    decreases scores.len(),
{
    if scores.len() == 0 {
        floor
    } else {
        let rest = max_score(floor, scores.drop_last());
        if scores.last() > rest {
            scores.last() as int
        } else {
            rest
        }
    }
}

/// `max_score` is an upper bound of the floor and of every member, and is one of them.
pub proof fn lemma_max_score_is_max(floor: int, scores: Seq<i64>)
    ensures
        floor <= max_score(floor, scores),
        forall|i: int| 0 <= i < scores.len() ==> scores[i] <= max_score(floor, scores),
        max_score(floor, scores) == floor || exists|i: int|
            0 <= i < scores.len() && scores[i] == max_score(floor, scores),
    decreases scores.len(),
{
    if scores.len() > 0 {
        let init = scores.drop_last();
        lemma_max_score_is_max(floor, init);
        assert forall|i: int| 0 <= i < scores.len() implies scores[i] <= max_score(
            floor,
            scores,
        ) by {
            if i < init.len() {
                assert(init[i] == scores[i]);
            }
        }
        if max_score(floor, scores) != floor {
            if scores.last() > max_score(floor, init) {
                assert(scores[scores.len() - 1] == max_score(floor, scores));
            } else {
                let i = choose|i: int| 0 <= i < init.len() && init[i] == max_score(floor, init);
                assert(scores[i] == max_score(floor, scores));
            }
        }
    }
}

/// During play the frame counter goes up by exactly one per frame: `n`
/// frames after any state it stands `n` higher, and nothing else has changed.
pub proof fn lemma_frame_counter_counts(s: GameState, n: nat)
    requires
        s.fc + n <= FRAME_LIMIT,
    ensures
        s.ticked_n(n).fc == s.fc + n,
        s.ticked_n(n) == (GameState { fc: (s.fc + n) as i64, ..s }),
    decreases n,
{
    if n > 0 {
        lemma_frame_counter_counts(s, (n - 1) as nat);
    }
}

/// The frame counter is reset exactly on entry into pregame: booking a run
/// puts the game into pregame with the counter at zero, whatever it was, and
/// of the other transitions none enters pregame or touches the counter but
/// the frame tick, which adds one.
pub proof fn lemma_frame_counter_resets(s: GameState)
    requires
        s.fc < FRAME_LIMIT,
    ensures
        s.run_finished().phase() == Phase::Pregame,
        s.run_finished().fc == 0,
        s.started().fc == s.fc,
        s.conceded().fc == s.fc,
        s.collided().fc == s.fc,
        s.ticked().fc == s.fc + 1,
        s.phase() != Phase::Pregame ==> {
            &&& s.started().phase() != Phase::Pregame
            &&& s.conceded().phase() != Phase::Pregame
            &&& s.collided().phase() != Phase::Pregame
            &&& s.ticked().phase() != Phase::Pregame
        },
{
}

/// Over any sequence of runs the high score never goes down, and it ends as
/// the largest of its starting value and the scores at which the runs ended.
pub proof fn lemma_high_score(s: GameState, scores: Seq<i64>)
    ensures
        s.after_runs(scores).high_score == max_score(s.high_score as int, scores),
        s.high_score <= s.after_runs(scores).high_score,
        forall|k: int|
            0 <= k <= scores.len() ==> (#[trigger] s.after_runs(scores.take(k))).high_score
                <= s.after_runs(scores).high_score,
    decreases scores.len(),
{
    lemma_max_score_is_max(s.high_score as int, scores);
    if scores.len() == 0 {
        assert forall|k: int| 0 <= k <= scores.len() implies (#[trigger] s.after_runs(
            scores.take(k),
        )).high_score <= s.after_runs(scores).high_score by {
            assert(scores.take(k) =~= scores);
        }
    } else {
        let init = scores.drop_last();
        lemma_high_score(s, init);
        assert forall|k: int| 0 <= k <= scores.len() implies (#[trigger] s.after_runs(
            scores.take(k),
        )).high_score <= s.after_runs(scores).high_score by {
            if k == scores.len() {
                assert(scores.take(k) =~= scores);
            } else {
                assert(scores.take(k) =~= init.take(k));
            }
        }
    }
}

} // verus!
