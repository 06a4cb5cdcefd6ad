//! The game as a whole: state and actors, and what each event and each frame
//! does to them. The embedding program runs the loop: it polls the input,
//! hands every event over, asks for one update per frame and paints the
//! commands it gets back.

use crate::actors::background::{Background, FIRST_FAUNA_BEFORE, SPECKLES};
use crate::actors::bubble::Bubbles;
use crate::actors::pipe::Pipes;
use crate::actors::score::Score;
use crate::actors::sub::Sub;
use crate::actors::Actors;
use crate::draw::{DrawCommand, Label, SpriteSizes};
use crate::geometry::Rect;
use crate::state::{GameState, Phase, FRAME_LIMIT};
use vstd::prelude::*;

verus! {

/// Number of bubbles on screen.
pub const MAX_BUBBLES: usize = 15;

/// Where the submarine starts.
pub const SUB_START_X: i32 = 100;

pub const SUB_START_Y: i32 = 100;

/// The keys that mean something to the game.
#[derive(Clone, Copy, Debug, PartialEq, Eq)]
pub enum Key {
    /// Start the run, or jump.
    Space,
    /// Switch to the next palette.
    ThemeCycle,
    /// Give the run up.
    Concede,
    /// Any other key.
    Other,
}

/// What the input source reports.
#[derive(Clone, Copy, Debug, PartialEq, Eq)]
pub enum InputEvent {
    /// The player wants to leave.
    Quit,
    KeyDown(Key),
}

/// What the embedding program is to do after an event.
#[derive(Clone, Copy, Debug, PartialEq, Eq)]
pub enum Flow {
    /// Carry on with the next event or the frame.
    Continue,
    /// Leave pregame at once and start playing.
    Start,
    /// Shut down in good order; nothing has been changed.
    Quit,
}

/// Whether a submarine filling `hit_box` has hit something: it sticks out of
/// the window at the top or at the bottom, or shares a pixel with an obstacle.
pub open spec fn collides(hit_box: Rect, obstacles: Seq<Rect>, window_height: int) -> bool {
    ||| hit_box.y < 0
    ||| hit_box.y + hit_box.h > window_height
    ||| exists|i: int| 0 <= i < obstacles.len() && (#[trigger] obstacles[i]).intersects(hit_box)
}

/// Whether the submarine, in level pose, has hit a pipe or left the window
/// at the top or at the bottom.
pub fn collision_detected(sub: &Sub, pipes: &Pipes, window_height: u32) -> (hit: bool)
    requires
        pipes.wf(),
    ensures
        hit == collides(sub.hit_box(0), pipes.hit_boxes(), window_height as int),
{
    let own = sub.get_bounding_boxes(0);
    let hit_box = own[0];
    if hit_box.y < 0 || hit_box.y as i64 + hit_box.h as i64 > window_height as i64 {
        return true;
    }
    let obstacles = pipes.get_bounding_boxes();
    let n = obstacles.len();
    let mut i: usize = 0;
    while i < n
        invariant
            i <= n,
            n == obstacles@.len(),
            obstacles@ == pipes.hit_boxes(),
            hit_box == sub.hit_box(0),
            0 <= hit_box.y,
            hit_box.y + hit_box.h <= window_height,
            forall|k: int| 0 <= k < i ==> !(#[trigger] obstacles@[k]).intersects(hit_box),
        decreases n - i,
    {
        if obstacles[i].has_intersection(&hit_box) {
            assert(pipes.hit_boxes()[i as int].intersects(hit_box));
            return true;
        }
        i = i + 1;
    }
    false
}

/// The invitation shown in pregame: one before the first run, another after a run.
pub open spec fn pregame_label_spec(run_count: i32) -> Label {
    if run_count == 0 {
        Label::PressSpace
    } else {
        Label::YouSunk
    }
}

/// The invitation shown in pregame.
#[verifier::when_used_as_spec(pregame_label_spec)]
pub fn pregame_label(run_count: i32) -> (label: Label)
    ensures
        label == pregame_label_spec(run_count),
{
    if run_count == 0 {
        Label::PressSpace
    } else {
        Label::YouSunk
    }
}

/// Where the invitation is written.
pub open spec fn title_place() -> Rect {
    Rect { x: 250, y: 100, w: 300, h: 60 }
}

/// The game: the shared state and the actors.
pub struct Game {
    pub state: GameState,
    pub actors: Actors,
}

impl Game {
    /// Validity: state and actors are valid, the actors wear the active
    /// palette, the submarine is steady and, as long as the run is not over,
    /// not above the window.
    pub open spec fn wf(&self) -> bool {
        &&& self.state.wf()
        &&& self.actors.wf()
        &&& self.actors.tinted_by(self.state.theme@.current())
        &&& self.actors.sub.steady()
        &&& self.state.phase() != Phase::GameOver ==> self.actors.sub.y >= 0
    }

    /// Whether a frame can be laid out with pictures of the given sizes and
    /// the submarine offset by `bob`.
    pub open spec fn can_draw(&self, sizes: &SpriteSizes, bob: i32) -> bool {
        &&& sizes.fauna@.len() == self.actors.background.texture_count
        &&& sizes.bubbles@.len() == self.actors.bubbles.texture_count
        &&& self.actors.sub.admits_bob(bob)
    }

    /// A frame of pregame, back to front: backdrop, submarine, bubbles, and
    /// the invitation in the text colour of the active palette.
    pub open spec fn pregame_scene(&self, sizes: &SpriteSizes, bob: i32) -> Seq<DrawCommand> {
        self.actors.background.frame(&self.state, sizes) + seq![self.actors.sub.picture(bob)]
            + self.actors.bubbles.frame(sizes) + seq![
            DrawCommand::Text {
                label: pregame_label(self.state.run_count),
                color: self.state.theme@.current().text,
                dest: title_place(),
            },
        ]
    }

    /// A frame of play, back to front: backdrop, pipes, submarine, bubbles,
    /// and the score line in the text colour of the active palette.
    pub open spec fn playing_scene(&self, sizes: &SpriteSizes, bob: i32) -> Seq<DrawCommand> {
        self.actors.background.frame(&self.state, sizes) + self.actors.pipes.frame(sizes) + seq![
            self.actors.sub.picture(bob),
        ] + self.actors.bubbles.frame(sizes) + seq![
            DrawCommand::Text {
                label: Label::Score { score: self.state.fc, high_score: self.state.high_score },
                color: self.state.theme@.current().text,
                dest: Score::place(),
            },
        ]
    }
}

impl Game {
    /// A new game for a window of the given size, with the given numbers of
    /// bubble and creature pictures: pregame, a full pool of bubbles, no
    /// pipes and no creatures yet, every actor in the active palette.
    pub fn new(
        window_width: u32,
        window_height: u32,
        bubble_textures: usize,
        fauna_textures: usize,
    ) -> (g: Self)
        requires
            GameState::window_fits(window_width, window_height),
            1 <= bubble_textures <= i64::MAX,
            1 <= fauna_textures <= i64::MAX,
        ensures
            g.wf(),
            g.state.phase() == Phase::Pregame,
            g.state.fc == 0,
            g.state.high_score == 0,
            g.state.run_count == 0,
            g.state.window_width == window_width,
            g.state.window_height == window_height,
            g.state.theme@.index == 0,
            g.actors.sub == (Sub {
                tint: g.state.theme@.current().sub,
                ..Sub::fresh(SUB_START_X, SUB_START_Y)
            }),
            g.actors.bubbles.bubbles@.len() == MAX_BUBBLES,
            g.actors.bubbles.max_bubbles == MAX_BUBBLES,
            g.actors.bubbles.texture_count == bubble_textures,
            forall|i: int|
                0 <= i < MAX_BUBBLES ==> (#[trigger] g.actors.bubbles.bubbles@[i]).fresh(
                    window_width as int,
                    window_height as int,
                    bubble_textures as int,
                ),
            g.actors.pipes.pipes@.len() == 0,
            g.actors.pipes.next_pipe_at == 0,
            g.actors.background.objects@.len() == 0,
            g.actors.background.texture_count == fauna_textures,
            g.actors.background.sand_highlights@.len() == SPECKLES,
            0 <= g.actors.background.new_object_at_fc < FIRST_FAUNA_BEFORE,
    {
        let state = GameState::new(window_width, window_height);
        let mut actors = Actors {
            sub: Sub::new(SUB_START_X, SUB_START_Y),
            bubbles: Bubbles::new(MAX_BUBBLES, bubble_textures, window_width, window_height),
            pipes: Pipes::new(state.theme.current()),
            background: Background::new(&state, fauna_textures),
            score: Score::new(),
        };
        actors.switch_theme(state.theme.current());
        Game { state, actors }
    }

    /// Moves on to the next palette and re-tints every actor.
    fn cycle_theme(&mut self)
        requires
            old(self).wf(),
        ensures
            final(self).wf(),
            final(self).state == (GameState { theme: final(self).state.theme, ..old(self).state }),
            final(self).state.theme@ == old(self).state.theme@.next(),
            final(self).actors == old(self).actors.themed(old(self).state.theme@.next().current()),
    {
        let theme = *self.state.theme.next();
        self.actors.switch_theme(&theme);
    }

    /// An event in pregame. Quit changes nothing and asks to shut down;
    /// space starts the run; the palette key moves on to the next palette
    /// and re-tints every actor; anything else is ignored.
    pub fn pregame_event(&mut self, event: InputEvent) -> (flow: Flow)
        requires
            old(self).wf(),
        ensures
            final(self).wf(),
            match event {
                InputEvent::Quit => flow == Flow::Quit && *final(self) == *old(self),
                InputEvent::KeyDown(Key::Space) => {
                    &&& flow == Flow::Start
                    &&& final(self).state == old(self).state.started()
                    &&& final(self).actors == old(self).actors
                },
                InputEvent::KeyDown(Key::ThemeCycle) => {
                    &&& flow == Flow::Continue
                    &&& final(self).state == (GameState {
                        theme: final(self).state.theme,
                        ..old(self).state
                    })
                    &&& final(self).state.theme@ == old(self).state.theme@.next()
                    &&& final(self).actors == old(self).actors.themed(
                        old(self).state.theme@.next().current(),
                    )
                },
                _ => flow == Flow::Continue && *final(self) == *old(self),
            },
    {
        match event {
            InputEvent::Quit => Flow::Quit,
            InputEvent::KeyDown(Key::Space) => {
                self.state.start_run();
                Flow::Start
            },
            InputEvent::KeyDown(Key::ThemeCycle) => {
                self.cycle_theme();
                Flow::Continue
            },
            _ => Flow::Continue,
        }
    }

    /// An event during play. Quit changes nothing and asks to shut down;
    /// space makes the submarine jump; the concede key ends the run; the
    /// palette key moves on to the next palette and re-tints every actor;
    /// anything else is ignored.
    pub fn playing_event(&mut self, event: InputEvent) -> (flow: Flow)
        requires
            old(self).wf(),
        ensures
            final(self).wf(),
            match event {
                InputEvent::Quit => flow == Flow::Quit && *final(self) == *old(self),
                InputEvent::KeyDown(Key::Space) => {
                    &&& flow == Flow::Continue
                    &&& final(self).state == old(self).state
                    &&& final(self).actors == (Actors {
                        sub: Sub {
                            velocity: old(self).actors.sub.jump_strength,
                            ..old(self).actors.sub
                        },
                        ..old(self).actors
                    })
                },
                InputEvent::KeyDown(Key::Concede) => {
                    &&& flow == Flow::Continue
                    &&& final(self).state == old(self).state.conceded()
                    &&& final(self).actors == old(self).actors
                },
                InputEvent::KeyDown(Key::ThemeCycle) => {
                    &&& flow == Flow::Continue
                    &&& final(self).state == (GameState {
                        theme: final(self).state.theme,
                        ..old(self).state
                    })
                    &&& final(self).state.theme@ == old(self).state.theme@.next()
                    &&& final(self).actors == old(self).actors.themed(
                        old(self).state.theme@.next().current(),
                    )
                },
                InputEvent::KeyDown(Key::Other) => flow == Flow::Continue && *final(self) == *old(
                    self,
                ),
            },
    {
        match event {
            InputEvent::Quit => Flow::Quit,
            InputEvent::KeyDown(Key::Space) => {
                self.actors.sub.jump();
                Flow::Continue
            },
            InputEvent::KeyDown(Key::Concede) => {
                self.state.concede();
                Flow::Continue
            },
            InputEvent::KeyDown(Key::ThemeCycle) => {
                self.cycle_theme();
                Flow::Continue
            },
            InputEvent::KeyDown(Key::Other) => Flow::Continue,
        }
    }

    /// Counts a frame of play: the frame counter goes up by one.
    pub fn begin_tick(&mut self)
        requires
            old(self).wf(),
            old(self).state.fc < FRAME_LIMIT,
        ensures
            final(self).wf(),
            final(self).state == old(self).state.ticked(),
            final(self).actors == old(self).actors,
    {
        self.state.tick();
    }

    /// One frame for every actor. During play the submarine is then looked
    /// at: where it has hit a pipe or left the window at the top or bottom,
    /// the run is over and `true` is returned. Before and after a run no
    /// collision is looked for.
    pub fn update(&mut self) -> (collided: bool)
        requires
            old(self).wf(),
        ensures
            final(self).wf(),
            final(self).actors.follows(&old(self).actors, &old(self).state),
            collided == (old(self).state.phase() == Phase::Playing && collides(
                final(self).actors.sub.hit_box(0),
                final(self).actors.pipes.hit_boxes(),
                old(self).state.window_height as int,
            )),
            final(self).state == if collided {
                old(self).state.collided()
            } else {
                old(self).state
            },
    {
        self.actors.update(&self.state);
        let playing = self.state.game_started && !self.state.game_over;
        if playing && collision_detected(
            &self.actors.sub,
            &self.actors.pipes,
            self.state.window_height,
        ) {
            self.state.collide();
            true
        } else {
            false
        }
    }

    /// Books the run that has ended and makes everything ready for the next:
    /// the high score takes in the score, the run is counted, the frame
    /// counter is back at zero, the game is in pregame, the submarine is at
    /// its start and the pipes are gone.
    pub fn finish_run(&mut self)
        requires
            old(self).wf(),
            old(self).state.run_count < i32::MAX,
        ensures
            final(self).wf(),
            final(self).state == old(self).state.run_finished(),
            final(self).actors.is_reset_of(&old(self).actors),
    {
        self.state.finish_run();
        self.actors.reset();
    }

    /// The draw commands of a frame of pregame; see `pregame_scene`.
    pub fn pregame_frame(&self, sizes: &SpriteSizes, bob: i32) -> (cmds: Vec<DrawCommand>)
        requires
            self.wf(),
            self.can_draw(sizes, bob),
        ensures
            cmds@ == self.pregame_scene(sizes, bob),
    {
        let mut cmds = self.actors.background.render(&self.state, sizes);
        cmds.push(self.actors.sub.render(bob));
        let mut bubbles = self.actors.bubbles.render(sizes);
        cmds.append(&mut bubbles);
        cmds.push(
            DrawCommand::Text {
                label: pregame_label(self.state.run_count),
                color: self.state.theme.current().text,
                dest: Rect::new(250, 100, 300, 60),
            },
        );
        assert(cmds@ =~= self.pregame_scene(sizes, bob));
        cmds
    }

    /// The draw commands of a frame of play; see `playing_scene`.
    pub fn playing_frame(&self, sizes: &SpriteSizes, bob: i32) -> (cmds: Vec<DrawCommand>)
        requires
            self.wf(),
            self.can_draw(sizes, bob),
            self.actors.pipes.drawable(sizes),
        ensures
            cmds@ == self.playing_scene(sizes, bob),
    {
        let mut cmds = self.actors.background.render(&self.state, sizes);
        let mut pipes = self.actors.pipes.render(sizes);
        cmds.append(&mut pipes);
        cmds.push(self.actors.sub.render(bob));
        let mut bubbles = self.actors.bubbles.render(sizes);
        cmds.append(&mut bubbles);
        cmds.push(self.actors.score.render(&self.state));
        assert(cmds@ =~= self.playing_scene(sizes, bob));
        cmds
    }
}

} // verus!
