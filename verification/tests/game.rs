use flappydive::actors::pipe::Pipe;
use flappydive::actors::sub::{Sub, CAPSIZED};
use flappydive::draw::{DrawCommand, Label, Size, SpriteId, SpriteSizes};
use flappydive::game::{
    collision_detected, pregame_label, Flow, Game, InputEvent, Key, MAX_BUBBLES,
};
use flappydive::actors::pipe::Pipes;
use flappydive::geometry::Rect;
use flappydive::state::Phase;
use flappydive::theme::{color_theme, grayscale_theme, theme, Theme};

fn sizes() -> SpriteSizes {
    SpriteSizes {
        pipe_body: Size { w: 50, h: 600 },
        pipe_cap: Size { w: 84, h: 40 },
        bubbles: vec![Size { w: 8, h: 8 }, Size { w: 12, h: 12 }, Size { w: 20, h: 20 }],
        fauna: vec![Size { w: 64, h: 32 }],
    }
}

fn assert_tinted(g: &Game, t: &Theme) {
    assert_eq!(g.actors.sub.tint, t.sub);
    assert_eq!(g.actors.bubbles.tint, t.bubbles);
    assert_eq!(g.actors.pipes.tint, t.pipes);
    assert_eq!(g.actors.background.tint, t.fauna_color_1);
}

fn started() -> Game {
    let mut g = Game::new(800, 600, 3, 1);
    assert_eq!(g.pregame_event(InputEvent::KeyDown(Key::Space)), Flow::Start);
    g
}

#[test]
fn new_game_is_in_pregame_and_themed() {
    let g = Game::new(800, 600, 3, 1);
    assert_eq!(g.state.current_phase(), Phase::Pregame);
    assert_eq!(g.state.fc, 0);
    assert_eq!(g.actors.bubbles.bubbles.len(), MAX_BUBBLES);
    assert_eq!(MAX_BUBBLES, 15);
    assert!(g.actors.pipes.pipes.is_empty());
    assert!(g.actors.background.objects.is_empty());
    assert_eq!(g.actors.background.sand_highlights.len(), 100);
    assert_eq!(g.actors.sub, Sub { tint: color_theme().sub, ..Sub::new(100, 100) });
    assert_tinted(&g, &color_theme());
}

#[test]
fn quit_changes_nothing_in_either_phase() {
    let mut g = Game::new(800, 600, 3, 1);
    let sub = g.actors.sub;
    assert_eq!(g.pregame_event(InputEvent::Quit), Flow::Quit);
    assert_eq!(g.state.current_phase(), Phase::Pregame);
    assert_eq!(g.actors.sub, sub);
    let mut g = started();
    g.begin_tick();
    assert_eq!(g.playing_event(InputEvent::Quit), Flow::Quit);
    assert_eq!(g.state.current_phase(), Phase::Playing);
    assert_eq!(g.state.fc, 1);
    assert_eq!(g.actors.sub, sub);
}

#[test]
fn space_starts_the_run() {
    let g = started();
    assert_eq!(g.state.current_phase(), Phase::Playing);
    assert!(g.state.game_started);
    assert_eq!(g.state.fc, 0);
}

#[test]
fn other_keys_are_ignored() {
    let mut g = Game::new(800, 600, 3, 1);
    assert_eq!(g.pregame_event(InputEvent::KeyDown(Key::Other)), Flow::Continue);
    assert_eq!(g.pregame_event(InputEvent::KeyDown(Key::Concede)), Flow::Continue);
    assert_eq!(g.state.current_phase(), Phase::Pregame);
    assert_eq!(g.state.theme.index(), 0);
    let mut g = started();
    assert_eq!(g.playing_event(InputEvent::KeyDown(Key::Other)), Flow::Continue);
    assert_eq!(g.state.current_phase(), Phase::Playing);
    assert_eq!(g.actors.sub.velocity, 0);
}

#[test]
fn theme_key_retints_every_actor() {
    let mut g = Game::new(800, 600, 3, 1);
    let bubbles = g.actors.bubbles.bubbles.clone();
    assert_eq!(g.pregame_event(InputEvent::KeyDown(Key::ThemeCycle)), Flow::Continue);
    assert_eq!(g.state.theme.index(), 1);
    assert_tinted(&g, &grayscale_theme());
    assert_eq!(g.actors.bubbles.bubbles, bubbles);
    assert_eq!(g.state.current_phase(), Phase::Pregame);
    let mut g = started();
    g.playing_event(InputEvent::KeyDown(Key::ThemeCycle));
    g.playing_event(InputEvent::KeyDown(Key::ThemeCycle));
    assert_eq!(g.state.theme.index(), 2);
    assert_tinted(&g, &theme());
    assert_eq!(g.state.current_phase(), Phase::Playing);
    g.playing_event(InputEvent::KeyDown(Key::ThemeCycle));
    g.playing_event(InputEvent::KeyDown(Key::ThemeCycle));
    assert_tinted(&g, &color_theme());
}

#[test]
fn space_during_play_is_a_jump() {
    let mut g = started();
    for _ in 0..20 {
        g.begin_tick();
        g.update();
    }
    let y = g.actors.sub.y;
    assert_eq!(g.playing_event(InputEvent::KeyDown(Key::Space)), Flow::Continue);
    assert_eq!(g.actors.sub.velocity, -5000);
    assert_eq!(g.actors.sub.y, y);
    assert_eq!(g.state.current_phase(), Phase::Playing);
}

#[test]
fn concede_ends_the_run() {
    let mut g = started();
    g.begin_tick();
    assert_eq!(g.playing_event(InputEvent::KeyDown(Key::Concede)), Flow::Continue);
    assert_eq!(g.state.current_phase(), Phase::GameOver);
    assert!(!g.state.game_started);
    assert!(!g.update());
    assert_eq!(g.actors.sub.angle, CAPSIZED);
    assert_eq!(g.actors.sub.y, 100);
}

#[test]
fn frame_counter_counts_ticks_and_restarts_in_pregame() {
    let mut g = started();
    for n in 1..=40i64 {
        g.begin_tick();
        assert_eq!(g.state.fc, n);
        g.update();
        assert_eq!(g.state.fc, n);
    }
    g.playing_event(InputEvent::KeyDown(Key::Concede));
    assert_eq!(g.state.fc, 40);
    g.finish_run();
    assert_eq!(g.state.current_phase(), Phase::Pregame);
    assert_eq!(g.state.fc, 0);
    assert_eq!(g.state.high_score, 40);
    assert_eq!(g.state.run_count, 1);
    for _ in 0..30 {
        g.update();
        assert_eq!(g.state.fc, 0);
    }
}

#[test]
fn ten_ticks_of_play_without_input() {
    let mut g = started();
    for _ in 0..10 {
        g.begin_tick();
        assert!(!g.update());
    }
    assert_eq!(g.actors.sub.velocity, 2000);
    assert_eq!(g.actors.sub.y, 107);
    assert_eq!(g.state.fc, 10);
}

#[test]
fn first_pipe_enters_in_the_first_frame_of_play() {
    let mut g = started();
    g.begin_tick();
    g.update();
    assert_eq!(g.actors.pipes.pipes.len(), 1);
    assert_eq!(g.actors.pipes.pipes[0].x, 797);
    let next = g.actors.pipes.next_pipe_at;
    assert!(76 <= next && next < 201);
}

#[test]
fn no_pipes_in_pregame() {
    let mut g = Game::new(800, 600, 3, 1);
    for _ in 0..300 {
        assert!(!g.update());
        assert!(g.actors.pipes.pipes.is_empty());
        assert_eq!(g.actors.sub.y, 100);
        assert_eq!(g.actors.sub.velocity, 0);
    }
    assert_eq!(g.actors.sub.angle, 300 * 40_000 - 6_283_185);
    assert!(g.actors.bubbles.bubbles.len() <= 15);
}

#[test]
fn an_idle_sub_sinks_until_the_run_ends() {
    let mut g = started();
    let mut ticks = 0;
    loop {
        g.begin_tick();
        ticks += 1;
        if g.update() {
            break;
        }
        assert_eq!(g.state.current_phase(), Phase::Playing);
        assert!(g.actors.sub.y + 45 <= 600);
        assert!(ticks < 1000);
    }
    assert_eq!(g.state.current_phase(), Phase::GameOver);
    assert!(g.state.game_started);
    assert_eq!(g.state.fc, ticks);
    let hit_pipe = g
        .actors
        .pipes
        .get_bounding_boxes()
        .iter()
        .any(|b| b.has_intersection(&Rect::new(100, g.actors.sub.y, 50, 45)));
    assert!(hit_pipe || g.actors.sub.y + 45 > 600);
    g.finish_run();
    assert_eq!(g.state.high_score, ticks);
    assert_eq!(g.actors.sub, Sub { tint: color_theme().sub, ..Sub::new(100, 100) });
    assert!(g.actors.pipes.pipes.is_empty());
    assert_eq!(g.actors.pipes.next_pipe_at, 0);
}

#[test]
fn a_sub_that_keeps_jumping_leaves_at_the_top() {
    let mut g = started();
    let mut ticks = 0;
    loop {
        g.begin_tick();
        g.playing_event(InputEvent::KeyDown(Key::Space));
        ticks += 1;
        if g.update() {
            break;
        }
        assert!(g.actors.sub.y >= 0);
        assert!(ticks < 1000);
    }
    assert!(g.actors.sub.y < 0 || !g.actors.pipes.pipes.is_empty());
    assert_eq!(g.state.current_phase(), Phase::GameOver);
}

#[test]
fn finish_run_keeps_bubbles_and_backdrop() {
    let mut g = started();
    for _ in 0..50 {
        g.begin_tick();
        g.update();
    }
    g.playing_event(InputEvent::KeyDown(Key::Concede));
    g.update();
    let bubbles = g.actors.bubbles.bubbles.clone();
    let speckles = g.actors.background.sand_highlights.clone();
    let objects = g.actors.background.objects.clone();
    g.finish_run();
    assert_eq!(g.actors.bubbles.bubbles, bubbles);
    assert_eq!(g.actors.background.sand_highlights, speckles);
    assert_eq!(g.actors.background.objects, objects);
    assert_eq!(g.actors.sub.angle, 0);
}

#[test]
fn high_score_over_several_runs() {
    let mut g = Game::new(800, 600, 3, 1);
    let mut best = 0;
    for ticks in [5i64, 9, 3, 9, 12, 1] {
        assert_eq!(g.pregame_event(InputEvent::KeyDown(Key::Space)), Flow::Start);
        for _ in 0..ticks {
            g.begin_tick();
            g.playing_event(InputEvent::KeyDown(Key::Space));
            assert!(!g.update());
        }
        g.playing_event(InputEvent::KeyDown(Key::Concede));
        let before = g.state.high_score;
        g.finish_run();
        best = best.max(ticks);
        assert!(g.state.high_score >= before);
        assert_eq!(g.state.high_score, best);
    }
    assert_eq!(g.state.run_count, 6);
}

#[test]
fn collision_with_the_window_edges() {
    let pipes = Pipes::new(&theme());
    assert!(!collision_detected(&Sub::new(100, 0), &pipes, 600));
    assert!(collision_detected(&Sub::new(100, -1), &pipes, 600));
    assert!(!collision_detected(&Sub::new(100, 555), &pipes, 600));
    assert!(collision_detected(&Sub::new(100, 556), &pipes, 600));
}

#[test]
fn collision_with_pipes() {
    let mut pipes = Pipes::new(&theme());
    pipes.spawn(Pipe::new(140, 200, 400), 0);
    // hit boxes: x 135..195, y 0..220 and y 400..1000
    assert!(!collision_detected(&Sub::new(100, 220), &pipes, 600));
    assert!(collision_detected(&Sub::new(100, 219), &pipes, 600));
    assert!(!collision_detected(&Sub::new(100, 355), &pipes, 600));
    assert!(collision_detected(&Sub::new(100, 356), &pipes, 600));
    assert!(!collision_detected(&Sub::new(85, 100), &pipes, 600));
    assert!(collision_detected(&Sub::new(86, 100), &pipes, 600));
    assert!(collision_detected(&Sub::new(194, 100), &pipes, 600));
    assert!(!collision_detected(&Sub::new(195, 100), &pipes, 600));
}

#[test]
fn pregame_labels() {
    assert_eq!(pregame_label(0), Label::PressSpace);
    assert_eq!(pregame_label(1), Label::YouSunk);
    assert_eq!(pregame_label(7), Label::YouSunk);
}

#[test]
fn pregame_frame_layers() {
    let mut g = Game::new(800, 600, 3, 1);
    g.update();
    let cmds = g.pregame_frame(&sizes(), 4);
    assert_eq!(
        cmds.len(),
        2 + 100 + g.actors.background.objects.len() + 1 + g.actors.bubbles.bubbles.len() + 1
    );
    assert_eq!(cmds[0], DrawCommand::Clear { color: color_theme().water });
    let after_backdrop = 102 + g.actors.background.objects.len();
    assert_eq!(
        cmds[after_backdrop],
        DrawCommand::Sprite {
            sprite: SpriteId::Submarine,
            tint: color_theme().sub,
            dest: Rect { x: 100, y: 104, w: 50, h: 45 },
            rotation: 0,
            flip_h: false,
            flip_v: false,
        }
    );
    assert!(matches!(
        cmds[after_backdrop + 1],
        DrawCommand::Sprite { sprite: SpriteId::Bubble(_), .. }
    ));
    assert_eq!(
        cmds[cmds.len() - 1],
        DrawCommand::Text {
            label: Label::PressSpace,
            color: color_theme().text,
            dest: Rect { x: 250, y: 100, w: 300, h: 60 },
        }
    );
}

#[test]
fn playing_frame_layers() {
    let mut g = started();
    for _ in 0..3 {
        g.begin_tick();
        g.update();
    }
    g.playing_event(InputEvent::KeyDown(Key::ThemeCycle));
    let cmds = g.playing_frame(&sizes(), 0);
    let backdrop = 102 + g.actors.background.objects.len();
    assert_eq!(cmds.len(), backdrop + 4 + 1 + g.actors.bubbles.bubbles.len() + 1);
    assert_eq!(cmds[0], DrawCommand::Clear { color: grayscale_theme().water });
    let pipe = g.actors.pipes.pipes[0];
    assert_eq!(pipe.x, 800 - 9);
    assert_eq!(
        cmds[backdrop],
        DrawCommand::Sprite {
            sprite: SpriteId::PipeBody,
            tint: grayscale_theme().pipes,
            dest: Rect { x: 791, y: 0, w: 50, h: pipe.top_offset as u32 },
            rotation: 0,
            flip_h: false,
            flip_v: true,
        }
    );
    assert_eq!(
        cmds[backdrop + 4],
        DrawCommand::Sprite {
            sprite: SpriteId::Submarine,
            tint: grayscale_theme().sub,
            dest: Rect { x: 100, y: 100, w: 50, h: 45 },
            rotation: 600,
            flip_h: false,
            flip_v: false,
        }
    );
    assert_eq!(
        cmds[cmds.len() - 1],
        DrawCommand::Text {
            label: Label::Score { score: 3, high_score: 0 },
            color: grayscale_theme().text,
            dest: Rect { x: 20, y: 10, w: 300, h: 30 },
        }
    );
}

#[test]
fn pregame_frame_after_a_run_says_you_sunk() {
    let mut g = started();
    g.begin_tick();
    g.playing_event(InputEvent::KeyDown(Key::Concede));
    g.update();
    g.finish_run();
    let cmds = g.pregame_frame(&sizes(), 0);
    assert!(matches!(
        cmds[cmds.len() - 1],
        DrawCommand::Text { label: Label::YouSunk, .. }
    ));
}
