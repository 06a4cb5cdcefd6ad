use flappydive::actors::pipe::{Pipe, Pipes};
use flappydive::draw::{DrawCommand, Size, SpriteId, SpriteSizes};
use flappydive::geometry::Rect;
use flappydive::state::GameState;
use flappydive::theme::{grayscale_theme, theme, theme_2};

fn sizes() -> SpriteSizes {
    SpriteSizes {
        pipe_body: Size { w: 50, h: 600 },
        pipe_cap: Size { w: 84, h: 40 },
        bubbles: vec![Size { w: 8, h: 8 }],
        fauna: vec![Size { w: 64, h: 32 }],
    }
}

#[test]
fn pipe_new_stores_its_fields() {
    let p = Pipe::new(800, 120, 300);
    assert_eq!(p, Pipe { x: 800, top_offset: 120, bottom_offset: 300 });
}

#[test]
fn pipe_from_hole_places_the_gap() {
    let p = Pipe::from_hole(640, 90, 175);
    assert_eq!(p, Pipe { x: 640, top_offset: 90, bottom_offset: 265 });
}

#[test]
fn pipe_update_moves_left() {
    let mut p = Pipe::new(10, 100, 300);
    p.update(3);
    assert_eq!(p.x, 7);
    p.update(60);
    assert_eq!(p.x, -53);
    assert_eq!((p.top_offset, p.bottom_offset), (100, 300));
}

#[test]
fn pipe_is_finished_left_of_minus_fifty() {
    assert!(!Pipe::new(-50, 100, 300).finished());
    assert!(Pipe::new(-51, 100, 300).finished());
    assert!(!Pipe::new(0, 100, 300).finished());
}

#[test]
fn new_pipes_are_empty_and_due_at_once() {
    let p = Pipes::new(&theme());
    assert!(p.pipes.is_empty());
    assert_eq!(p.next_pipe_at, 0);
    assert_eq!(p.tint, (129, 199, 132));
}

#[test]
fn generated_pipe_fits_the_window() {
    let pipes = Pipes::new(&theme());
    for h in [350u32, 351, 400, 600, 1080, 100_000] {
        for _ in 0..200 {
            let p = pipes.generate(800, h);
            assert_eq!(p.x, 800);
            assert!(p.top_offset >= 50);
            assert!(p.bottom_offset <= h as i32 - 50);
            let gap = p.bottom_offset - p.top_offset;
            assert!(150 <= gap && gap < 250);
        }
    }
}

#[test]
fn generated_pipes_vary() {
    let pipes = Pipes::new(&theme());
    let first = pipes.generate(800, 600);
    let mut differs = false;
    for _ in 0..400 {
        let p = pipes.generate(800, 600);
        if p != first {
            differs = true;
        }
    }
    assert!(differs);
}

#[test]
fn generated_pipes_do_not_all_sit_at_the_lower_bounds() {
    let pipes = Pipes::new(&theme());
    let mut off_low_top = false;
    let mut off_low_gap = false;
    for _ in 0..400 {
        let p = pipes.generate(800, 600);
        if p.top_offset != 50 {
            off_low_top = true;
        }
        if p.bottom_offset - p.top_offset != 150 {
            off_low_gap = true;
        }
    }
    assert!(off_low_top && off_low_gap);
}

#[test]
fn spawn_appends_and_schedules() {
    let mut p = Pipes::new(&theme());
    p.spawn(Pipe::new(800, 100, 300), 90);
    p.spawn(Pipe::new(900, 60, 250), 180);
    assert_eq!(p.pipes, vec![Pipe::new(800, 100, 300), Pipe::new(900, 60, 250)]);
    assert_eq!(p.next_pipe_at, 180);
}

#[test]
fn advance_moves_and_drops() {
    let mut p = Pipes::new(&theme());
    p.spawn(Pipe::new(-48, 100, 300), 0);
    p.spawn(Pipe::new(-47, 110, 310), 0);
    p.spawn(Pipe::new(400, 120, 320), 0);
    p.advance(3);
    assert_eq!(p.pipes, vec![Pipe::new(-50, 110, 310), Pipe::new(397, 120, 320)]);
}

#[test]
fn advance_at_huge_speed_drops_everything() {
    let mut p = Pipes::new(&theme());
    p.spawn(Pipe::new(-50, 100, 300), 0);
    p.spawn(Pipe::new(i32::MAX, 100, 300), 0);
    p.advance(i32::MAX);
    assert_eq!(p.pipes, vec![Pipe::new(0, 100, 300)]);
    p.advance(i32::MAX);
    assert!(p.pipes.is_empty());
}

#[test]
fn pipe_spawned_at_800_is_gone_by_tick_284() {
    let state = GameState::new(800, 600);
    assert_eq!(state.x_speed, 3);
    let mut p = Pipes::new(&theme());
    p.spawn(Pipe::new(800, 100, 300), 1_000_000);
    for tick in 1..=300 {
        p.update(&state);
        if tick < 284 {
            assert_eq!(p.pipes.len(), 1, "tick {}", tick);
            assert_eq!(p.pipes[0].x, 800 - 3 * tick);
        } else {
            assert!(p.pipes.is_empty(), "tick {}", tick);
        }
    }
    assert_eq!(p.next_pipe_at, 1_000_000);
}

#[test]
fn update_spawns_when_due_and_schedules_the_next() {
    let mut state = GameState::new(800, 600);
    state.start_run();
    state.fc = 1;
    let mut p = Pipes::new(&theme());
    p.update(&state);
    assert_eq!(p.pipes.len(), 1);
    assert_eq!(p.pipes[0].x, 797);
    assert!(p.pipes[0].top_offset >= 50 && p.pipes[0].bottom_offset <= 550);
    assert!(1 + 75 <= p.next_pipe_at && p.next_pipe_at < 1 + 200);
}

#[test]
fn update_does_not_spawn_before_its_time() {
    let mut state = GameState::new(800, 600);
    state.fc = 90;
    let mut p = Pipes::new(&theme());
    p.spawn(Pipe::new(500, 100, 300), 90);
    p.update(&state);
    assert_eq!(p.pipes, vec![Pipe::new(497, 100, 300)]);
    assert_eq!(p.next_pipe_at, 90);
    state.fc = 91;
    p.update(&state);
    assert_eq!(p.pipes.len(), 2);
    assert_eq!(p.pipes[0], Pipe::new(494, 100, 300));
}

#[test]
fn spawned_pipe_enters_at_the_right_window_edge() {
    let mut state = GameState::new(1024, 768);
    state.fc = 5;
    state.x_speed = 0;
    let mut p = Pipes::new(&theme());
    p.update(&state);
    assert_eq!(p.pipes[0].x, 1024);
    assert!(p.pipes[0].bottom_offset <= 718);
}

#[test]
fn pipes_switch_theme_changes_only_the_tint() {
    let mut p = Pipes::new(&theme());
    p.spawn(Pipe::new(500, 100, 300), 90);
    p.switch_theme(&grayscale_theme());
    assert_eq!(p.tint, (161, 161, 161));
    assert_eq!(p.pipes, vec![Pipe::new(500, 100, 300)]);
    assert_eq!(p.next_pipe_at, 90);
    p.switch_theme(&grayscale_theme());
    assert_eq!(p.tint, (161, 161, 161));
    p.switch_theme(&theme_2());
    assert_eq!(p.tint, (84, 153, 124));
}

#[test]
fn pipes_reset_clears_and_reschedules() {
    let mut p = Pipes::new(&theme());
    p.spawn(Pipe::new(500, 100, 300), 90);
    p.reset();
    assert!(p.pipes.is_empty());
    assert_eq!(p.next_pipe_at, 0);
    assert_eq!(p.tint, theme().pipes);
}

#[test]
fn pipe_hit_boxes() {
    let mut p = Pipes::new(&theme());
    p.spawn(Pipe::new(500, 100, 300), 0);
    p.spawn(Pipe::new(700, 60, 220), 0);
    assert_eq!(
        p.get_bounding_boxes(),
        vec![
            Rect { x: 495, y: 0, w: 60, h: 120 },
            Rect { x: 495, y: 300, w: 60, h: 600 },
            Rect { x: 695, y: 0, w: 60, h: 80 },
            Rect { x: 695, y: 220, w: 60, h: 600 },
        ]
    );
}

#[test]
fn pipes_render_four_pictures_per_pipe() {
    let mut p = Pipes::new(&theme());
    p.spawn(Pipe::new(500, 100, 300), 0);
    let tint = theme().pipes;
    let cmds = p.render(&sizes());
    let sprite = |sprite, dest, flip_v| DrawCommand::Sprite {
        sprite,
        tint,
        dest,
        rotation: 0,
        flip_h: false,
        flip_v,
    };
    assert_eq!(
        cmds,
        vec![
            sprite(SpriteId::PipeBody, Rect { x: 500, y: 0, w: 50, h: 100 }, true),
            sprite(SpriteId::PipeCap, Rect { x: 493, y: 90, w: 64, h: 30 }, true),
            sprite(SpriteId::PipeBody, Rect { x: 500, y: 300, w: 50, h: 350 }, false),
            sprite(SpriteId::PipeCap, Rect { x: 493, y: 300, w: 64, h: 30 }, false),
        ]
    );
}

#[test]
fn pipes_render_nothing_without_pipes() {
    let p = Pipes::new(&theme());
    assert!(p.render(&sizes()).is_empty());
    assert!(p.get_bounding_boxes().is_empty());
}
