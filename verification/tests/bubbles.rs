use flappydive::actors::bubble::{Bubble, Bubbles};
use flappydive::draw::{DrawCommand, Size, SpriteId, SpriteSizes};
use flappydive::geometry::Rect;
use flappydive::state::GameState;
use flappydive::theme::{color_theme, theme_2};

fn sizes() -> SpriteSizes {
    SpriteSizes {
        pipe_body: Size { w: 50, h: 600 },
        pipe_cap: Size { w: 84, h: 40 },
        bubbles: vec![Size { w: 8, h: 8 }, Size { w: 12, h: 13 }, Size { w: 20, h: 21 }],
        fauna: vec![Size { w: 64, h: 32 }],
    }
}

fn bubble(x_px: i64, y_px: i64) -> Bubble {
    Bubble::new(x_px * 1000, y_px * 1000, -20_000, -1000, 0)
}

fn check_fresh(b: &Bubble, w: i64, h: i64, textures: usize) {
    assert!(0 <= b.x && b.x < (w + 300) * 1000);
    assert_eq!(b.x % 1000, 0);
    assert_eq!(b.y, h * 1000);
    assert!(-20_000 <= b.max_y && b.max_y < (h / 2) * 1000);
    assert_eq!(b.max_y % 1000, 0);
    assert!(-3000 <= b.velocity_y && b.velocity_y < -500);
    assert!(b.texture_idx < textures);
}

#[test]
fn bubble_new_stores_its_fields() {
    let b = Bubble::new(1, 2, 3, 4, 5);
    assert_eq!(b, Bubble { x: 1, y: 2, max_y: 3, velocity_y: 4, texture_idx: 5 });
}

#[test]
fn bubble_from_draws_floors_the_pop_height() {
    let b = Bubble::from_draws(17, 600, -150, -2500, 2);
    assert_eq!(
        b,
        Bubble { x: 17_000, y: 600_000, max_y: -20_000, velocity_y: -2500, texture_idx: 2 }
    );
    assert_eq!(Bubble::from_draws(17, 600, -20, -700, 0).max_y, -20_000);
    assert_eq!(Bubble::from_draws(17, 600, -19, -700, 0).max_y, -19_000);
    assert_eq!(Bubble::from_draws(0, 600, 299, -700, 1).max_y, 299_000);
}

#[test]
fn bubble_finishes_when_popped_or_out() {
    assert!(!Bubble::new(0, 100, 100, -1000, 0).finished());
    assert!(Bubble::new(0, 99, 100, -1000, 0).finished());
    assert!(Bubble::new(-1, 500, 100, -1000, 0).finished());
    assert!(!Bubble::new(5, 500, 100, -1000, 0).finished());
}

#[test]
fn bubble_update_rises_and_drifts() {
    let mut b = Bubble::new(10_000, 600_000, 100_000, -2750, 1);
    b.update(3);
    assert_eq!(
        b,
        Bubble { x: 7_000, y: 597_250, max_y: 100_000, velocity_y: -2750, texture_idx: 1 }
    );
}

#[test]
fn new_pool_is_full_of_fresh_bubbles() {
    let p = Bubbles::new(15, 3, 800, 600);
    assert_eq!(p.bubbles.len(), 15);
    assert_eq!(p.max_bubbles, 15);
    assert_eq!(p.texture_count, 3);
    assert_eq!(p.tint, (255, 255, 255));
    for b in &p.bubbles {
        check_fresh(b, 800, 600, 3);
    }
}

#[test]
fn empty_pool_is_possible() {
    let mut p = Bubbles::new(0, 1, 800, 600);
    assert!(p.bubbles.is_empty());
    p.update(&GameState::new(800, 600));
    assert!(p.bubbles.is_empty());
}

#[test]
fn generated_bubbles_are_fresh_and_vary() {
    let p = Bubbles::new(0, 3, 800, 600);
    let first = p.generate(800, 600);
    let mut differs = false;
    let mut x_above_low = false;
    let mut idx_above_low = false;
    for _ in 0..500 {
        let b = p.generate(800, 600);
        check_fresh(&b, 800, 600, 3);
        differs |= b != first;
        x_above_low |= b.x != 0;
        idx_above_low |= b.texture_idx != 0;
    }
    assert!(differs && x_above_low && idx_above_low);
}

#[test]
fn generated_bubble_in_a_flat_window() {
    let p = Bubbles::new(0, 1, 0, 0);
    for _ in 0..50 {
        let b = p.generate(0, 0);
        assert_eq!(b.y, 0);
        assert!(-20_000 <= b.max_y && b.max_y < 0);
        assert!(0 <= b.x && b.x < 300_000);
        assert!(!b.finished());
    }
}

#[test]
fn top_up_adds_only_when_short() {
    let mut p = Bubbles::new(2, 1, 800, 600);
    let full = p.bubbles.clone();
    p.top_up(bubble(5, 5));
    assert_eq!(p.bubbles, full);
    p.bubbles.pop();
    p.top_up(bubble(5, 5));
    assert_eq!(p.bubbles.len(), 2);
    assert_eq!(p.bubbles[1], bubble(5, 5));
}

#[test]
fn drift_moves_and_drops() {
    let mut p = Bubbles::new(0, 1, 800, 600);
    p.max_bubbles = 4;
    p.bubbles = vec![
        Bubble::new(2_000, 300_000, -20_000, -1000, 0),
        Bubble::new(3_000, 300_000, -20_000, -1000, 0),
        Bubble::new(50_000, -19_500, -20_000, -600, 0),
        Bubble::new(50_000, -19_400, -20_000, -600, 0),
    ];
    p.drift(3);
    assert_eq!(
        p.bubbles,
        vec![
            Bubble::new(0, 299_000, -20_000, -1000, 0),
            Bubble::new(47_000, -20_000, -20_000, -600, 0),
        ]
    );
}

#[test]
fn pool_never_exceeds_its_size() {
    let state = GameState::new(800, 600);
    let mut p = Bubbles::new(15, 3, 800, 600);
    for _ in 0..3000 {
        p.update(&state);
        assert!(p.bubbles.len() <= 15);
        for b in &p.bubbles {
            assert!(!b.finished());
            assert!(b.texture_idx < 3);
        }
    }
}

#[test]
fn pool_refills_by_one_per_update() {
    let mut state = GameState::new(800, 600);
    state.x_speed = 0;
    let mut p = Bubbles::new(15, 3, 800, 600);
    p.bubbles.clear();
    for n in 1..=15 {
        p.update(&state);
        // nothing can pop or leave this early: bubbles start at the lower
        // edge, pop in the upper half and do not drift at speed zero
        assert_eq!(p.bubbles.len(), n);
    }
    p.update(&state);
    assert_eq!(p.bubbles.len(), 15);
}

#[test]
fn pool_size_after_update_is_refill_minus_leavers() {
    let mut state = GameState::new(800, 600);
    state.x_speed = 0;
    let mut p = Bubbles::new(0, 1, 800, 600);
    p.max_bubbles = 5;
    p.bubbles = vec![
        Bubble::new(2_000, 300_000, -20_000, -1000, 0),
        Bubble::new(3_000, -19_900, -20_000, -1000, 0),
        Bubble::new(3_000, -19_800, -20_000, -1000, 0),
        Bubble::new(50_000, 200_000, -20_000, -600, 0),
    ];
    p.update(&state);
    // four, one more for the refill, less the two that pop
    assert_eq!(p.bubbles.len(), 3);
    assert_eq!(p.bubbles[0], Bubble::new(2_000, 299_000, -20_000, -1000, 0));
    assert_eq!(p.bubbles[1], Bubble::new(50_000, 199_400, -20_000, -600, 0));
    check_fresh(
        &Bubble { y: 600_000, ..p.bubbles[2] },
        800,
        600,
        1,
    );
    assert_eq!(p.bubbles[2].y, 600_000 + p.bubbles[2].velocity_y);
}

#[test]
fn bubbles_switch_theme_changes_only_the_tint() {
    let mut p = Bubbles::new(4, 3, 800, 600);
    let before = p.bubbles.clone();
    p.switch_theme(&color_theme());
    assert_eq!(p.tint, (136, 207, 241));
    assert_eq!(p.bubbles, before);
    p.switch_theme(&theme_2());
    p.switch_theme(&theme_2());
    assert_eq!(p.tint, (156, 209, 247));
    assert_eq!(p.bubbles, before);
    assert_eq!((p.max_bubbles, p.texture_count), (4, 3));
}

#[test]
fn bubbles_reset_changes_nothing() {
    let mut p = Bubbles::new(4, 3, 800, 600);
    let before = p.bubbles.clone();
    p.reset();
    assert_eq!(p.bubbles, before);
    assert_eq!((p.max_bubbles, p.texture_count, p.tint), (4, 3, (255, 255, 255)));
}

#[test]
fn bubbles_render_at_whole_pixels() {
    let mut p = Bubbles::new(0, 3, 800, 600);
    p.max_bubbles = 2;
    p.bubbles = vec![
        Bubble::new(47_999, 299_001, -20_000, -1000, 2),
        Bubble::new(5_000, -19_999, -20_000, -600, 0),
    ];
    p.switch_theme(&color_theme());
    let tint = (136, 207, 241);
    assert_eq!(
        p.render(&sizes()),
        vec![
            DrawCommand::Sprite {
                sprite: SpriteId::Bubble(2),
                tint,
                dest: Rect { x: 47, y: 299, w: 20, h: 21 },
                rotation: 0,
                flip_h: false,
                flip_v: false,
            },
            DrawCommand::Sprite {
                sprite: SpriteId::Bubble(0),
                tint,
                dest: Rect { x: 5, y: -19, w: 8, h: 8 },
                rotation: 0,
                flip_h: false,
                flip_v: false,
            },
        ]
    );
}

#[test]
fn pool_stays_nearly_full_while_one_bubble_pops_per_frame() {
    let mut state = GameState::new(800, 600);
    state.x_speed = 0;
    let mut p = Bubbles::new(0, 1, 800, 600);
    p.max_bubbles = 3;
    p.bubbles = vec![
        Bubble::new(5_000, -19_900, -20_000, -1000, 0),
        Bubble::new(5_000, -18_500, -20_000, -1000, 0),
        Bubble::new(5_000, 400_000, -20_000, -1000, 0),
    ];
    p.update(&state);
    assert_eq!(p.bubbles.len(), 2);
    p.update(&state);
    assert_eq!(p.bubbles.len(), 2);
    p.update(&state);
    assert_eq!(p.bubbles.len(), 3);
    p.update(&state);
    assert_eq!(p.bubbles.len(), 3);
}

#[test]
fn pool_dips_further_when_several_bubbles_pop_at_once() {
    let mut state = GameState::new(800, 600);
    state.x_speed = 0;
    let mut p = Bubbles::new(0, 1, 800, 600);
    p.max_bubbles = 4;
    p.bubbles = vec![
        Bubble::new(5_000, -19_900, -20_000, -1000, 0),
        Bubble::new(5_000, -19_800, -20_000, -1000, 0),
        Bubble::new(5_000, -19_700, -20_000, -1000, 0),
        Bubble::new(5_000, 400_000, -20_000, -1000, 0),
    ];
    p.update(&state);
    assert_eq!(p.bubbles.len(), 1);
    p.update(&state);
    assert_eq!(p.bubbles.len(), 2);
    p.update(&state);
    assert_eq!(p.bubbles.len(), 3);
    p.update(&state);
    assert_eq!(p.bubbles.len(), 4);
}
