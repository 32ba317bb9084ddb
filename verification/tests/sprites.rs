use breakout::common::{Input, Key, BRICK_COUNT};
use breakout::geometry::{Contacts, Rectangle, Vx2};
use breakout::sprites::bricks::{brick_color, brick_width, BrickState, Bricks, Color};
use breakout::sprites::paddle::{Paddle, Tint};

fn held() -> Key {
    Key { pressed: false, down: true }
}

fn tapped() -> Key {
    Key { pressed: true, down: false }
}

fn go_right() -> Input {
    Input { right: held(), ..Input::none() }
}

fn go_left() -> Input {
    Input { left: tapped(), ..Input::none() }
}

fn touch(n: i32) -> Option<Contacts> {
    Some(Contacts { contact_a: Vx2 { x: n, y: n }, contact_b: Vx2 { x: n, y: n + 1 } })
}

#[test]
fn paddle_begins_centred() {
    let p = Paddle::init();
    assert_eq!(
        p.rect,
        Rectangle { pos: Vx2 { x: 380_000_000, y: 866_000_000 }, size: Vx2 { x: 100_000_000, y: 30_000_000 } }
    );
    assert_eq!(p.vel, 8_000_000);
    assert_eq!(p.color, Tint::Teal);
    assert_eq!(p.trans_color, Tint::Teal);
    assert!(!p.in_trans);
}

#[test]
fn paddle_moves_one_step_per_frame_for_pressed_and_held_alike() {
    let mut p = Paddle::init();
    p.update(&go_right());
    assert_eq!(p.rect.pos.x, 388_000_000);
    p.update(&Input { right: tapped(), ..Input::none() });
    assert_eq!(p.rect.pos.x, 396_000_000);
    p.update(&Input { right: Key { pressed: true, down: true }, ..Input::none() });
    assert_eq!(p.rect.pos.x, 404_000_000);
    p.update(&go_left());
    assert_eq!(p.rect.pos.x, 396_000_000);
    p.update(&Input::none());
    assert_eq!(p.rect.pos.x, 396_000_000);
    assert_eq!(p.rect.pos.y, 866_000_000);
}

#[test]
fn paddle_with_both_keys_stays() {
    let mut p = Paddle::init();
    p.update(&Input { left: held(), right: held(), ..Input::none() });
    assert_eq!(p.rect.pos.x, 380_000_000);
}

#[test]
fn paddle_never_leaves_the_frame() {
    let mut p = Paddle::init();
    for _ in 0..500 {
        p.update(&go_right());
        assert!(54_000_000 <= p.rect.pos.x && p.rect.pos.x <= 706_000_000);
    }
    assert_eq!(p.rect.pos.x, 700_000_000);
    for _ in 0..500 {
        p.update(&go_left());
        assert!(54_000_000 <= p.rect.pos.x && p.rect.pos.x <= 706_000_000);
    }
    assert_eq!(p.rect.pos.x, 60_000_000);
}

#[test]
fn paddle_at_an_edge_moves_only_away_from_it() {
    let mut p = Paddle::init();
    p.set_x(706_000_000);
    p.update(&go_right());
    assert_eq!(p.rect.pos.x, 706_000_000);
    p.update(&Input { left: held(), right: held(), ..Input::none() });
    assert_eq!(p.rect.pos.x, 698_000_000);
    p.set_x(54_000_000);
    p.update(&go_left());
    assert_eq!(p.rect.pos.x, 54_000_000);
}

#[test]
fn paddle_needs_room_for_a_whole_step() {
    let mut p = Paddle::init();
    p.set_x(698_000_000);
    p.update(&go_right());
    assert_eq!(p.rect.pos.x, 698_000_000);
    p.set_x(697_999_000);
    p.update(&go_right());
    assert_eq!(p.rect.pos.x, 705_999_000);
}

#[test]
fn paddle_speed_scale_replaces_the_one_before() {
    let mut p = Paddle::init();
    p.set_velocity(1_500);
    assert_eq!(p.vel, 12_000_000);
    p.set_velocity(1_500);
    assert_eq!(p.vel, 12_000_000);
    p.set_velocity(5_000);
    assert_eq!(p.vel, 40_000_000);
    p.set_velocity(1_000);
    assert_eq!(p.vel, 8_000_000);
    p.set_velocity(u16::MAX);
    assert_eq!(p.vel, 524_280_000);
    p.set_velocity(0);
    assert_eq!(p.vel, 0);
    p.update(&go_right());
    assert_eq!(p.rect.pos.x, 380_000_000);
}

#[test]
fn paddle_reset_centres_it() {
    let mut p = Paddle::init();
    p.set_x(100_000_000);
    p.set_velocity(2_000);
    p.in_trans = true;
    p.reset();
    assert_eq!(p.rect.pos, Vx2 { x: 380_000_000, y: 866_000_000 });
    assert_eq!(p.vel, 16_000_000);
    assert!(p.in_trans);
}

#[test]
fn bricks_are_laid_out_along_the_rows() {
    assert_eq!(brick_width(), 49_571_428);
    let g = Bricks::init();
    assert_eq!(g.hit, None);
    assert_eq!(g.bricks.len(), 112);
    let size = Vx2 { x: 49_571_428, y: 28_000_000 };
    assert_eq!(g.bricks[0].rect, Rectangle { pos: Vx2 { x: 31_785_714, y: 69_000_000 }, size });
    assert_eq!(g.bricks[1].rect, Rectangle { pos: Vx2 { x: 85_357_142, y: 69_000_000 }, size });
    assert_eq!(g.bricks[13].rect, Rectangle { pos: Vx2 { x: 728_214_278, y: 69_000_000 }, size });
    assert_eq!(g.bricks[14].rect, Rectangle { pos: Vx2 { x: 31_785_714, y: 101_000_000 }, size });
    assert_eq!(g.bricks[111].rect, Rectangle { pos: Vx2 { x: 728_214_278, y: 293_000_000 }, size });
    for (i, b) in g.bricks.iter().enumerate() {
        assert_eq!(b.state, BrickState::Alive);
        assert!(b.is_alive());
        assert_eq!(b.color, brick_color(i / 14));
        assert_eq!(b.rect.pos.x, 31_785_714 + 53_571_428 * (i % 14) as i32);
        assert_eq!(b.rect.pos.y, 69_000_000 + 32_000_000 * (i / 14) as i32);
    }
}

#[test]
fn brick_rows_share_colours_in_pairs() {
    assert_eq!(brick_color(0), Color { r: 0xDA, g: 0x2A, b: 0x47, a: 0xFF });
    assert_eq!(brick_color(1), brick_color(0));
    assert_eq!(brick_color(2), Color { r: 0xB4, g: 0x4A, b: 0x5F, a: 0xFF });
    assert_eq!(brick_color(3), brick_color(2));
    assert_eq!(brick_color(4), Color { r: 0x8E, g: 0x6F, b: 0x77, a: 0xFF });
    assert_eq!(brick_color(5), brick_color(4));
    assert_eq!(brick_color(6), Color { r: 0x04, g: 0x8C, b: 0x7F, a: 0xFF });
    assert_eq!(brick_color(7), brick_color(6));
    assert_eq!(brick_color(100), brick_color(6));
}

#[test]
fn scan_returns_the_earlier_of_two_touched_bricks() {
    let mut g = Bricks::init();
    let mut contacts = [None; BRICK_COUNT];
    contacts[20] = touch(20);
    contacts[6] = touch(6);
    assert_eq!(g.ball_hits(&contacts), touch(6));
    assert_eq!(g.hit, Some(6));
    assert_eq!(g.bricks[6].state, BrickState::Hit);
    assert!(!g.bricks[6].is_alive());
    g.update();
    assert_eq!(g.bricks[6].state, BrickState::Dead);
    assert!(!g.bricks[6].is_alive());
    assert_eq!(g.bricks[20].state, BrickState::Alive);
    assert_eq!(g.get_hit(), Some(0));
    assert_eq!(g.hit, None);
    assert_eq!(g.get_hit(), None);
    assert_eq!(g.ball_hits(&contacts), touch(20));
    assert_eq!(g.hit, Some(20));
    g.update();
    assert_eq!(g.get_hit(), Some(1));
    assert_eq!(g.ball_hits(&contacts), None);
    assert_eq!(g.hit, None);
}

#[test]
fn scan_without_contact_finds_nothing() {
    let mut g = Bricks::init();
    let before = g.clone();
    assert_eq!(g.ball_hits(&[None; BRICK_COUNT]), None);
    assert_eq!(g, before);
    g.update();
    assert_eq!(g, before);
}

#[test]
fn dead_brick_is_never_hit_until_reset() {
    let mut g = Bricks::init();
    let mut contacts = [None; BRICK_COUNT];
    contacts[111] = touch(1);
    assert_eq!(g.ball_hits(&contacts), touch(1));
    g.update();
    assert_eq!(g.get_hit(), Some(7));
    for _ in 0..3 {
        assert_eq!(g.ball_hits(&contacts), None);
        assert_eq!(g.hit, None);
    }
    let geometry = g.bricks[111].rect;
    g.reset();
    assert_eq!(g.bricks[111].state, BrickState::Alive);
    assert_eq!(g.bricks[111].rect, geometry);
    assert_eq!(g, Bricks::init());
    assert_eq!(g.ball_hits(&contacts), touch(1));
}

#[test]
fn reset_forgets_a_pending_hit() {
    let mut g = Bricks::init();
    let mut contacts = [None; BRICK_COUNT];
    contacts[0] = touch(0);
    g.ball_hits(&contacts);
    assert_eq!(g.hit, Some(0));
    assert_eq!(g.bricks[0].state, BrickState::Hit);
    g.reset();
    assert_eq!(g.hit, None);
    assert_eq!(g, Bricks::init());
}
