use breakout::bounce::paddle_bounce;
use breakout::breakout::{base_velocity, get_level};
use breakout::geometry::{Contacts, Vx2};
use breakout::math::{isqrt, isqrt_round};
use breakout::sprites::ball::{get_rand_init_vel, launch_velocity, Ball};

fn length_sq(v: Vx2) -> i128 {
    (v.x as i128) * (v.x as i128) + (v.y as i128) * (v.y as i128)
}

#[test]
fn isqrt_of_squares_and_neighbours() {
    assert_eq!(isqrt(0), 0);
    assert_eq!(isqrt(1), 1);
    assert_eq!(isqrt(3), 1);
    assert_eq!(isqrt(4), 2);
    assert_eq!(isqrt(35), 5);
    assert_eq!(isqrt(36), 6);
    assert_eq!(isqrt(34_560_000), 5_878);
    assert_eq!(isqrt(1_000_000_000_000_000_000), 1_000_000_000);
    assert_eq!(isqrt(u64::MAX), 4_294_967_295);
}

#[test]
fn isqrt_round_goes_to_the_nearest() {
    assert_eq!(isqrt_round(0), 0);
    assert_eq!(isqrt_round(1), 1);
    assert_eq!(isqrt_round(2), 1);
    assert_eq!(isqrt_round(3), 2);
    assert_eq!(isqrt_round(6), 2);
    assert_eq!(isqrt_round(7), 3);
    assert_eq!(isqrt_round(12), 3);
    assert_eq!(isqrt_round(13), 4);
    assert_eq!(isqrt_round(24_000_000_000_000), 4_898_979);
    assert_eq!(isqrt_round(1_000_000_000_000_000_000), 1_000_000_000);
    assert_eq!(isqrt_round(u64::MAX / 4), 2_147_483_648);
}

#[test]
fn level_table_at_its_boundaries() {
    assert_eq!(get_level(0), (1_000, 1));
    assert_eq!(get_level(99), (1_000, 1));
    assert_eq!(get_level(100), (1_500, 2));
    assert_eq!(get_level(299), (1_500, 2));
    assert_eq!(get_level(300), (2_000, 3));
    assert_eq!(get_level(599), (2_000, 3));
    assert_eq!(get_level(600), (3_000, 4));
    assert_eq!(get_level(799), (3_000, 4));
    assert_eq!(get_level(800), (4_000, 5));
    assert_eq!(get_level(999), (4_000, 5));
    assert_eq!(get_level(1000), (5_000, 6));
    assert_eq!(get_level(usize::MAX), (5_000, 6));
}

#[test]
fn level_never_falls_as_the_score_grows() {
    let mut last = get_level(0);
    for score in 1..1200 {
        let now = get_level(score);
        assert!(now.0 >= last.0 && now.1 >= last.1);
        assert!(1 <= now.1 && now.1 <= 6);
        last = now;
    }
}

#[test]
fn base_velocity_scales_both_parts() {
    assert_eq!(base_velocity(1_000), Vx2 { x: 1_000_000, y: 6_000_000 });
    assert_eq!(base_velocity(1_500), Vx2 { x: 1_500_000, y: 9_000_000 });
    assert_eq!(base_velocity(5_000), Vx2 { x: 5_000_000, y: 30_000_000 });
    assert_eq!(base_velocity(u16::MAX), Vx2 { x: 65_535_000, y: 393_210_000 });
    assert_eq!(base_velocity(0), Vx2 { x: 0, y: 0 });
}

#[test]
fn bounce_at_the_edges_and_the_middle() {
    let v = Vx2 { x: 0, y: 6_000_000 };
    assert_eq!(paddle_bounce(&v, 1_000_000), Vx2 { x: 1_200_000, y: -5_878_775 });
    assert_eq!(paddle_bounce(&v, -1_000_000), Vx2 { x: -1_200_000, y: -5_878_775 });
    assert_eq!(paddle_bounce(&v, 0), Vx2 { x: 0, y: -6_000_000 });
    assert_eq!(paddle_bounce(&v, 250_000), Vx2 { x: 150_000, y: -5_998_125 });
}

#[test]
fn bounce_of_five_pixels_a_frame_off_the_edge() {
    let v = Vx2 { x: 0, y: 5_000_000 };
    assert_eq!(paddle_bounce(&v, 40_000_000), Vx2 { x: 1_000_000, y: -4_898_979 });
    assert_eq!(paddle_bounce(&v, -40_000_000), Vx2 { x: -1_000_000, y: -4_898_979 });
    let slanted = Vx2 { x: 3_000_000, y: 4_000_000 };
    assert_eq!(paddle_bounce(&slanted, 0), Vx2 { x: 0, y: -5_000_000 });
}

#[test]
fn bounce_at_base_velocity_keeps_the_speed() {
    let v = Vx2 { x: 1_000_000, y: 6_000_000 };
    let w = paddle_bounce(&v, 1_000_000);
    assert_eq!(w, Vx2 { x: 1_216_553, y: -5_959_866 });
    let change = length_sq(w) - length_sq(v);
    assert!(change.abs() <= 5_959_866);
    assert!(1_000_000 * change.abs() <= length_sq(v));
}

#[test]
fn bounce_confines_the_offset_to_one_pixel() {
    let v = Vx2 { x: 1_500_000, y: 9_000_000 };
    assert_eq!(paddle_bounce(&v, 40_000_000), paddle_bounce(&v, 1_000_000));
    assert_eq!(paddle_bounce(&v, -40_000_000), paddle_bounce(&v, -1_000_000));
    assert_eq!(paddle_bounce(&v, i64::MAX), paddle_bounce(&v, 1_000_000));
    assert_eq!(paddle_bounce(&v, i64::MIN), paddle_bounce(&v, -1_000_000));
    assert_eq!(paddle_bounce(&v, 5), Vx2 { x: 0, y: -9_124_144 });
}

#[test]
fn bounce_conserves_speed_and_keeps_rising() {
    let speeds = [
        Vx2 { x: 0, y: 0 },
        Vx2 { x: 0, y: 1 },
        Vx2 { x: 1, y: 1 },
        Vx2 { x: 1_000, y: 6_000 },
        Vx2 { x: 10_000, y: 0 },
        Vx2 { x: 6_000, y: -8_000 },
        Vx2 { x: 100_000, y: 0 },
        Vx2 { x: 1_000_000, y: 6_000_000 },
        Vx2 { x: -1_500_000, y: 9_000_000 },
        Vx2 { x: 5_000_000, y: -30_000_000 },
        Vx2 { x: 30_000_000, y: 0 },
        Vx2 { x: 600_000_000, y: 800_000_000 },
        Vx2 { x: 0, y: 1_000_000_000 },
    ];
    let offsets = [
        -5_000_000, -1_000_000, -999_999, -500_000, -1, 0, 1, 333_333, 1_000_000, 7_000_000,
    ];
    for v in speeds {
        let s2 = length_sq(v);
        for d in offsets {
            let w = paddle_bounce(&v, d);
            let after = length_sq(w);
            assert!(w.fits_velocity());
            assert!(w.y <= 0);
            assert!(after <= s2 + (-(w.y as i128)));
            assert!(s2 <= after + 2 * (-(w.y as i128)));
            if s2 >= 100_000_000 {
                assert!(10_000 * (after - s2).abs() <= s2);
            }
            assert!(16 * (w.y as i128) * (w.y as i128) >= s2);
            let h = (w.x as i128).abs();
            assert!(h == 0 || 25 * (2 * h - 1) * (2 * h - 1) <= 4 * s2);
            assert!(d >= 0 || w.x <= 0);
            assert!(d < 0 || w.x >= 0);
        }
    }
}

#[test]
fn bounce_of_the_fastest_ball() {
    let v = Vx2 { x: 0, y: -1_000_000_000 };
    assert_eq!(paddle_bounce(&v, 1_000_000), Vx2 { x: 200_000_000, y: -979_795_897 });
    let slow = Vx2 { x: 1, y: 1 };
    assert_eq!(paddle_bounce(&slow, 1_000_000), Vx2 { x: 0, y: -1 });
}

#[test]
fn launch_goes_up_to_the_chosen_side() {
    let base = Vx2 { x: 1_000_000, y: 6_000_000 };
    assert_eq!(launch_velocity(&base, true), Vx2 { x: 1_000_000, y: -6_000_000 });
    assert_eq!(launch_velocity(&base, false), Vx2 { x: -1_000_000, y: -6_000_000 });
    let after_bounce = Vx2 { x: -1_200_000, y: -5_878_775 };
    assert_eq!(launch_velocity(&after_bounce, true), Vx2 { x: 1_200_000, y: -5_878_775 });
    assert_eq!(launch_velocity(&after_bounce, false), Vx2 { x: -1_200_000, y: -5_878_775 });
}

#[test]
fn random_launch_is_one_of_the_two() {
    let base = Vx2 { x: 1_500_000, y: 9_000_000 };
    let mut left = 0;
    let mut right = 0;
    for _ in 0..200 {
        let v = get_rand_init_vel(base);
        assert_eq!(v.y, -9_000_000);
        if v.x == 1_500_000 {
            right += 1;
        } else {
            assert_eq!(v.x, -1_500_000);
            left += 1;
        }
    }
    assert!(left > 0 && right > 0);
}

#[test]
fn contact_is_vertical_unless_the_ball_point_lies_lower() {
    let at = |ya: i32, yb: i32| Contacts {
        contact_a: Vx2 { x: 5, y: ya },
        contact_b: Vx2 { x: 9, y: yb },
    };
    assert!(at(100, 100).is_vertical());
    assert!(at(99, 100).is_vertical());
    assert!(!at(101, 100).is_vertical());
    assert!(at(i32::MIN, i32::MAX).is_vertical());
    assert!(!at(i32::MAX, i32::MIN).is_vertical());
}

#[test]
fn ball_moves_by_its_velocity() {
    let mut ball = Ball::new(Vx2 { x: 380_000_000, y: 839_000_000 });
    assert!(ball.visible);
    assert_eq!(ball.circle.radius, 10_000_000);
    assert_eq!(ball.velocity, Vx2 { x: 0, y: 0 });
    ball.set_ball_vel(Vx2 { x: -1_500_000, y: 9_000_000 });
    ball.move_ball();
    ball.move_ball();
    assert_eq!(ball.circle.pos, Vx2 { x: 377_000_000, y: 857_000_000 });
    assert_eq!(ball.distance_x(380_000_000), -3_000_000);
    ball.hide_ball();
    assert!(!ball.visible);
    ball.show();
    assert!(ball.visible);
    ball.set_ball_pos(Vx2 { x: 1, y: 2 });
    assert_eq!(ball.circle.pos, Vx2 { x: 1, y: 2 });
}

#[test]
fn ball_stops_at_the_end_of_the_coordinate_range() {
    let mut ball = Ball::new(Vx2 { x: i32::MAX - 10, y: i32::MIN + 10 });
    ball.set_ball_vel(Vx2 { x: 100, y: -100 });
    ball.move_ball();
    assert_eq!(ball.circle.pos, Vx2 { x: i32::MAX, y: i32::MIN });
    assert_eq!(ball.distance_x(i32::MIN), i32::MAX as i64 - i32::MIN as i64);
}

#[test]
fn velocity_bound_is_on_the_length() {
    assert!(Vx2 { x: 1_000_000_000, y: 0 }.fits_velocity());
    assert!(Vx2 { x: 600_000_000, y: -800_000_000 }.fits_velocity());
    assert!(!Vx2 { x: 1_000_000_000, y: 1 }.fits_velocity());
    assert!(!Vx2 { x: i32::MIN, y: 0 }.fits_velocity());
    let v = Vx2 { x: 3, y: -4 };
    assert_eq!(v.flip_x(), Vx2 { x: -3, y: -4 });
    assert_eq!(v.flip_y(), Vx2 { x: 3, y: 4 });
}
