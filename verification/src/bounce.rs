use crate::common::MAX_SPEED;
use crate::geometry::{lemma_component_bound, Vx2};
use crate::math::{
    isqrt, isqrt_round, lemma_sqrt_floor_bounds, lemma_sqrt_round_bounds, sqrt_floor, sqrt_round,
};
use vstd::prelude::*;

verus! {

/// The offset between ball and paddle centre as the rule uses it: confined
/// to one pixel either way.
pub open spec fn clamp_offset(d: int) -> int {
    if d < -1_000_000 {
        -1_000_000
    } else if d > 1_000_000 {
        1_000_000
    } else {
        d
    }
}

/// The cube of a pixel's length in units, times the square of five: what
/// the cube of an offset in units times a squared speed is divided by to
/// give the square of the horizontal target speed.
pub open spec fn steer_divisor() -> nat {
    25_000_000_000_000_000_000
}

/// The horizontal target speed for an offset of magnitude `a` units at
/// squared speed `s2`: a fifth of the speed times the offset in pixels to
/// the power of one and a half, rounded to the nearest unit.
pub open spec fn steer(a: nat, s2: nat) -> nat {
    (sqrt_floor(4 * (a * a * a * s2) / steer_divisor()) + 1) / 2
}

/// The least `k` with `16 * k * k >= s2`: a quarter of the speed, rounded
/// up.
pub open spec fn rise_floor(s2: nat) -> nat {
    let k = sqrt_floor(s2 / 16);
    if 16 * (k * k) < s2 {
        k + 1
    } else {
        k
    }
}

/// What is left of `s2` once `part * part` is taken, and nothing if that is
/// more than `s2`.
pub open spec fn remainder_sq(s2: nat, part: nat) -> nat {
    if part * part > s2 {
        0
    } else {
        (s2 - part * part) as nat
    }
}

/// The square of the largest speed.
pub open spec fn speed_limit_sq() -> nat {
    1_000_000_000_000_000_000
}

/// The square root of `rest` rounded to the nearest unit, or rounded down
/// where the nearest would square past `room`.
pub open spec fn fitted_root(rest: nat, room: nat) -> nat {
    if sqrt_round(rest) * sqrt_round(rest) <= room {
        sqrt_round(rest)
    } else {
        sqrt_floor(rest)
    }
}

/// The part of a velocity that goes with a part `part` in the other
/// direction at squared speed `s2`: the root of what `part` leaves of
/// `s2`, to the nearest unit, and never so long that the velocity would
/// pass the largest speed.
pub open spec fn other_part(s2: nat, part: nat) -> nat {
    fitted_root(remainder_sq(s2, part), remainder_sq(speed_limit_sq(), part))
}

/// The velocity with which a ball of velocity `v` leaves the paddle when its
/// centre lies `d` units to the right of the paddle's.
///
/// The horizontal part is a fifth of the speed times `sign(d) * |d|^1.5`,
/// with `d` in pixels and confined to one pixel; the vertical part takes
/// the rest of the speed and points up. Should the vertical part come out
/// under a quarter of the speed, it is set to that quarter and the
/// horizontal part takes the rest. Each part is rounded to the nearest
/// unit.
pub open spec fn bounced(v: Vx2, d: int) -> Vx2 {
    let s2 = v.length_sq() as nat;
    let c = clamp_offset(d);
    let a = (if c < 0 { -c } else { c }) as nat;
    let hx = steer(a, s2);
    let hy = other_part(s2, hx);
    if 16 * (hy * hy) < s2 {
        let fy = rise_floor(s2);
        let fx = other_part(s2, fy);
        Vx2 { x: (if c < 0 && hx > 0 { -fx } else { fx as int }) as i32, y: (-fy) as i32 }
    } else {
        Vx2 { x: (if c < 0 { -hx } else { hx as int }) as i32, y: (-hy) as i32 }
    }
}

/// Computes `other_part` where `part` is no longer than the speed allows.
fn part_beside(s2: u64, part: u64) -> (r: u64)
    requires
        s2 <= speed_limit_sq(),
        part <= MAX_SPEED,
    ensures
        r == other_part(s2 as nat, part as nat),
        part * part + r * r <= speed_limit_sq(),
        r <= MAX_SPEED,
{
    assert(part * part <= 1_000_000_000 * 1_000_000_000) by (nonlinear_arith)
        requires
            part <= 1_000_000_000,
    ;
    let sq: u64 = part * part;
    let rest: u64 = if sq > s2 {
        0
    } else {
        s2 - sq
    };
    let room: u64 = 1_000_000_000_000_000_000 - sq;
    let near: u64 = isqrt_round(rest);
    assert(near * near <= 0x8000_0000 * 0x8000_0000) by (nonlinear_arith)
        requires
            near <= 0x8000_0000,
    ;
    proof {
        lemma_fitted_root(rest as nat, room as nat);
        lemma_root_bound(other_part(s2 as nat, part as nat), speed_limit_sq());
    }
    if near * near <= room {
        near
    } else {
        isqrt(rest)
    }
}

/// Reflects a ball off the paddle by the rule of `bounced`.
pub fn paddle_bounce(v: &Vx2, d: i64) -> (w: Vx2)
    requires
        v.is_velocity(),
    ensures
        w == bounced(*v, d as int),
        w.is_velocity(),
{
    proof {
        lemma_component_bound(*v);
        lemma_steer_bound(
            (if clamp_offset(d as int) < 0 {
                -clamp_offset(d as int)
            } else {
                clamp_offset(d as int)
            }) as nat,
            v.length_sq() as nat,
        );
    }
    let x: i64 = v.x as i64;
    let y: i64 = v.y as i64;
    assert(0 <= x * x <= 1_000_000_000 * 1_000_000_000 && 0 <= y * y <= 1_000_000_000
        * 1_000_000_000) by (nonlinear_arith)
        requires
            -1_000_000_000 <= x <= 1_000_000_000,
            -1_000_000_000 <= y <= 1_000_000_000,
    ;
    assert(MAX_SPEED * MAX_SPEED == 1_000_000_000_000_000_000) by (nonlinear_arith)
        requires
            MAX_SPEED == 1_000_000_000,
    ;
    let s2: u64 = (x * x + y * y) as u64;
    let c: i64 = if d < -1_000_000 {
        -1_000_000
    } else if d > 1_000_000 {
        1_000_000
    } else {
        d
    };
    let a: u64 = if c < 0 {
        (-c) as u64
    } else {
        c as u64
    };
    assert(a * a <= 1_000_000_000_000 && a * a * a <= 1_000_000_000_000_000_000)
        by (nonlinear_arith)
        requires
            a <= 1_000_000,
    ;
    let cube: u64 = a * a * a;
    assert(cube * s2 <= 1_000_000_000_000_000_000 * 1_000_000_000_000_000_000)
        by (nonlinear_arith)
        requires
            cube <= 1_000_000_000_000_000_000,
            s2 <= 1_000_000_000_000_000_000,
    ;
    let n: u128 = (cube as u128) * (s2 as u128);
    let q: u64 = (4 * n / 25_000_000_000_000_000_000) as u64;
    let hx: u64 = (isqrt(q) + 1) / 2;
    assert(hx == steer(a as nat, s2 as nat));
    let hy: u64 = part_beside(s2, hx);
    assert(hy * hy <= 1_000_000_000 * 1_000_000_000) by (nonlinear_arith)
        requires
            hy <= 1_000_000_000,
    ;
    if 16 * (hy * hy) < s2 {
        let k: u64 = isqrt(s2 / 16);
        proof {
            lemma_sqrt_floor_bounds((s2 / 16) as nat);
            lemma_root_bound(k as nat, s2 as nat);
            lemma_rise_floor_fits(s2 as nat);
        }
        let fy: u64 = if 16 * (k * k) < s2 {
            k + 1
        } else {
            k
        };
        proof {
            lemma_root_bound(fy as nat, s2 as nat);
        }
        let fx: u64 = part_beside(s2, fy);
        let wx: i32 = if c < 0 && hx > 0 {
            -(fx as i32)
        } else {
            fx as i32
        };
        let w = Vx2 { x: wx, y: -(fy as i32) };
        assert(w.length_sq() == fx * fx + fy * fy) by (nonlinear_arith)
            requires
                w.x == fx || w.x == -fx,
                w.y == -fy,
        ;
        w
    } else {
        let wx: i32 = if c < 0 {
            -(hx as i32)
        } else {
            hx as i32
        };
        let w = Vx2 { x: wx, y: -(hy as i32) };
        assert(w.length_sq() == hx * hx + hy * hy) by (nonlinear_arith)
            requires
                w.x == hx || w.x == -hx,
                w.y == -hy,
        ;
        w
    }
}

/// A number whose square is at most `s2`, itself at most the square of
/// `MAX_SPEED`, is at most `MAX_SPEED`.
proof fn lemma_root_bound(r: nat, s2: nat)
    requires
        s2 <= MAX_SPEED * MAX_SPEED,
    ensures
        r * r <= s2 ==> r <= MAX_SPEED,
{
    if r > MAX_SPEED {
        assert(r * r > MAX_SPEED * MAX_SPEED) by (nonlinear_arith)
            requires
                r > MAX_SPEED,
                MAX_SPEED > 0,
        ;
    }
}

/// The fitted root squares to no more than `room`, and to within itself
/// above and twice itself below `rest`.
proof fn lemma_fitted_root(rest: nat, room: nat)
    requires
        rest <= room,
    ensures
        fitted_root(rest, room) * fitted_root(rest, room) <= room,
        fitted_root(rest, room) * fitted_root(rest, room) <= rest + fitted_root(rest, room),
        rest <= fitted_root(rest, room) * fitted_root(rest, room) + 2 * fitted_root(rest, room),
        sqrt_floor(rest) <= fitted_root(rest, room),
{
    lemma_sqrt_round_bounds(rest);
    lemma_sqrt_floor_bounds(rest);
    let f = sqrt_floor(rest);
    assert((f + 1) * (f + 1) == f * f + 2 * f + 1) by (nonlinear_arith);
}

/// The horizontal target speed lies within half a unit of the rule's real
/// value, and is no more than two fifths of the speed.
proof fn lemma_steer_bound(a: nat, s2: nat)
    requires
        a <= 1_000_000,
    ensures
        steer(a, s2) > 0 ==> steer_divisor() * ((2 * steer(a, s2) - 1) * (2 * steer(a, s2) - 1))
            <= 4 * (a * a * a * s2),
        4 * (a * a * a * s2) < steer_divisor() * ((2 * steer(a, s2) + 1) * (2 * steer(a, s2)
            + 1)),
        steer(a, s2) > 0 ==> 25 * ((2 * steer(a, s2) - 1) * (2 * steer(a, s2) - 1)) <= 4 * s2,
        25 * (steer(a, s2) * steer(a, s2)) <= 4 * s2,
        s2 <= MAX_SPEED * MAX_SPEED ==> steer(a, s2) <= MAX_SPEED,
{
    let n4 = 4 * (a * a * a * s2);
    let q = n4 / steer_divisor();
    let m = sqrt_floor(q);
    let h = steer(a, s2);
    lemma_sqrt_floor_bounds(q);
    assert(a * a * a <= 1_000_000_000_000_000_000) by (nonlinear_arith)
        requires
            a <= 1_000_000,
    ;
    assert(a * a * a * s2 <= 1_000_000_000_000_000_000 * s2) by (nonlinear_arith)
        requires
            a * a * a <= 1_000_000_000_000_000_000,
    ;
    assert(steer_divisor() * q <= n4 < steer_divisor() * (q + 1));
    assert(25 * q <= 4 * s2);
    assert(m == 2 * h || m == 2 * h - 1);
    if h > 0 {
        assert((2 * h - 1) * (2 * h - 1) <= m * m) by (nonlinear_arith)
            requires
                0 <= 2 * h - 1 <= m,
        ;
        assert(h * h <= (2 * h - 1) * (2 * h - 1)) by (nonlinear_arith)
            requires
                h >= 1,
        ;
        assert(steer_divisor() * ((2 * h - 1) * (2 * h - 1)) <= steer_divisor() * q)
            by (nonlinear_arith)
            requires
                (2 * h - 1) * (2 * h - 1) <= q,
        ;
    } else {
        assert(h * h == 0) by (nonlinear_arith)
            requires
                h == 0,
        ;
    }
    assert((m + 1) * (m + 1) <= (2 * h + 1) * (2 * h + 1)) by (nonlinear_arith)
        requires
            0 <= m + 1 <= 2 * h + 1,
    ;
    assert(steer_divisor() * (q + 1) <= steer_divisor() * ((2 * h + 1) * (2 * h + 1)))
        by (nonlinear_arith)
        requires
            q + 1 <= (2 * h + 1) * (2 * h + 1),
    ;
    if s2 <= MAX_SPEED * MAX_SPEED {
        if h > MAX_SPEED {
            assert(h * h > MAX_SPEED * MAX_SPEED) by (nonlinear_arith)
                requires
                    h > MAX_SPEED,
                    MAX_SPEED > 0,
            ;
        }
    }
}

/// A quarter of a positive speed, rounded up, does not exceed the speed.
proof fn lemma_rise_floor_fits(s2: nat)
    ensures
        16 * (rise_floor(s2) * rise_floor(s2)) >= s2,
        s2 > 0 ==> rise_floor(s2) * rise_floor(s2) <= s2,
        s2 == 0 ==> rise_floor(s2) == 0,
{
    let k = sqrt_floor(s2 / 16);
    lemma_sqrt_floor_bounds(s2 / 16);
    let f = rise_floor(s2);
    if 16 * (k * k) < s2 {
        assert(f == k + 1);
        assert((k + 1) * (k + 1) >= s2 / 16 + 1);
        if k == 0 {
            assert(f * f == 1) by (nonlinear_arith)
                requires
                    f == 1,
            ;
        } else {
            assert((k + 1) * (k + 1) <= 4 * (k * k)) by (nonlinear_arith)
                requires
                    k >= 1,
            ;
        }
    } else {
        assert(f == k);
        if s2 == 0 {
            assert(k * k <= 0);
            assert(k == 0) by (nonlinear_arith)
                requires
                    k * k <= 0,
            ;
        }
    }
}

/// The bounce conserves speed. Whatever the offset, a ball that meets the
/// paddle with a valid velocity leaves it upwards with a valid velocity.
/// Its squared speed changes by no more than twice the vertical part, so
/// the speed itself by no more than a unit; from a hundredth of a pixel
/// per frame on, that is less than one part in ten thousand. At least a
/// quarter of the speed is vertical. The horizontal part points to the
/// side of the offset and lies within half a unit of a fifth of the speed
/// times the offset in pixels to the power of one and a half.
pub proof fn lemma_bounce_conserves_speed(v: Vx2, d: int)
    requires
        v.is_velocity(),
    ensures
        bounced(v, d).is_velocity(),
        bounced(v, d).y <= 0,
        bounced(v, d).length_sq() <= v.length_sq() + (-bounced(v, d).y),
        v.length_sq() <= bounced(v, d).length_sq() + 2 * (-bounced(v, d).y),
        v.length_sq() >= 100_000_000 ==> 10_000 * (bounced(v, d).length_sq() - v.length_sq())
            <= v.length_sq() && 10_000 * (v.length_sq() - bounced(v, d).length_sq())
            <= v.length_sq(),
        16 * (bounced(v, d).y * bounced(v, d).y) >= v.length_sq(),
        d < 0 ==> bounced(v, d).x <= 0,
        d >= 0 ==> bounced(v, d).x >= 0,
        ({
            let c = clamp_offset(d);
            let a = if c < 0 { -c } else { c };
            let h = if bounced(v, d).x < 0 { -bounced(v, d).x } else { bounced(v, d).x as int };
            &&& h > 0 ==> steer_divisor() * ((2 * h - 1) * (2 * h - 1)) <= 4 * (a * a * a
                * v.length_sq())
            &&& 4 * (a * a * a * v.length_sq()) < steer_divisor() * ((2 * h + 1) * (2 * h + 1))
        }),
{
    assert(v.x * v.x >= 0 && v.y * v.y >= 0) by (nonlinear_arith);
    assert(MAX_SPEED * MAX_SPEED == 1_000_000_000_000_000_000) by (nonlinear_arith)
        requires
            MAX_SPEED == 1_000_000_000,
    ;
    let s2 = v.length_sq() as nat;
    let c = clamp_offset(d);
    let a = (if c < 0 { -c } else { c }) as nat;
    let hx = steer(a, s2);
    lemma_steer_bound(a, s2);
    assert(hx * hx <= s2);
    let rest = remainder_sq(s2, hx);
    let room = remainder_sq(speed_limit_sq(), hx);
    assert(rest == s2 - hx * hx);
    assert(room == speed_limit_sq() - hx * hx);
    assert(25 * rest >= 21 * s2);
    let hy = other_part(s2, hx);
    lemma_fitted_root(rest, room);
    lemma_sqrt_floor_bounds(rest);
    let f = sqrt_floor(rest);
    if f == 0 {
        assert((f + 1) * (f + 1) == 1) by (nonlinear_arith)
            requires
                f == 0,
        ;
        assert(hy * hy >= 0) by (nonlinear_arith);
    } else {
        assert((f + 1) * (f + 1) <= 4 * (f * f)) by (nonlinear_arith)
            requires
                f >= 1,
        ;
        assert(f * f <= hy * hy) by (nonlinear_arith)
            requires
                0 <= f <= hy,
        ;
    }
    assert(16 * (hy * hy) >= s2);
    lemma_root_bound(hy, speed_limit_sq());
    let w = bounced(v, d);
    assert(w.y == -hy);
    assert(w.x == hx || w.x == -hx);
    assert(w.x * w.x == hx * hx && w.y * w.y == hy * hy) by (nonlinear_arith)
        requires
            w.x == hx || w.x == -hx,
            w.y == -hy,
    ;
    if s2 >= 100_000_000 {
        lemma_sqrt_round_bounds(rest);
        let near = sqrt_round(rest);
        if near * near <= room {
            assert(hy == near);
            if hy >= 10_001 {
                assert(hy * hy - hy >= 10_000 * hy) by (nonlinear_arith)
                    requires
                        hy >= 10_001,
                ;
            }
        } else {
            assert(s2 + near > speed_limit_sq());
            assert((near - 1) * (near - 1) <= rest) by (nonlinear_arith)
                requires
                    near * near <= rest + near,
                    near >= 1,
            ;
            lemma_root_bound((near - 1) as nat, speed_limit_sq());
        }
    }
}

} // verus!
