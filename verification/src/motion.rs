//! Movement in whole units: the step that a heading and a speed give.
//!
//! A step of `speed` units along an angle moves by `speed` times the cosine
//! of the angle to the right and by `speed` times its sine upwards, each cut
//! to a whole number towards zero. For a direction given as a vector
//! `(hx, hy)` the cosine is `hx` over the vector's length and the sine is
//! `hy` over it, so both cuts can be found with whole numbers alone.

use crate::input::Heading;
use vstd::prelude::*;

verus! {

/// Whether `n` is `speed * |along| / sqrt(norm2)` cut to a whole number: the
/// one `n` from zero up whose square times `norm2` does not exceed the square
/// of `speed * along`, while that of `n + 1` does.
pub open spec fn is_reach(n: int, speed: int, along: int, norm2: int) -> bool {
    &&& 0 <= n
    &&& n * n * norm2 <= speed * speed * along * along
    &&& speed * speed * along * along < (n + 1) * (n + 1) * norm2
}

/// `speed * |along| / sqrt(norm2)` cut to a whole number, where `norm2` is
/// positive.
pub open spec fn reach(speed: int, along: int, norm2: int) -> int {
    choose|n: int| is_reach(n, speed, along, norm2)
}

/// The sign of a number: -1, 0 or 1.
pub open spec fn signum(value: int) -> int {
    if value > 0 {
        1
    } else if value < 0 {
        -1
    } else {
        0
    }
}

/// The unit step of an eighth of a turn below eight, as far right and as far
/// up as it goes: right is `(1, 0)`, up is `(0, 1)`, and the diagonals take
/// one unit on both axes.
pub open spec fn eighth_direction(eighth: int) -> (int, int) {
    if eighth == 0 {
        (1, 0)
    } else if eighth == 1 {
        (1, 1)
    } else if eighth == 2 {
        (0, 1)
    } else if eighth == 3 {
        (-1, 1)
    } else if eighth == 4 {
        (-1, 0)
    } else if eighth == 5 {
        (-1, -1)
    } else if eighth == 6 {
        (0, -1)
    } else {
        (1, -1)
    }
}

impl Heading {
    /// A vector that points along the heading, its first part to the right
    /// and its second upwards. Eighths of a turn repeat after eight; a stick
    /// pushed down has a negative second part; a stick at rest points right,
    /// as the angle zero does.
    pub open spec fn direction(self) -> (int, int) {
        match self {
            Heading::Eighths(eighth) => eighth_direction(eighth as int % 8),
            Heading::Stick { x, y } => if x == 0 && y == 0 {
                (1, 0)
            } else {
                (x as int, -(y as int))
            },
        }
    }

    /// The step of `speed` units along the heading, in whole units to the
    /// right and upwards: `speed` times the cosine and the sine of the
    /// heading's angle, each cut towards zero.
    pub open spec fn step(self, speed: u8) -> (int, int) {
        let (hx, hy) = self.direction();
        let norm2 = hx * hx + hy * hy;
        (
            signum(hx) * reach(speed as int, hx, norm2),
            signum(hy) * reach(speed as int, hy, norm2),
        )
    }
}

/// The square of `speed * along`, which is never negative.
proof fn lemma_target_nonnegative(speed: int, along: int)
    ensures
        0 <= speed * speed * along * along,
{
    assert(speed * speed * along * along == (speed * along) * (speed * along))
        by (nonlinear_arith);
    assert(0 <= (speed * along) * (speed * along)) by (nonlinear_arith);
}

/// A reach below another would contradict the bound of the lower one.
proof fn lemma_reach_ordered(n: int, m: int, speed: int, along: int, norm2: int)
    requires
        is_reach(n, speed, along, norm2),
        is_reach(m, speed, along, norm2),
    ensures
        n >= m,
{
    if n < m {
        let low = (n + 1) * (n + 1);
        let high = m * m;
        lemma_target_nonnegative(speed, along);
        assert(0 < low <= high) by (nonlinear_arith)
            requires
                0 <= n < m,
                low == (n + 1) * (n + 1),
                high == m * m,
        ;
        assert(low * norm2 <= high * norm2) by (nonlinear_arith)
            requires
                0 < low <= high,
                0 < low * norm2,
        ;
    }
}

/// At most one number is the reach of a speed along a direction.
pub proof fn lemma_reach_unique(n: int, m: int, speed: int, along: int, norm2: int)
    requires
        is_reach(n, speed, along, norm2),
        is_reach(m, speed, along, norm2),
    ensures
        n == m,
{
    lemma_reach_ordered(n, m, speed, along, norm2);
    lemma_reach_ordered(m, n, speed, along, norm2);
}

/// A number that is the reach is the value of `reach`.
pub proof fn lemma_reach_is(n: int, speed: int, along: int, norm2: int)
    requires
        is_reach(n, speed, along, norm2),
    ensures
        reach(speed, along, norm2) == n,
{
    lemma_reach_unique(n, reach(speed, along, norm2), speed, along, norm2);
}

/// A step never covers more than `speed` units on either axis, and it moves
/// to the side to which the heading points.
pub proof fn lemma_step_within_speed(heading: Heading, speed: u8)
    ensures
        -(speed as int) <= heading.step(speed).0 <= speed,
        -(speed as int) <= heading.step(speed).1 <= speed,
        signum(heading.step(speed).0) == signum(heading.direction().0) || heading.step(speed).0
            == 0,
        signum(heading.step(speed).1) == signum(heading.direction().1) || heading.step(speed).1
            == 0,
{
    let (hx, hy) = heading.direction();
    let norm2 = hx * hx + hy * hy;
    assert(hx * hx >= 0 && hy * hy >= 0 && norm2 > 0) by (nonlinear_arith)
        requires
            norm2 == hx * hx + hy * hy,
            hx != 0 || hy != 0,
    ;
    lemma_reach_exists(speed as int, hx, norm2);
    lemma_reach_exists(speed as int, hy, norm2);
}

/// With a positive `norm2` that is at least the square of `along`, the reach
/// exists and does not exceed the speed.
pub proof fn lemma_reach_exists(speed: int, along: int, norm2: int)
    requires
        0 <= speed,
        0 < norm2,
        along * along <= norm2,
    ensures
        is_reach(reach(speed, along, norm2), speed, along, norm2),
        0 <= reach(speed, along, norm2) <= speed,
{
    lemma_target_nonnegative(speed, along);
    let n = lemma_reach_search(0, speed, along, norm2);
    lemma_reach_is(n, speed, along, norm2);
}

/// Counts up from `from` to the reach.
proof fn lemma_reach_search(from: int, speed: int, along: int, norm2: int) -> (n: int)
    requires
        0 <= from <= speed,
        0 < norm2,
        along * along <= norm2,
        from * from * norm2 <= speed * speed * along * along,
    ensures
        is_reach(n, speed, along, norm2),
        from <= n <= speed,
    decreases speed - from,
{
    if (from + 1) * (from + 1) * norm2 <= speed * speed * along * along {
        assert(from + 1 <= speed) by (nonlinear_arith)
            requires
                0 <= from,
                0 <= speed,
                0 < norm2,
                along * along <= norm2,
                (from + 1) * (from + 1) * norm2 <= speed * speed * along * along,
        ;
        lemma_reach_search(from + 1, speed, along, norm2)
    } else {
        from
    }
}

/// The heading's direction as machine numbers.
pub fn direction_of(heading: Heading) -> (direction: (i32, i32))
    ensures
        (direction.0 as int, direction.1 as int) == heading.direction(),
        direction.0 != 0 || direction.1 != 0,
        -32768 <= direction.0 <= 32768,
        -32768 <= direction.1 <= 32768,
{
    match heading {
        Heading::Eighths(eighth) => {
            let turned: u8 = eighth % 8;
            if turned == 0 {
                (1, 0)
            } else if turned == 1 {
                (1, 1)
            } else if turned == 2 {
                (0, 1)
            } else if turned == 3 {
                (-1, 1)
            } else if turned == 4 {
                (-1, 0)
            } else if turned == 5 {
                (-1, -1)
            } else if turned == 6 {
                (0, -1)
            } else {
                (1, -1)
            }
        },
        Heading::Stick { x, y } => {
            if x == 0 && y == 0 {
                (1, 0)
            } else {
                (x as i32, -(y as i32))
            }
        },
    }
}

/// `speed * |along| / sqrt(norm2)`, cut to a whole number.
pub fn reach_of(speed: u8, along: i32, norm2: u64) -> (n: u8)
    requires
        0 < norm2 <= 0x8000_0000,
        along * along <= norm2,
    ensures
        n == reach(speed as int, along as int, norm2 as int),
        is_reach(n as int, speed as int, along as int, norm2 as int),
        n <= speed,
{
    let wide: i64 = along as i64;
    let magnitude: u64 = if wide < 0 {
        (-wide) as u64
    } else {
        wide as u64
    };
    assert(magnitude * magnitude == along * along) by (nonlinear_arith)
        requires
            magnitude == along || magnitude == -along,
    ;
    assert(magnitude <= 0x10000) by (nonlinear_arith)
        requires
            magnitude * magnitude <= 0x8000_0000,
            0 <= magnitude,
    ;
    assert(speed * speed <= 0x10000) by (nonlinear_arith)
        requires
            0 <= speed <= 255,
    ;
    assert(magnitude * magnitude <= 0x8000_0000);
    let pace: u64 = speed as u64 * speed as u64;
    let span: u64 = magnitude * magnitude;
    assert(pace * span <= 0x10000 * 0x8000_0000) by (nonlinear_arith)
        requires
            0 <= pace <= 0x10000,
            0 <= span <= 0x8000_0000,
    ;
    let target: u64 = pace * span;
    assert(target == speed * speed * along * along) by (nonlinear_arith)
        requires
            target == pace * span,
            pace == speed * speed,
            span == along * along,
    ;
    let mut n: u8 = 0;
    assert(n * n * norm2 == 0) by (nonlinear_arith)
        requires
            n == 0,
    ;
    while n < speed
        invariant
            n <= speed,
            0 < norm2 <= 0x8000_0000,
            n * n * norm2 <= target,
        ensures
            n <= speed,
            n * n * norm2 <= target,
            n < speed ==> target < (n + 1) * (n + 1) * norm2,
        decreases speed - n,
    {
        let next: u64 = n as u64 + 1;
        assert(next * next <= 0x10000) by (nonlinear_arith)
            requires
                0 <= next <= 256,
        ;
        assert(next * next * norm2 <= 0x10000 * 0x8000_0000) by (nonlinear_arith)
            requires
                0 <= next * next <= 0x10000,
                0 <= norm2 <= 0x8000_0000,
        ;
        if next * next * norm2 > target {
            break ;
        }
        n = n + 1;
    }
    proof {
        if n == speed {
            assert(speed * speed * along * along < (n + 1) * (n + 1) * norm2) by (nonlinear_arith)
                requires
                    n == speed,
                    0 <= speed,
                    0 < norm2,
                    0 <= along * along <= norm2,
            ;
        }
        lemma_reach_is(n as int, speed as int, along as int, norm2 as int);
    }
    n
}

/// The step of `speed` units along `heading`: the whole units to the right
/// and the whole units upwards.
pub fn step_of(heading: Heading, speed: u8) -> (step: (i32, i32))
    ensures
        (step.0 as int, step.1 as int) == heading.step(speed),
        -(speed as int) <= step.0 <= speed,
        -(speed as int) <= step.1 <= speed,
{
    let (hx, hy) = direction_of(heading);
    assert(0 <= hx * hx <= 0x4000_0000 && 0 <= hy * hy <= 0x4000_0000 && hx * hx + hy * hy > 0)
        by (nonlinear_arith)
        requires
            -32768 <= hx <= 32768,
            -32768 <= hy <= 32768,
            hx != 0 || hy != 0,
    ;
    let norm2: u64 = (hx as i64 * hx as i64 + hy as i64 * hy as i64) as u64;
    let right: i32 = reach_of(speed, hx, norm2) as i32;
    let up: i32 = reach_of(speed, hy, norm2) as i32;
    let dx: i32 = if hx > 0 {
        right
    } else if hx < 0 {
        -right
    } else {
        0
    };
    let dy: i32 = if hy > 0 {
        up
    } else if hy < 0 {
        -up
    } else {
        0
    };
    proof {
        assert(signum(hx as int) * (right as int) == dx) by (nonlinear_arith)
            requires
                dx == (if hx > 0 {
                    right as int
                } else if hx < 0 {
                    -(right as int)
                } else {
                    0
                }),
        ;
        assert(signum(hy as int) * (up as int) == dy) by (nonlinear_arith)
            requires
                dy == (if hy > 0 {
                    up as int
                } else if hy < 0 {
                    -(up as int)
                } else {
                    0
                }),
        ;
    }
    (dx, dy)
}

} // verus!
