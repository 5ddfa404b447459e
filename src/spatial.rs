//! Canvas settings and the mapping from pixel coordinates to chunk coordinates.

use vstd::prelude::*;

verus! {

/// A point on the canvas as participants send it: each coordinate is the
/// IEEE 754 bit pattern of a single-precision number. The library stores and
/// forwards such points unchanged and never computes on them.
#[derive(Debug, Clone, Copy, PartialEq, Eq, Hash, Structural)]
pub struct Vec2 {
    pub x: u32,
    pub y: u32,
}

/// A pixel of the canvas, in whole pixels.
#[derive(Debug, Clone, Copy, PartialEq, Eq, Hash, Structural)]
pub struct PixelPoint {
    pub x: i32,
    pub y: i32,
}

/// The address of one chunk in the grid.
#[derive(Debug, Clone, Copy, PartialEq, Eq, Hash, Structural)]
pub struct ChunkPosition {
    pub x: i32,
    pub y: i32,
}

impl ChunkPosition {
    pub fn new(x: i32, y: i32) -> (r: ChunkPosition)
        ensures
            r.x == x,
            r.y == y,
    {
        ChunkPosition { x, y }
    }
}

/// Policy of one canvas, fixed for its lifetime.
#[derive(Debug, Clone, Copy)]
pub struct Settings {
    pub max_chunks: usize,
    pub max_sessions: usize,
    pub paint_area: u32,
    pub chunk_size: u32,
}

/// `x / d` rounded towards negative infinity.
pub open spec fn floor_div(x: int, d: int) -> int {
    x / d
}

/// `x / d` rounded towards positive infinity.
pub open spec fn ceil_div(x: int, d: int) -> int {
    -((-x) / d)
}

proof fn lemma_floor_negative(x: int, d: int)
    requires
        x < 0,
        d > 0,
    ensures
        x / d == -((-x + d - 1) / d),
{
    let q = (-x + d - 1) / d;
    let r = (-x + d - 1) % d;
    vstd::arithmetic::div_mod::lemma_fundamental_div_mod(-x + d - 1, d);
    assert(-x + d - 1 == d * q + r && 0 <= r < d);
    assert(x == (-q) * d + (d - 1 - r)) by (nonlinear_arith)
        requires
            -x + d - 1 == d * q + r,
    ;
    vstd::arithmetic::div_mod::lemma_fundamental_div_mod_converse(x, d, -q, d - 1 - r);
}

proof fn lemma_round_up_quotient_bound(n: int, d: int)
    requires
        n >= 0,
        d >= 1,
    ensures
        0 <= (n + d - 1) / d <= n,
{
    let q = (n + d - 1) / d;
    vstd::arithmetic::div_mod::lemma_fundamental_div_mod(n + d - 1, d);
    let r = (n + d - 1) % d;
    assert(0 <= r < d);
    assert(0 <= q) by (nonlinear_arith)
        requires
            n + d - 1 == d * q + r,
            n >= 0,
            0 <= r < d,
    ;
    assert(q <= n) by (nonlinear_arith)
        requires
            n + d - 1 == d * q + r,
            n >= 0,
            d >= 1,
            0 <= r < d,
            q >= 0,
    ;
}

impl Settings {
    /// The chunk column (or row) that holds pixel coordinate `x`.
    pub fn chunk_at_1d(&self, x: i32) -> (r: i32)
        requires
            self.chunk_size > 0,
        ensures
            r as int == floor_div(x as int, self.chunk_size as int),
    {
        let d: u64 = self.chunk_size as u64;
        if x >= 0 {
            let q: u64 = (x as u64) / d;
            proof {
                vstd::arithmetic::div_mod::lemma_div_is_ordered_by_denominator(x as int, 1, d as int);
            }
            q as i32
        } else {
            let n: u64 = (0i64 - x as i64) as u64;
            let q: u64 = (n + d - 1) / d;
            proof {
                lemma_floor_negative(x as int, d as int);
                lemma_round_up_quotient_bound(n as int, d as int);
            }
            (0i64 - q as i64) as i32
        }
    }

    /// The chunk column (or row) whose far edge lies at or past pixel coordinate `x`.
    pub fn chunk_at_1d_ceil(&self, x: i32) -> (r: i32)
        requires
            self.chunk_size > 0,
        ensures
            r as int == ceil_div(x as int, self.chunk_size as int),
    {
        let d: u64 = self.chunk_size as u64;
        if x <= 0 {
            let n: u64 = (0i64 - x as i64) as u64;
            let q: u64 = n / d;
            proof {
                vstd::arithmetic::div_mod::lemma_div_is_ordered_by_denominator(n as int, 1, d as int);
            }
            (0i64 - q as i64) as i32
        } else {
            let q: u64 = (x as u64 + d - 1) / d;
            proof {
                lemma_floor_negative(-x, d as int);
                lemma_round_up_quotient_bound(x as int, d as int);
            }
            q as i32
        }
    }

    /// The chunk that holds a pixel.
    pub fn chunk_at(&self, position: PixelPoint) -> (r: ChunkPosition)
        requires
            self.chunk_size > 0,
        ensures
            r.x == floor_div(position.x as int, self.chunk_size as int),
            r.y == floor_div(position.y as int, self.chunk_size as int),
    {
        ChunkPosition::new(self.chunk_at_1d(position.x), self.chunk_at_1d(position.y))
    }

    /// The chunk whose far corner lies at or past a pixel: `chunk_at` rounded up.
    pub fn chunk_at_ceil(&self, position: PixelPoint) -> (r: ChunkPosition)
        requires
            self.chunk_size > 0,
        ensures
            r.x == ceil_div(position.x as int, self.chunk_size as int),
            r.y == ceil_div(position.y as int, self.chunk_size as int),
    {
        ChunkPosition::new(self.chunk_at_1d_ceil(position.x), self.chunk_at_1d_ceil(position.y))
    }
}

} // verus!
