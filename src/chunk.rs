//! One square pixel tile of the canvas.

use vstd::prelude::*;

use tiny_skia::Pixmap;

verus! {

#[verifier::external_type_specification]
#[verifier::external_body]
pub struct ExPixmap(Pixmap);

/// Side lengths for which a square pixel buffer can be laid out: four bytes
/// per pixel, a row addressable by `i32`, the whole buffer by `usize`.
pub open spec fn chunk_side_valid(side: u32) -> bool {
    0 < side && 4 * (side as int) <= i32::MAX && 4 * (side as int) * (side as int) <= usize::MAX
}

/// Whether a chunk of side `side` can be created.
pub fn is_valid_chunk_side(side: u32) -> (r: bool)
    ensures
        r == chunk_side_valid(side),
{
    let s: u128 = side as u128;
    if side == 0 || 4 * s > i32::MAX as u128 {
        return false;
    }
    assert(4 * s * s <= 4 * 0x8000_0000u128 * 0x8000_0000u128) by (nonlinear_arith)
        requires
            s <= 0x8000_0000u128,
    ;
    4 * s * s <= usize::MAX as u128
}

/// Relies on tiny_skia::Pixmap::new, which refuses a zero side, a row longer
/// than `i32::MAX` bytes, and a buffer length that overflows `usize`; the
/// width and height read back from the new pixmap are those it was made with.
#[verifier::external_body]
fn new_pixmap(side: u32) -> (r: Option<(Pixmap, u32, u32)>)
    ensures
        r is Some <==> chunk_side_valid(side),
        r matches Some(t) ==> t.1 == side && t.2 == side,
{
    Pixmap::new(side, side).map(|p| {
        let (w, h) = (p.width(), p.height());
        (p, w, h)
    })
}

pub struct Chunk {
    pub pixmap: Pixmap,
    width: u32,
    height: u32,
}

impl Chunk {
    /// Width and height of the tile as it was created.
    pub closed spec fn spec_side(&self) -> (u32, u32) {
        (self.width, self.height)
    }

    /// A blank tile of `size` by `size` pixels.
    pub fn new(size: u32) -> (r: Chunk)
        requires
            chunk_side_valid(size),
        ensures
            r.spec_side() == (size, size),
    {
        let (pixmap, width, height) = new_pixmap(size).unwrap();
        Chunk { pixmap, width, height }
    }

    /// Width and height of the tile as it was created.
    pub fn side(&self) -> (r: (u32, u32))
        ensures
            r == self.spec_side(),
    {
        (self.width, self.height)
    }
}

} // verus!
