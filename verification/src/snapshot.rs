//! Reading pixels out of rendered UI snapshots (tightly packed RGBA8).
use vstd::prelude::*;

verus! {

/// The byte offset of pixel (`x`, `y`) in a buffer `width` pixels wide.
pub open spec fn pixel_offset(width: u32, x: u32, y: u32) -> int {
    (y * width + x) * 4
}

/// Sample one RGBA pixel out of a tightly-packed RGBA8 buffer.
pub fn sample_pixel(buffer: &[u8], width: u32, x: u32, y: u32) -> (r: [u8; 4])
    requires
        pixel_offset(width, x, y) <= u32::MAX,
        pixel_offset(width, x, y) + 4 <= buffer@.len(),
    ensures
        r@ == buffer@.subrange(pixel_offset(width, x, y), pixel_offset(width, x, y) + 4),
{
    assert(0 <= y * width) by (nonlinear_arith);
    assert(y * width <= (y * width + x) * 4) by (nonlinear_arith);
    let idx = ((y * width + x) * 4) as usize;
    let r = [buffer[idx], buffer[idx + 1], buffer[idx + 2], buffer[idx + 3]];
    assert(r@ =~= buffer@.subrange(idx as int, idx + 4));
    r
}

} // verus!
