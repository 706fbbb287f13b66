//! A colourful test pattern for checking how textures map onto meshes.
use vstd::prelude::*;

verus! {

/// Width and height of the test pattern, in pixels.
pub const TEXTURE_SIZE: usize = 8;

/// Bytes in one row of the pattern: four (RGBA) per pixel.
pub const ROW_BYTES: usize = 32;

/// The first row of the pattern, as RGBA bytes.
pub open spec fn palette() -> Seq<u8> {
    seq![
        255u8, 102, 159, 255, 255, 159, 102, 255, 236, 255, 102, 255, 121, 255, 102, 255, 102, 255,
        198, 255, 102, 198, 255, 255, 121, 102, 255, 255, 236, 102, 255, 255,
    ]
}

/// Byte `i` of the pattern, rows laid out one after another: each row is
/// the row above shifted right by one pixel, wrapping around.
pub open spec fn pattern_byte(i: int) -> u8 {
    palette()[(i % 32 - 4 * (i / 32)) % 32]
}

/// The RGBA bytes of the 8 by 8 test pattern, row after row.
pub fn uv_debug_texture_data() -> (r: Vec<u8>)
    ensures
        r@.len() == TEXTURE_SIZE * ROW_BYTES,
        forall|i: int| 0 <= i < r@.len() ==> #[trigger] r@[i] == pattern_byte(i),
{
    let row0: [u8; 32] = [
        255, 102, 159, 255, 255, 159, 102, 255, 236, 255, 102, 255, 121, 255, 102, 255, 102, 255,
        198, 255, 102, 198, 255, 255, 121, 102, 255, 255, 236, 102, 255, 255,
    ];
    assert(row0@ =~= palette());
    let total: usize = TEXTURE_SIZE * ROW_BYTES;
    let mut data: Vec<u8> = Vec::new();
    let mut i: usize = 0;
    while i < total
        invariant
            i <= total,
            total == 256,
            row0@ == palette(),
            data@.len() == i,
            forall|j: int| 0 <= j < i ==> #[trigger] data@[j] == pattern_byte(j),
        decreases total - i,
    {
        let y: usize = i / ROW_BYTES;
        let k: usize = i % ROW_BYTES;
        let idx: usize = (k + 32 - 4 * y) % 32;
        assert(idx == (k - 4 * y) % 32);
        data.push(row0[idx]);
        i = i + 1;
    }
    data
}

} // verus!
