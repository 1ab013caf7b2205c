//! Serialization of one frame into the LED protocol's wire bytes.
//!
//! Each of the 64 pixels expands to 24 bytes (8 per channel, most
//! significant bit first), one byte per logical protocol bit, followed by a
//! single trailing zero byte that holds the data line low once the
//! transfer ends.  Shifting the buffer out at a fixed byte rate reproduces
//! the one-wire high/low timing of the LEDs.

use vstd::prelude::*;

use crate::apa106led::spec_colour_bytes;
use crate::cube::Cube;

verus! {

/// Bytes in one encoded frame: 24 per pixel plus the trailing zero.
pub const FRAME_BYTES: usize = 64 * 24 + 1;

/// Encode a snapshot of the cube into the wire-format byte buffer: pixel
/// `i`'s 24 bytes start at offset `i * 24`, and the final byte is zero.
pub fn encode_frame(cube: &Cube) -> (data: Vec<u8>)
    ensures
        data@.len() == FRAME_BYTES,
        forall|i: int, j: int|
            0 <= i < 64 && 0 <= j < 24 ==> data@[i * 24 + j] == spec_colour_bytes(cube@[i], j),
        data@[1536] == 0u8,
{
    let mut data: Vec<u8> = Vec::new();

    for led_idx in 0..64usize
        invariant
            data@.len() == led_idx * 24,
            forall|i: int, j: int|
                0 <= i < led_idx && 0 <= j < 24 ==> data@[i * 24 + j] == spec_colour_bytes(
                    cube@[i],
                    j,
                ),
    {
        let colour = cube.get_at_index(led_idx);
        let raw = colour.as_bitbang_data();

        for byte_idx in 0..24usize
            invariant
                data@.len() == led_idx * 24 + byte_idx,
                forall|i: int, j: int|
                    0 <= i < led_idx && 0 <= j < 24 ==> data@[i * 24 + j] == spec_colour_bytes(
                        cube@[i],
                        j,
                    ),
                forall|j: int|
                    0 <= j < byte_idx ==> data@[led_idx * 24 + j] == spec_colour_bytes(
                        cube@[led_idx as int],
                        j,
                    ),
                colour == cube@[led_idx as int],
                forall|j: int| 0 <= j < 24 ==> raw[j] == spec_colour_bytes(colour, j),
        {
            data.push(raw[byte_idx]);
        }
    }

    // Hold the data line low after the last pixel.
    data.push(0u8);

    data
}

} // verus!
