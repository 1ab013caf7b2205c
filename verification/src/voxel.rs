//! Addressing for the 4x4x4 cube: the bidirectional mapping between a
//! (x, y, z) coordinate and the voxel's linear position along the physical
//! serpentine wiring of the LED data line.
//!
//! Within each z-layer the y-rows alternate x scan direction, and odd
//! z-layers reverse the row order, so that consecutive indices are always
//! physically adjacent on the wire.  The mapping is a bijection between
//! indices 0..64 and coordinates in [0,3]^3.

use vstd::prelude::*;

verus! {

/// One addressable position in the 4x4x4 LED cube.
#[derive(Copy, Clone, Debug, Default, PartialEq, Eq, Structural)]
pub struct Voxel {
    pub x: u8,
    pub y: u8,
    pub z: u8,
}

impl Voxel {
    /// All three coordinates lie inside the 4x4x4 cube.
    pub open spec fn in_bounds(self) -> bool {
        self.x < 4 && self.y < 4 && self.z < 4
    }

    /// The wiring-order index of a coordinate, as a mathematical function.
    pub open spec fn spec_index_of(self) -> int {
        let layer = if self.z % 2 == 0 {
            if self.y % 2 == 0 {
                4 * self.y + self.x
            } else {
                4 * self.y + 3 - self.x
            }
        } else {
            if self.y % 2 == 0 {
                (15 - 4 * self.y) - self.x
            } else {
                (12 - 4 * self.y) + self.x
            }
        };
        layer + 16 * self.z
    }

    /// The coordinate of a wiring-order index, as a mathematical function.
    pub open spec fn spec_from_index(idx: int) -> Voxel {
        let z = idx / 16;
        let rem = idx % 16;
        let row = rem / 4;
        let y = if z % 2 == 0 {
            row
        } else {
            3 - row
        };
        let col = rem % 4;
        let x = if (z % 2 == 0) == (y % 2 == 0) {
            col
        } else {
            3 - col
        };
        Voxel { x: x as u8, y: y as u8, z: z as u8 }
    }

    /// Decode a wiring-order index into its cube coordinate.
    pub fn from_index(idx: usize) -> (v: Self)
        requires
            idx < 64,
        ensures
            v == Self::spec_from_index(idx as int),
            v.in_bounds(),
    {
        let z = idx / 16;

        let remaining = idx % 16;

        let y = remaining / 4;

        let y = if z % 2 == 0 {
            y
        } else {
            3 - y
        };

        let x = remaining % 4;

        let x = if (z % 2 == 0) == (y % 2 == 0) {
            x
        } else {
            3 - x
        };

        Self { x: x as u8, y: y as u8, z: z as u8 }
    }

    /// Encode a cube coordinate as its wiring-order index.
    pub fn into_index(self) -> (idx: usize)
        requires
            self.in_bounds(),
        ensures
            idx == self.spec_index_of(),
            idx < 64,
    {
        let index: usize = if self.z % 2 == 0 {
            if self.y % 2 == 0 {
                4 * (self.y as usize) + self.x as usize
            } else {
                4 * (self.y as usize) + 3 - self.x as usize
            }
        } else {
            if self.y % 2 == 0 {
                (15 - 4 * (self.y as usize)) - self.x as usize
            } else {
                (12 - 4 * (self.y as usize)) + self.x as usize
            }
        };

        index + (self.z as usize) * 16
    }
}

/// Decoding is the inverse of encoding: every index in 0..64 survives a
/// round trip through `spec_from_index` and `spec_index_of`.
pub proof fn lemma_index_round_trip(idx: int)
    requires
        0 <= idx < 64,
    ensures
        Voxel::spec_from_index(idx).spec_index_of() == idx,
        Voxel::spec_from_index(idx).in_bounds(),
{
}

/// The wiring really is one continuous path: voxels at consecutive
/// indices are physically adjacent, differing by exactly one step along
/// exactly one axis.
pub proof fn lemma_serpentine_adjacency(idx: int)
    requires
        0 <= idx < 63,
    ensures
        ({
            let a = Voxel::spec_from_index(idx);
            let b = Voxel::spec_from_index(idx + 1);
            let dx = if a.x >= b.x {
                a.x - b.x
            } else {
                b.x - a.x
            };
            let dy = if a.y >= b.y {
                a.y - b.y
            } else {
                b.y - a.y
            };
            let dz = if a.z >= b.z {
                a.z - b.z
            } else {
                b.z - a.z
            };
            dx + dy + dz == 1
        }),
{
}

/// Encoding is the inverse of decoding: every in-bounds coordinate survives
/// a round trip through `spec_index_of` and `spec_from_index`.
pub proof fn lemma_voxel_round_trip(v: Voxel)
    requires
        v.in_bounds(),
    ensures
        Voxel::spec_from_index(v.spec_index_of()) == v,
        0 <= v.spec_index_of() < 64,
{
}

} // verus!
