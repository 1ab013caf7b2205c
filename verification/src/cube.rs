//! The 64-slot colour buffer behind the LED cube.
//!
//! Pixels are stored in physical wiring order; every coordinate-based
//! access goes through the serpentine mapping in [`crate::voxel`], so the
//! bulk fills state their effect per index through that mapping.

use vstd::prelude::*;

use crate::apa106led::Apa106Led;
use crate::voxel::Voxel;

verus! {

/// One complete frame: the colour of each of the 64 voxels, indexed by
/// wiring order.
#[derive(Debug)]
pub struct Cube {
    frame: Vec<Apa106Led>,
}

impl View for Cube {
    type V = Seq<Apa106Led>;

    closed spec fn view(&self) -> Seq<Apa106Led> {
        self.frame@
    }
}

impl Cube {
    /// The frame always holds exactly one colour per voxel.
    #[verifier::type_invariant]
    pub closed spec fn wf(self) -> bool {
        self.frame@.len() == 64
    }

    /// A fresh cube, each voxel set to the faint red power-on colour.
    pub fn new() -> (c: Cube)
        ensures
            c@.len() == 64,
            forall|i: int| 0 <= i < 64 ==> c@[i] == (Apa106Led { red: 1, green: 0, blue: 0 }),
    {
        let blank = Apa106Led { red: 1, green: 0, blue: 0 };
        let mut frame: Vec<Apa106Led> = Vec::new();
        for n in 0..64usize
            invariant
                frame@.len() == n,
                forall|i: int| 0 <= i < n ==> frame@[i] == blank,
        {
            frame.push(blank);
        }
        Cube { frame }
    }

    /// The number of voxels in the frame: always 64.
    pub fn len(&self) -> (n: usize)
        ensures
            n == self@.len(),
            n == 64,
    {
        proof {
            use_type_invariant(self);
        }
        self.frame.len()
    }

    /// Read-only view of the whole frame, for the encoder.
    pub fn frame(&self) -> (f: &Vec<Apa106Led>)
        ensures
            f@ == self@,
            f@.len() == 64,
    {
        proof {
            use_type_invariant(self);
        }
        &self.frame
    }

    /// The colour at a wiring-order index.
    pub fn get_at_index(&self, index: usize) -> (c: Apa106Led)
        requires
            index < 64,
        ensures
            c == self@[index as int],
    {
        proof {
            use_type_invariant(self);
        }
        self.frame[index]
    }

    /// Overwrite the colour at a wiring-order index.
    pub fn set_at_index(&mut self, index: usize, colour: Apa106Led)
        requires
            index < 64,
        ensures
            final(self)@ == old(self)@.update(index as int, colour),
    {
        proof {
            use_type_invariant(&*self);
        }
        self.frame[index] = colour;
    }

    /// Overwrite the colour at a coordinate.
    pub fn set_at_coord(&mut self, coord: Voxel, colour: Apa106Led)
        requires
            coord.in_bounds(),
        ensures
            final(self)@ == old(self)@.update(coord.spec_index_of(), colour),
    {
        let idx = coord.into_index();

        self.set_at_index(idx, colour);
    }

    /// The colour at a coordinate.
    pub fn get_at_coord(&self, coord: Voxel) -> (c: Apa106Led)
        requires
            coord.in_bounds(),
        ensures
            c == self@[coord.spec_index_of()],
    {
        let idx = coord.into_index();

        self.get_at_index(idx)
    }

    /// Set every voxel to one colour.
    pub fn fill(&mut self, fill_colour: Apa106Led)
        ensures
            final(self)@.len() == 64,
            forall|i: int| 0 <= i < 64 ==> final(self)@[i] == fill_colour,
    {
        proof {
            use_type_invariant(&*self);
        }
        for n in 0..64usize
            invariant
                self@.len() == 64,
                forall|i: int| 0 <= i < n ==> self@[i] == fill_colour,
        {
            self.set_at_index(n, fill_colour);
        }
    }

    /// Set every voxel of one horizontal z-layer, leaving the rest alone.
    pub fn fill_layer(&mut self, layer: u8, fill_colour: Apa106Led)
        requires
            layer < 4,
        ensures
            final(self)@.len() == 64,
            forall|i: int|
                0 <= i < 64 ==> final(self)@[i] == if Voxel::spec_from_index(i).z == layer {
                    fill_colour
                } else {
                    old(self)@[i]
                },
    {
        proof {
            use_type_invariant(&*self);
        }
        for n in 0..64usize
            invariant
                self@.len() == 64,
                forall|i: int|
                    0 <= i < n ==> self@[i] == if Voxel::spec_from_index(i).z == layer {
                        fill_colour
                    } else {
                        old(self)@[i]
                    },
                forall|i: int| n <= i < 64 ==> self@[i] == old(self)@[i],
        {
            let v = Voxel::from_index(n);
            if v.z == layer {
                self.set_at_index(n, fill_colour);
            }
        }
    }

    /// Set every voxel of one x-slice, leaving the rest alone.
    pub fn fill_slice(&mut self, slice: u8, fill_colour: Apa106Led)
        requires
            slice < 4,
        ensures
            final(self)@.len() == 64,
            forall|i: int|
                0 <= i < 64 ==> final(self)@[i] == if Voxel::spec_from_index(i).x == slice {
                    fill_colour
                } else {
                    old(self)@[i]
                },
    {
        proof {
            use_type_invariant(&*self);
        }
        for n in 0..64usize
            invariant
                self@.len() == 64,
                forall|i: int|
                    0 <= i < n ==> self@[i] == if Voxel::spec_from_index(i).x == slice {
                        fill_colour
                    } else {
                        old(self)@[i]
                    },
                forall|i: int| n <= i < 64 ==> self@[i] == old(self)@[i],
        {
            let v = Voxel::from_index(n);
            if v.x == slice {
                self.set_at_index(n, fill_colour);
            }
        }
    }

    /// Set every voxel of one y-panel, leaving the rest alone.
    pub fn fill_panel(&mut self, panel: u8, fill_colour: Apa106Led)
        requires
            panel < 4,
        ensures
            final(self)@.len() == 64,
            forall|i: int|
                0 <= i < 64 ==> final(self)@[i] == if Voxel::spec_from_index(i).y == panel {
                    fill_colour
                } else {
                    old(self)@[i]
                },
    {
        proof {
            use_type_invariant(&*self);
        }
        for n in 0..64usize
            invariant
                self@.len() == 64,
                forall|i: int|
                    0 <= i < n ==> self@[i] == if Voxel::spec_from_index(i).y == panel {
                        fill_colour
                    } else {
                        old(self)@[i]
                    },
                forall|i: int| n <= i < 64 ==> self@[i] == old(self)@[i],
        {
            let v = Voxel::from_index(n);
            if v.y == panel {
                self.set_at_index(n, fill_colour);
            }
        }
    }

    /// Set all four voxels above the (x, y) position of `column`, leaving
    /// the rest alone.
    pub fn fill_column(&mut self, column: Voxel, fill_colour: Apa106Led)
        requires
            column.x < 4,
            column.y < 4,
        ensures
            final(self)@.len() == 64,
            forall|i: int|
                0 <= i < 64 ==> final(self)@[i] == if Voxel::spec_from_index(i).x == column.x
                    && Voxel::spec_from_index(i).y == column.y {
                    fill_colour
                } else {
                    old(self)@[i]
                },
    {
        proof {
            use_type_invariant(&*self);
        }
        for n in 0..64usize
            invariant
                self@.len() == 64,
                forall|i: int|
                    0 <= i < n ==> self@[i] == if Voxel::spec_from_index(i).x == column.x
                        && Voxel::spec_from_index(i).y == column.y {
                        fill_colour
                    } else {
                        old(self)@[i]
                    },
                forall|i: int| n <= i < 64 ==> self@[i] == old(self)@[i],
        {
            let v = Voxel::from_index(n);
            if v.x == column.x && v.y == column.y {
                self.set_at_index(n, fill_colour);
            }
        }
    }

    /// Fill by index from a slice of pixels.
    ///
    /// The slice should hold 64 colours to fill the cube.  Extra entries
    /// are ignored; a shorter slice fills only a prefix and deliberately
    /// leaves the remaining voxels at their previous values.
    pub fn fill_iter(&mut self, colours: &[Apa106Led])
        ensures
            final(self)@.len() == 64,
            forall|i: int|
                0 <= i < 64 ==> final(self)@[i] == if i < colours@.len() {
                    colours@[i]
                } else {
                    old(self)@[i]
                },
    {
        proof {
            use_type_invariant(&*self);
        }
        let count = if colours.len() < 64 {
            colours.len()
        } else {
            64
        };
        for n in 0..count
            invariant
                count <= 64,
                count <= colours@.len(),
                colours@.len() < 64 ==> count == colours@.len(),
                self@.len() == 64,
                forall|i: int| 0 <= i < n ==> self@[i] == colours@[i],
                forall|i: int| n <= i < 64 ==> self@[i] == old(self)@[i],
        {
            self.set_at_index(n, colours[n]);
        }
    }
}

} // verus!
