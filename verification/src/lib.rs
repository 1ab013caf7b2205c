//! Animation engine and wire-format encoder for a 4x4x4 cube of APA106 RGB
//! LEDs.
//!
//! The cube is wired as one continuous serpentine data line; `voxel` maps
//! between (x, y, z) coordinates and positions along that line.  Patterns
//! generate a colour per voxel from elapsed time, transitions blend two
//! patterns over a fixed duration, and the director sequences both.  The
//! encoder turns a 64-colour frame into the byte stream that reproduces the
//! LED protocol's one-wire waveform when shifted out at a fixed byte rate.

pub mod apa106led;
pub mod colour_functions;
pub mod cube;
pub mod encoder;
pub mod patterns;
pub mod ratio;
mod rng;
pub mod state;
pub mod transitions;
pub mod voxel;
pub mod wave;
