//! Lattice gradient noise: the permutation table, the hashing of lattice
//! corners and the choice of a gradient for each corner.
//!
//! Everything here works on integers. A caller that evaluates the noise at
//! real coordinates takes the floor of each coordinate, asks this library for
//! the gradients at the eight corners of the cell, and interpolates.

pub mod gradient;
pub mod perlin;
pub mod permutation;
pub mod pixels;
pub mod shuffle;
