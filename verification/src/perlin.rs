//! The noise generator's lookup table and the hashing of lattice corners.

use crate::gradient::{gradient_of, Gradient};
use crate::permutation::{
    build_table, check_permutation, identity, identity_order, is_permutation, is_table,
    lemma_identity_is_permutation, lemma_rearranged_permutation, lemma_table_of_permutation,
    table_of,
};
use crate::shuffle::{seeded_order, shuffle, shuffle_seeded};
use vstd::prelude::*;

verus! {

/// The index, from 0 to 255, of the lattice cell that holds a coordinate
/// whose floor is `c`: cells repeat with period 256.
pub open spec fn cell_of(c: int) -> int {
    c % 256
}

/// The hash of the lattice corner reached through the table indices `x`, `y`
/// and `z`, each from 0 to 256: three chained lookups.
pub open spec fn corner_hash(t: Seq<u8>, x: int, y: int, z: int) -> u8 {
    t[t[t[x] + y] + z]
}

/// The hashes of the eight corners of the cell with indices `xi`, `yi`, `zi`.
/// The corner at offset `(dx, dy, dz)`, each 0 or 1, stands at position
/// `dx + 2 * dy + 4 * dz`.
pub open spec fn corner_hashes_of(t: Seq<u8>, xi: int, yi: int, zi: int) -> Seq<u8> {
    Seq::new(8, |k: int| corner_hash(t, xi + k % 2, yi + (k / 2) % 2, zi + k / 4))
}

/// The gradients of the eight corners of a cell, in the order of
/// `corner_hashes_of`.
pub open spec fn corner_gradients_of(t: Seq<u8>, xi: int, yi: int, zi: int) -> Seq<Gradient> {
    Seq::new(8, |k: int| gradient_of(corner_hashes_of(t, xi, yi, zi)[k]))
}

/// The hash of the lattice point with integer coordinates `(px, py, pz)`.
pub open spec fn point_hash(t: Seq<u8>, px: int, py: int, pz: int) -> u8 {
    corner_hash(t, cell_of(px), cell_of(py), cell_of(pz))
}

/// The table that a seed gives.
pub open spec fn seeded_table(seed: u64) -> Seq<u8> {
    table_of(seeded_order(seed, identity_order()))
}

/// A gradient-noise generator: a permutation of the byte values, laid out
/// twice over so that a chained lookup never leaves the table.
pub struct Perlin {
    perm: [u8; 512],
}

impl View for Perlin {
    type V = Seq<u8>;

    closed spec fn view(&self) -> Seq<u8> {
        self.perm@
    }
}

impl Perlin {
    #[verifier::type_invariant]
    spec fn well_formed(&self) -> bool {
        is_table(self.perm@)
    }

    /// A generator whose permutation is drawn at random.
    pub fn new() -> (r: Perlin)
        ensures
            is_table(r@),
    {
        let mut p = identity();
        shuffle(&mut p);
        proof {
            lemma_identity_is_permutation();
            lemma_rearranged_permutation(identity_order(), p@);
            lemma_table_of_permutation(p@);
        }
        Perlin { perm: build_table(p.as_slice()) }
    }

    /// A generator whose permutation is drawn from a seed: the same seed
    /// gives the same table.
    pub fn from_seed(seed: u64) -> (r: Perlin)
        ensures
            r@ == seeded_table(seed),
            is_table(r@),
    {
        let mut p = identity();
        shuffle_seeded(&mut p, seed);
        proof {
            lemma_identity_is_permutation();
            lemma_rearranged_permutation(identity_order(), p@);
            lemma_table_of_permutation(p@);
        }
        Perlin { perm: build_table(p.as_slice()) }
    }

    /// A generator with the permutation `p`, if `p` is one.
    pub fn from_permutation(p: &[u8]) -> (r: Option<Perlin>)
        ensures
            r is Some <==> is_permutation(p@),
            r is Some ==> r->Some_0@ == table_of(p@),
    {
        if !check_permutation(p) {
            return None;
        }
        proof {
            lemma_table_of_permutation(p@);
        }
        Some(Perlin { perm: build_table(p) })
    }

    /// The lookup table. Whatever generator this is, its first 256 entries
    /// hold each byte value once, and the last 256 repeat them.
    pub fn table(&self) -> (t: &[u8; 512])
        ensures
            t@ == self@,
            is_table(t@),
    {
        proof {
            use_type_invariant(self);
        }
        &self.perm
    }

    /// The index of the lattice cell that holds a coordinate whose floor is
    /// `c`.
    pub fn cell(c: i32) -> (i: u8)
        ensures
            i == cell_of(c as int),
    {
        let i: i32 = c & 255;
        assert(0 <= i < 256 && i == (c as int) % 256) by (bit_vector)
            requires
                i == c & 255,
        ;
        i as u8
    }

    /// The hashes of the eight corners of the cell that holds a point whose
    /// coordinates have the floors `x`, `y` and `z`.
    pub fn corner_hashes(&self, x: i32, y: i32, z: i32) -> (h: [u8; 8])
        ensures
            h@ == corner_hashes_of(self@, cell_of(x as int), cell_of(y as int), cell_of(z as int)),
    {
        proof {
            use_type_invariant(self);
        }
        let xi: usize = Self::cell(x) as usize;
        let yi: usize = Self::cell(y) as usize;
        let zi: usize = Self::cell(z) as usize;
        let p = &self.perm;

        let a: usize = p[xi] as usize + yi;
        let aa: usize = p[a] as usize + zi;
        let ab: usize = p[a + 1] as usize + zi;
        let b: usize = p[xi + 1] as usize + yi;
        let ba: usize = p[b] as usize + zi;
        let bb: usize = p[b + 1] as usize + zi;

        let h: [u8; 8] = [
            p[aa],
            p[ba],
            p[ab],
            p[bb],
            p[aa + 1],
            p[ba + 1],
            p[ab + 1],
            p[bb + 1],
        ];
        assert(h@ =~= corner_hashes_of(
            self@,
            cell_of(x as int),
            cell_of(y as int),
            cell_of(z as int),
        ));
        h
    }

    /// The gradients of the eight corners of the cell that holds a point
    /// whose coordinates have the floors `x`, `y` and `z`.
    pub fn corner_gradients(&self, x: i32, y: i32, z: i32) -> (g: [Gradient; 8])
        ensures
            g@ == corner_gradients_of(
                self@,
                cell_of(x as int),
                cell_of(y as int),
                cell_of(z as int),
            ),
    {
        let h = self.corner_hashes(x, y, z);
        let g: [Gradient; 8] = [
            Gradient::from_hash(h[0]),
            Gradient::from_hash(h[1]),
            Gradient::from_hash(h[2]),
            Gradient::from_hash(h[3]),
            Gradient::from_hash(h[4]),
            Gradient::from_hash(h[5]),
            Gradient::from_hash(h[6]),
            Gradient::from_hash(h[7]),
        ];
        assert(g@ =~= corner_gradients_of(
            self@,
            cell_of(x as int),
            cell_of(y as int),
            cell_of(z as int),
        ));
        g
    }

}

/// Two generators made from the same seed have the same table, entry for
/// entry.
pub proof fn lemma_same_seed_same_table(a: Perlin, b: Perlin, seed: u64)
    requires
        a@ == seeded_table(seed),
        b@ == seeded_table(seed),
    ensures
        a@ == b@,
{
}

/// In a lookup table the hash of a cell's corner depends on the lattice
/// point at that corner alone, not on the cell it was reached from: cells
/// that meet at a point give it the same hash, also where the cell index
/// wraps from 255 to 0.
pub proof fn lemma_corner_hash_is_point_hash(
    t: Seq<u8>,
    x: int,
    y: int,
    z: int,
    dx: int,
    dy: int,
    dz: int,
)
    requires
        is_table(t),
        0 <= dx <= 1,
        0 <= dy <= 1,
        0 <= dz <= 1,
    ensures
        corner_hash(t, cell_of(x) + dx, cell_of(y) + dy, cell_of(z) + dz) == point_hash(
            t,
            x + dx,
            y + dy,
            z + dz,
        ),
{
    lemma_wrapped_lookup(t, 0, cell_of(x) + dx);
    let a = t[cell_of(x + dx)] as int;
    lemma_wrapped_lookup(t, a, cell_of(y) + dy);
    let b = t[a + cell_of(y + dy)] as int;
    lemma_wrapped_lookup(t, b, cell_of(z) + dz);
}

/// The lattice repeats with period 256 along each axis.
pub proof fn lemma_point_hash_is_periodic(t: Seq<u8>, px: int, py: int, pz: int)
    ensures
        point_hash(t, px + 256, py, pz) == point_hash(t, px, py, pz),
        point_hash(t, px, py + 256, pz) == point_hash(t, px, py, pz),
        point_hash(t, px, py, pz + 256) == point_hash(t, px, py, pz),
{
}

/// A lookup at `base + i`, with `i` up to 256, finds what the lookup at
/// `base + i mod 256` finds.
proof fn lemma_wrapped_lookup(t: Seq<u8>, base: int, i: int)
    requires
        is_table(t),
        0 <= base < 256,
        0 <= i <= 256,
    ensures
        t[base + i] == t[base + i % 256],
{
    if i == 256 {
        assert(t[base + 256] == t[base + 256 - 256]);
    }
}

} // verus!
