//! The gradient that a hash value selects.

use vstd::prelude::*;

verus! {

/// One of the three coordinate axes.
#[derive(Clone, Copy, Debug, PartialEq, Eq, Structural)]
pub enum Axis {
    X,
    Y,
    Z,
}

/// A gradient direction, held as the two signed components whose sum is the
/// dot product with an offset `(dx, dy, dz)`: the offset's component along
/// `first`, negated if `first_negated`, plus its component along `second`,
/// negated if `second_negated`.
#[derive(Clone, Copy, Debug, PartialEq, Eq, Structural)]
pub struct Gradient {
    pub first: Axis,
    pub first_negated: bool,
    pub second: Axis,
    pub second_negated: bool,
}

/// The gradient selected by the low four bits `h` of a hash.
pub open spec fn gradient_of_nibble(h: int) -> Gradient {
    Gradient {
        first: if h < 8 {
            Axis::X
        } else {
            Axis::Y
        },
        first_negated: h % 2 == 1,
        second: if h < 4 {
            Axis::Y
        } else if h == 12 || h == 14 {
            Axis::X
        } else {
            Axis::Z
        },
        second_negated: (h / 2) % 2 == 1,
    }
}

/// The gradient selected by a hash: only its low four bits count.
pub open spec fn gradient_of(hash: u8) -> Gradient {
    gradient_of_nibble(hash as int % 16)
}

/// The coefficient, -1, 0 or 1, that a gradient gives to one axis.
pub open spec fn coefficient(g: Gradient, axis: Axis) -> int {
    (if g.first == axis {
        if g.first_negated {
            -1int
        } else {
            1int
        }
    } else {
        0int
    }) + (if g.second == axis {
        if g.second_negated {
            -1int
        } else {
            1int
        }
    } else {
        0int
    })
}

/// The dot product of a gradient with an integer offset.
pub open spec fn dot(g: Gradient, dx: int, dy: int, dz: int) -> int {
    coefficient(g, Axis::X) * dx + coefficient(g, Axis::Y) * dy + coefficient(g, Axis::Z) * dz
}

impl Gradient {
    /// Selects the gradient for a hash value.
    pub fn from_hash(hash: u8) -> (g: Gradient)
        ensures
            g == gradient_of(hash),
            g.first != g.second,
    {
        let h: u8 = hash & 15;
        assert(h == hash % 16) by (bit_vector)
            requires
                h == hash & 15,
        ;
        let low: u8 = h & 1;
        let high: u8 = h & 2;
        assert((low == 0) == (h % 2 == 0)) by (bit_vector)
            requires
                low == h & 1,
        ;
        assert((high == 0) == ((h / 2) % 2 == 0)) by (bit_vector)
            requires
                high == h & 2,
        ;
        let first = if h < 8 {
            Axis::X
        } else {
            Axis::Y
        };
        let second = if h < 4 {
            Axis::Y
        } else if h == 12 || h == 14 {
            Axis::X
        } else {
            Axis::Z
        };
        Gradient { first, first_negated: low != 0, second, second_negated: high != 0 }
    }
}

/// Every gradient that a hash selects lies along an edge of the cube: one of
/// its three coefficients is zero and the other two are 1 or -1.
pub proof fn lemma_gradient_is_cube_edge(hash: u8)
    ensures
        ({
            let g = gradient_of(hash);
            let cx = coefficient(g, Axis::X);
            let cy = coefficient(g, Axis::Y);
            let cz = coefficient(g, Axis::Z);
            &&& -1 <= cx <= 1
            &&& -1 <= cy <= 1
            &&& -1 <= cz <= 1
            &&& (cx == 0 && cy != 0 && cz != 0) || (cx != 0 && cy == 0 && cz != 0) || (cx != 0
                && cy != 0 && cz == 0)
        }),
{
}

/// At the corner itself, where the offset is zero, the dot product with any
/// gradient is zero.
pub proof fn lemma_dot_at_corner_is_zero(g: Gradient)
    ensures
        dot(g, 0, 0, 0) == 0,
{
}

} // verus!
