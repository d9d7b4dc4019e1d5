//! The byte layout of grey-scale images.

use vstd::prelude::*;

verus! {

/// The bytes of a row of opaque grey pixels, four to a pixel: red, green and
/// blue at the pixel's level, then an alpha of 255.
pub open spec fn grey_rgba(levels: Seq<u8>) -> Seq<u8> {
    Seq::new(
        4 * levels.len(),
        |i: int|
            if i % 4 == 3 {
                255u8
            } else {
                levels[i / 4]
            },
    )
}

/// Lays grey levels out as opaque RGBA pixels, in the order given.
pub fn grey_to_rgba(levels: &[u8]) -> (data: Vec<u8>)
    ensures
        data@ == grey_rgba(levels@),
{
    let mut data: Vec<u8> = Vec::new();
    let mut i: usize = 0;
    while i < levels.len()
        invariant
            0 <= i <= levels@.len(),
            data@.len() == 4 * i,
            forall|k: int| 0 <= k < 4 * i ==> data@[k] == grey_rgba(levels@)[k],
        decreases levels@.len() - i,
    {
        let level: u8 = levels[i];
        data.push(level);
        data.push(level);
        data.push(level);
        data.push(255);
        i = i + 1;
    }
    assert(data@ =~= grey_rgba(levels@));
    data
}

} // verus!
