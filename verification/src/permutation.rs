//! Permutations of the 256 byte values, and the doubled lookup table that a
//! permutation gives.

use vstd::prelude::*;
use vstd::relations::injective_on;
use vstd::seq_lib::*;
use vstd::set_lib::*;

verus! {

/// The number of distinct byte values, and the length of a permutation.
pub const PERIOD: usize = 256;

/// The length of a lookup table: a permutation twice over.
pub const TABLE_LEN: usize = 512;

/// The byte values in increasing order.
pub open spec fn identity_order() -> Seq<u8> {
    Seq::new(256, |i: int| i as u8)
}

/// Whether `s` holds each of the 256 byte values exactly once.
pub open spec fn is_permutation(s: Seq<u8>) -> bool {
    &&& s.len() == 256
    &&& s.no_duplicates()
    &&& forall|v: u8| s.contains(v)
}

/// The lookup table of a permutation: entry `i` is the permutation's entry
/// `i mod 256`.
pub open spec fn table_of(p: Seq<u8>) -> Seq<u8> {
    Seq::new(512, |i: int| p[i % 256])
}

/// Whether `t` is a lookup table: its first half is a permutation and its
/// second half repeats the first.
pub open spec fn is_table(t: Seq<u8>) -> bool {
    &&& t.len() == 512
    &&& is_permutation(t.subrange(0, 256))
    &&& forall|i: int| 256 <= i < 512 ==> #[trigger] t[i] == t[i - 256]
}

/// The increasing order is a permutation.
pub proof fn lemma_identity_is_permutation()
    ensures
        is_permutation(identity_order()),
{
    let s = identity_order();
    assert forall|v: u8| s.contains(v) by {
        assert(s[v as int] == v);
    }
}

/// 256 bytes among which none occurs twice hold every byte value.
pub proof fn lemma_distinct_bytes_hold_all(s: Seq<u8>)
    requires
        s.len() == 256,
        s.no_duplicates(),
    ensures
        is_permutation(s),
{
    let indices = set_int_range(0, 256);
    let bytes = Set::new(|v: u8| true);
    let narrow = |i: int| i as u8;
    lemma_int_range(0, 256);
    assert(injective_on(narrow, indices));
    assert(indices.map(narrow) =~= bytes) by {
        assert forall|v: u8| indices.map(narrow).contains(v) by {
            assert(indices.contains(v as int) && narrow(v as int) == v);
        }
    }
    lemma_map_size(indices, bytes, narrow);
    s.unique_seq_to_set();
    seq_to_set_is_finite(s);
    lemma_subset_equality(s.to_set(), bytes);
    assert forall|v: u8| s.contains(v) by {
        assert(bytes.contains(v));
        assert(s.to_set().contains(v));
    }
}

/// A rearrangement of a permutation is a permutation.
pub proof fn lemma_rearranged_permutation(p: Seq<u8>, q: Seq<u8>)
    requires
        is_permutation(p),
        p.to_multiset() == q.to_multiset(),
    ensures
        is_permutation(q),
{
    to_multiset_len(p);
    to_multiset_len(q);
    p.lemma_multiset_has_no_duplicates();
    q.lemma_multiset_has_no_duplicates_conv();
    assert forall|v: u8| q.contains(v) by {
        assert(p.contains(v));
        to_multiset_contains(p, v);
        to_multiset_contains(q, v);
    }
}

/// The table of a permutation is a lookup table whose first half is the
/// permutation.
pub proof fn lemma_table_of_permutation(p: Seq<u8>)
    requires
        is_permutation(p),
    ensures
        is_table(table_of(p)),
        table_of(p).subrange(0, 256) == p,
{
    assert(table_of(p).subrange(0, 256) =~= p);
}

/// A lookup table is the table of its first half: entry `i` is entry
/// `i mod 256`, for each of its 512 entries.
pub proof fn lemma_table_is_table_of_first_half(t: Seq<u8>)
    requires
        is_table(t),
    ensures
        t == table_of(t.subrange(0, 256)),
{
    let p = t.subrange(0, 256);
    assert forall|i: int| 0 <= i < 512 implies t[i] == table_of(p)[i] by {
    }
    assert(t =~= table_of(p));
}

/// The byte values in increasing order.
pub fn identity() -> (p: Vec<u8>)
    ensures
        p@ == identity_order(),
{
    let mut p: Vec<u8> = Vec::with_capacity(PERIOD);
    let mut v: u8 = 0;
    while v < 255
        invariant
            p@.len() == v,
            forall|i: int| 0 <= i < v ==> p@[i] == i as u8,
        decreases 255 - v,
    {
        p.push(v);
        v = v + 1;
    }
    p.push(v);
    assert(p@ =~= identity_order());
    p
}

/// Tells whether `p` holds each of the 256 byte values exactly once.
pub fn check_permutation(p: &[u8]) -> (ok: bool)
    ensures
        ok == is_permutation(p@),
{
    if p.len() != PERIOD {
        return false;
    }
    let mut seen: [bool; 256] = [false; 256];
    let mut i: usize = 0;
    while i < PERIOD
        invariant
            p@.len() == 256,
            0 <= i <= 256,
            forall|v: int| 0 <= v < 256 ==> (#[trigger] seen@[v] <==> exists|j: int| 0 <= j < i && p@[j] == v),
            forall|j: int, k: int| 0 <= j < k < i ==> p@[j] != p@[k],
        decreases 256 - i,
    {
        let v: usize = p[i] as usize;
        if seen[v] {
            proof {
                let j = choose|j: int| 0 <= j < i && p@[j] == v;
                assert(p@[j] == p@[i as int] && j != i);
            }
            return false;
        }
        seen[v] = true;
        proof {
            assert forall|w: int| 0 <= w < 256 implies (#[trigger] seen@[w] <==> exists|j: int|
                0 <= j < i + 1 && p@[j] == w) by {
                if w == v {
                    assert(p@[i as int] == w);
                } else if seen@[w] {
                    let j = choose|j: int| 0 <= j < i && p@[j] == w;
                    assert(0 <= j < i + 1 && p@[j] == w);
                }
            }
        }
        i = i + 1;
    }
    proof {
        lemma_distinct_bytes_hold_all(p@);
    }
    true
}

/// Lays a permutation out as a lookup table.
pub(crate) fn build_table(p: &[u8]) -> (t: [u8; 512])
    requires
        p@.len() == 256,
    ensures
        t@ == table_of(p@),
{
    let mut t: [u8; 512] = [0u8; 512];
    let mut i: usize = 0;
    while i < TABLE_LEN
        invariant
            p@.len() == 256,
            0 <= i <= 512,
            forall|j: int| 0 <= j < i ==> t@[j] == p@[j % 256],
        decreases 512 - i,
    {
        let k: usize = i & 255;
        assert(k == i % 256) by (bit_vector)
            requires
                k == i & 255,
        ;
        t[i] = p[k];
        i = i + 1;
    }
    assert(t@ =~= table_of(p@));
    t
}

} // verus!
