use gradient_noise::gradient::{Axis, Gradient};

fn expected(first: Axis, first_negated: bool, second: Axis, second_negated: bool) -> Gradient {
    Gradient { first, first_negated, second, second_negated }
}

#[test]
fn low_hashes_pair_x_with_y() {
    assert_eq!(Gradient::from_hash(0), expected(Axis::X, false, Axis::Y, false));
    assert_eq!(Gradient::from_hash(1), expected(Axis::X, true, Axis::Y, false));
    assert_eq!(Gradient::from_hash(2), expected(Axis::X, false, Axis::Y, true));
    assert_eq!(Gradient::from_hash(3), expected(Axis::X, true, Axis::Y, true));
}

#[test]
fn middle_hashes_pair_x_with_z() {
    assert_eq!(Gradient::from_hash(4), expected(Axis::X, false, Axis::Z, false));
    assert_eq!(Gradient::from_hash(5), expected(Axis::X, true, Axis::Z, false));
    assert_eq!(Gradient::from_hash(6), expected(Axis::X, false, Axis::Z, true));
    assert_eq!(Gradient::from_hash(7), expected(Axis::X, true, Axis::Z, true));
}

#[test]
fn high_hashes_pair_y_with_z() {
    assert_eq!(Gradient::from_hash(8), expected(Axis::Y, false, Axis::Z, false));
    assert_eq!(Gradient::from_hash(9), expected(Axis::Y, true, Axis::Z, false));
    assert_eq!(Gradient::from_hash(10), expected(Axis::Y, false, Axis::Z, true));
    assert_eq!(Gradient::from_hash(11), expected(Axis::Y, true, Axis::Z, true));
}

#[test]
fn top_hashes_mix_y_with_x_and_z() {
    assert_eq!(Gradient::from_hash(12), expected(Axis::Y, false, Axis::X, false));
    assert_eq!(Gradient::from_hash(13), expected(Axis::Y, true, Axis::Z, false));
    assert_eq!(Gradient::from_hash(14), expected(Axis::Y, false, Axis::X, true));
    assert_eq!(Gradient::from_hash(15), expected(Axis::Y, true, Axis::Z, true));
}

#[test]
fn only_the_low_four_bits_count() {
    for hash in 0..=255u8 {
        assert_eq!(Gradient::from_hash(hash), Gradient::from_hash(hash & 15));
    }
}

#[test]
fn the_two_axes_differ() {
    for hash in 0..=255u8 {
        let g = Gradient::from_hash(hash);
        assert_ne!(g.first, g.second);
    }
}

#[test]
fn sixteen_hashes_give_twelve_directions() {
    let mut directions: Vec<(i32, i32, i32)> = Vec::new();
    for hash in 0..16u8 {
        let g = Gradient::from_hash(hash);
        let mut d = [0i32; 3];
        let slot = |axis: Axis| match axis {
            Axis::X => 0usize,
            Axis::Y => 1usize,
            Axis::Z => 2usize,
        };
        d[slot(g.first)] += if g.first_negated { -1 } else { 1 };
        d[slot(g.second)] += if g.second_negated { -1 } else { 1 };
        assert_eq!(d.iter().filter(|c| **c == 0).count(), 1);
        assert!(d.iter().all(|c| (-1..=1).contains(c)));
        if !directions.contains(&(d[0], d[1], d[2])) {
            directions.push((d[0], d[1], d[2]));
        }
    }
    assert_eq!(directions.len(), 12);
}
