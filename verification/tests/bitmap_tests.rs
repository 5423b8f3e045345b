use chess_engine::bitmap::BitMap64;

#[test]
fn set_then_test_round_trip_on_every_square() {
    for sq in 0..64u64 {
        let mut m = BitMap64::new(0);
        m.set_bit(sq);
        assert!(m.get_bit(sq));
        m.clear_bit(sq);
        assert!(!m.get_bit(sq));
    }
}

#[test]
fn clear_after_set_restores_other_bits_too() {
    let mut m = BitMap64::new(0xDEAD_BEEF_0123_4567);
    let before = m.get_copied_inner();
    m.set_bit(13);
    m.clear_bit(13);
    assert!(!m.get_bit(13));
    assert_eq!(m.get_copied_inner(), before & !(1 << 13));
}

#[test]
fn bit_values_and_contains() {
    let m = BitMap64::new(0b1010);
    assert!(m.contains(1));
    assert!(!m.contains(0));
    assert_eq!(m.get_bit_value(1), 1);
    assert_eq!(m.get_bit_value(2), 0);
}

#[test]
fn count_ones_counts() {
    assert_eq!(BitMap64::new(0).count_ones(), 0);
    assert_eq!(BitMap64::new(u64::MAX).count_ones(), 64);
    assert_eq!(BitMap64::new(0xFF00).count_ones(), 8);
    assert_eq!(BitMap64::new(0b1011).count_ones(), 3);
}

#[test]
fn set_algebra() {
    let a = BitMap64::new(0b1100);
    let b = BitMap64::new(0b1010);
    assert_eq!(a.union(b).get_copied_inner(), 0b1110);
    assert_eq!(a.intersect(b).get_copied_inner(), 0b1000);
    assert_eq!(a.xor(b).get_copied_inner(), 0b0110);
    assert_eq!(a.shift_left(2).get_copied_inner(), 0b110000);
    assert_eq!(a.shift_right(2).get_copied_inner(), 0b11);
}

#[test]
fn default_is_empty() {
    let m: BitMap64 = Default::default();
    assert_eq!(m.get_copied_inner(), 0);
}

#[test]
fn iterator_yields_all_sixty_four_bits() {
    let m = BitMap64::new(0b101);
    let mut it = m.iter();
    let mut seen = Vec::new();
    while let Some(b) = it.next() {
        seen.push(b);
    }
    assert_eq!(seen.len(), 64);
    assert!(seen[0]);
    assert!(!seen[1]);
    assert!(seen[2]);
    assert!(seen[3..].iter().all(|b| !b));
}
