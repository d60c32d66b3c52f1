use ext_php_rs::php::alignment::{aligned_size, header_slot_count};

#[test]
fn aligned_size_of_a_multiple_is_itself() {
    assert_eq!(aligned_size(0, 8), 0);
    assert_eq!(aligned_size(8, 8), 8);
    assert_eq!(aligned_size(16, 16), 16);
    assert_eq!(aligned_size(80, 8), 80);
    assert_eq!(aligned_size(4096, 4096), 4096);
}

#[test]
fn aligned_size_rounds_up_to_the_next_multiple() {
    assert_eq!(aligned_size(1, 8), 8);
    assert_eq!(aligned_size(7, 8), 8);
    assert_eq!(aligned_size(9, 8), 16);
    assert_eq!(aligned_size(13, 4), 16);
    assert_eq!(aligned_size(17, 16), 32);
    assert_eq!(aligned_size(81, 8), 88);
    assert_eq!(aligned_size(4097, 4096), 8192);
}

#[test]
fn aligned_size_with_modulus_one_changes_nothing() {
    for size in 0..100usize {
        assert_eq!(aligned_size(size, 1), size);
    }
    assert_eq!(aligned_size(usize::MAX, 1), usize::MAX);
}

#[test]
fn aligned_size_is_the_least_multiple_not_below() {
    for exponent in 0..13u32 {
        let modulus = 1usize << exponent;
        for size in 0..600usize {
            let rounded = aligned_size(size, modulus);
            assert_eq!(rounded % modulus, 0);
            assert!(rounded >= size);
            assert!(rounded < size + modulus);
        }
    }
}

#[test]
fn aligned_size_at_the_upper_limit() {
    let modulus = 1usize << (usize::BITS - 1);
    assert_eq!(aligned_size(modulus, modulus), modulus);
    assert_eq!(aligned_size(1, modulus), modulus);
    assert_eq!(aligned_size(usize::MAX - 7, 8), usize::MAX - 7);
}

#[test]
fn header_slot_count_of_the_documented_engine() {
    assert_eq!(header_slot_count(80, 16, 8), 5);
}

#[test]
fn header_slot_count_rounds_up() {
    assert_eq!(header_slot_count(64, 16, 8), 4);
    assert_eq!(header_slot_count(65, 16, 8), 5);
    assert_eq!(header_slot_count(72, 16, 8), 5);
    assert_eq!(header_slot_count(81, 16, 8), 6);
    assert_eq!(header_slot_count(1, 16, 8), 1);
    assert_eq!(header_slot_count(0, 16, 8), 0);
}

#[test]
fn header_slot_count_rounds_both_sizes_first() {
    // a value of 12 bytes takes a slot of 16
    assert_eq!(header_slot_count(80, 12, 8), 5);
    // header 80 stays 80, value 24 becomes 32
    assert_eq!(header_slot_count(80, 24, 16), 3);
    // header 70 becomes 96, value 20 becomes 32
    assert_eq!(header_slot_count(70, 20, 32), 3);
}

#[test]
fn header_slot_count_is_the_same_on_every_call() {
    let first = header_slot_count(80, 16, 8);
    for _ in 0..10 {
        assert_eq!(header_slot_count(80, 16, 8), first);
    }
}

#[test]
fn header_slots_cover_the_header_and_no_more() {
    for header in 0..300usize {
        for value in 1..40usize {
            let count = header_slot_count(header, value, 8);
            let slot = aligned_size(value, 8);
            let rounded = aligned_size(header, 8);
            assert!(count * slot >= rounded);
            if count > 0 {
                assert!((count - 1) * slot < rounded);
            }
        }
    }
}
