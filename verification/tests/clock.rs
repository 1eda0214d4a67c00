use music_player::clock::clock_reading;

#[test]
fn clock_reading_keeps_a_count_that_fits() {
    assert_eq!(clock_reading(0), 0);
    assert_eq!(clock_reading(4_000_000_000), 4_000_000_000);
    assert_eq!(clock_reading(u64::MAX as u128), u64::MAX);
}

#[test]
fn clock_reading_holds_a_larger_count_at_the_largest_reading() {
    assert_eq!(clock_reading(u64::MAX as u128 + 1), u64::MAX);
    assert_eq!(clock_reading(u128::MAX), u64::MAX);
}
