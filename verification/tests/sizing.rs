use texture_broker::sizing::alloc_size;

#[test]
fn alloc_size_keeps_a_power_of_two() {
    assert_eq!(alloc_size(256, 256), Some((256, 256)));
    assert_eq!(alloc_size(1, 1), Some((1, 1)));
    assert_eq!(alloc_size(2, 2), Some((2, 2)));
    assert_eq!(alloc_size(1024, 1024), Some((1024, 1024)));
}

#[test]
fn alloc_size_rounds_up_to_the_next_power_of_two() {
    assert_eq!(alloc_size(3, 3), Some((4, 4)));
    assert_eq!(alloc_size(200, 200), Some((256, 256)));
    assert_eq!(alloc_size(257, 257), Some((512, 512)));
    assert_eq!(alloc_size(1000, 1000), Some((1024, 1024)));
    assert_eq!(alloc_size(1025, 1025), Some((2048, 2048)));
}

#[test]
fn alloc_size_is_square_and_covers_the_larger_side() {
    assert_eq!(alloc_size(200, 10), Some((256, 256)));
    assert_eq!(alloc_size(10, 200), Some((256, 256)));
    assert_eq!(alloc_size(1, 640), Some((1024, 1024)));
    assert_eq!(alloc_size(640, 480), Some((1024, 1024)));
}

#[test]
fn alloc_size_of_nothing_is_one() {
    assert_eq!(alloc_size(0, 0), Some((1, 1)));
    assert_eq!(alloc_size(0, 1), Some((1, 1)));
    assert_eq!(alloc_size(0, 5), Some((8, 8)));
}

#[test]
fn alloc_size_reaches_the_largest_power_of_two() {
    let largest = 1usize << (usize::BITS - 1);
    assert_eq!(alloc_size(largest, 1), Some((largest, largest)));
    assert_eq!(alloc_size(largest - 1, largest - 1), Some((largest, largest)));
    assert_eq!(alloc_size(largest / 2 + 1, 0), Some((largest, largest)));
}

#[test]
fn alloc_size_has_no_bucket_beyond_the_largest_power_of_two() {
    let largest = 1usize << (usize::BITS - 1);
    assert_eq!(alloc_size(largest + 1, 1), None);
    assert_eq!(alloc_size(1, usize::MAX), None);
    assert_eq!(alloc_size(usize::MAX, usize::MAX), None);
}

#[test]
fn alloc_size_is_the_least_power_of_two_for_small_sides() {
    for side in 0usize..2000 {
        let (width, height) = alloc_size(side, side).unwrap();
        assert_eq!(width, height);
        assert!(width.is_power_of_two());
        assert!(width >= side);
        assert!(width == 1 || width / 2 < side);
        assert_eq!(alloc_size(width, height), Some((width, height)));
    }
}
