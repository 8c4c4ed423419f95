use riscv_interp::ranges::{
    next_zero_write, range_end, validate_includes_range, zero_buffer_size, ZERO_CHUNK,
};
use riscv_interp::MapError;

#[test]
fn a_range_within_the_mapping_is_accepted() {
    assert_eq!(validate_includes_range(1024, 0, 1024), Ok(()));
    assert_eq!(validate_includes_range(1024, 1020, 4), Ok(()));
    assert_eq!(validate_includes_range(1024, 1024, 0), Ok(()));
    assert_eq!(validate_includes_range(0, 0, 0), Ok(()));
}

#[test]
fn a_range_past_the_end_is_refused() {
    assert_eq!(validate_includes_range(1024, 1021, 4), Err(MapError::InvalidAddress));
    assert_eq!(validate_includes_range(1024, 1025, 0), Err(MapError::InvalidAddress));
    assert_eq!(validate_includes_range(1024, 0, 1025), Err(MapError::InvalidAddress));
}

#[test]
fn a_range_whose_end_overflows_is_refused() {
    assert_eq!(validate_includes_range(usize::MAX, usize::MAX, 1), Err(MapError::InvalidAddress));
    assert_eq!(validate_includes_range(usize::MAX, 2, usize::MAX), Err(MapError::InvalidAddress));
    assert_eq!(validate_includes_range(usize::MAX, usize::MAX, 0), Ok(()));
    assert_eq!(range_end(usize::MAX, usize::MAX, 1), Err(MapError::InvalidAddress));
}

#[test]
fn the_end_of_a_range() {
    assert_eq!(range_end(1028, 1024, 4), Ok(1028));
    assert_eq!(range_end(1028, 0, 0), Ok(0));
    assert_eq!(range_end(1028, 1025, 4), Err(MapError::InvalidAddress));
    assert_eq!(range_end(1028, 1029, 0), Err(MapError::InvalidAddress));
}

#[test]
fn zeros_go_out_in_chunks() {
    assert_eq!(ZERO_CHUNK, 0x10000);
    assert_eq!(zero_buffer_size(0), 0);
    assert_eq!(zero_buffer_size(5), 5);
    assert_eq!(zero_buffer_size(0x10000), 0x10000);
    assert_eq!(zero_buffer_size(0x2_5000), 0x10000);
    let length = 0x2_5000;
    let mut nwritten = 0;
    let mut sizes = Vec::new();
    while nwritten < length {
        let size = next_zero_write(length, nwritten);
        assert!(size >= 1 && size <= zero_buffer_size(length));
        sizes.push(size);
        nwritten += size;
    }
    assert_eq!(sizes, vec![0x10000, 0x10000, 0x5000]);
    assert_eq!(nwritten, length);
}

#[test]
fn a_short_write_is_made_up_for() {
    // the file took only 3 bytes of the first write
    assert_eq!(next_zero_write(0x1_0004, 3), 0x10000);
    assert_eq!(next_zero_write(0x1_0004, 0x10003), 1);
    assert_eq!(next_zero_write(0x1_0004, 0x10004), 0);
    assert_eq!(next_zero_write(7, 9), 0);
    assert_eq!(next_zero_write(usize::MAX, 0), 0x10000);
    assert_eq!(next_zero_write(usize::MAX, usize::MAX - 1), 1);
}
