use sunclock::dot_matrix::offset;
use sunclock::dot_matrix::DotMatrix;

#[test]
fn set_then_get_pixel_reads_back_true() {
    let mut matrix = DotMatrix::new(0);
    matrix.set_bit(9, 3, true);
    assert!(matrix.get_bit(9, 3));
}

#[test]
fn set_pixel_has_no_crosstalk() {
    let mut matrix = DotMatrix::new(0);
    matrix.set_bit(9, 3, true);
    for x in 0..32 {
        for y in 0..8 {
            if (x, y) != (9, 3) {
                assert!(!matrix.get_bit(x, y), "pixel ({x}, {y}) must stay dark");
            }
        }
    }
    matrix.set_bit(9, 3, false);
    for x in 0..32 {
        for y in 0..8 {
            assert!(!matrix.get_bit(x, y));
        }
    }
}

#[test]
fn out_of_range_set_leaves_buffer_unchanged() {
    let mut matrix = DotMatrix::new(0);
    matrix.set_bit(5, 5, true);
    let before: Vec<Vec<u8>> = (0..8).map(|y| matrix.row_frame(y)).collect();
    matrix.set_bit(32, 0, true);
    matrix.set_bit(0, 8, true);
    matrix.set_bit(usize::MAX, usize::MAX, true);
    let after: Vec<Vec<u8>> = (0..8).map(|y| matrix.row_frame(y)).collect();
    assert_eq!(before, after);
    assert!(!matrix.get_bit(32, 0));
    assert!(!matrix.get_bit(0, 8));
}

#[test]
fn row_bytes_has_one_byte_per_segment() {
    let matrix = DotMatrix::new(0);
    for y in 0..8 {
        assert_eq!(matrix.row_bytes(y).len(), 4);
    }
}

#[test]
fn row_bytes_reflects_pixels_of_each_segment() {
    let mut matrix = DotMatrix::new(0);
    // Segment 1 of row 2: leftmost two pixels and the rightmost one.
    matrix.set_bit(8, 2, true);
    matrix.set_bit(9, 2, true);
    matrix.set_bit(15, 2, true);
    // Segment 3 of row 2: one pixel in the middle.
    matrix.set_bit(28, 2, true);
    let row = matrix.row_bytes(2);
    assert_eq!(row, vec![0b00000000, 0b11000001, 0b00000000, 0b00001000]);
    assert_eq!(matrix.row_bytes(3), vec![0, 0, 0, 0]);
}

#[test]
fn set_byte_and_get_byte_round_trip() {
    let mut matrix = DotMatrix::new(0);
    matrix.set_byte(2, 5, 0b10101011);
    assert_eq!(matrix.get_byte(2, 5), 0b10101011);
    // The byte's bits are the pixels of segment 2 (columns 16..24) in row 5.
    assert!(matrix.get_bit(16, 5));
    assert!(!matrix.get_bit(17, 5));
    assert!(matrix.get_bit(18, 5));
    assert!(!matrix.get_bit(19, 5));
    assert!(matrix.get_bit(20, 5));
    assert!(!matrix.get_bit(21, 5));
    assert!(matrix.get_bit(22, 5));
    assert!(matrix.get_bit(23, 5));
}

#[test]
fn row_frame_carries_seeded_commands_and_live_data() {
    let mut matrix = DotMatrix::new(0);
    for y in 0..8 {
        let command = (y + 1) as u8;
        assert_eq!(matrix.row_frame(y), vec![command, 0, command, 0, command, 0, command, 0]);
    }
    matrix.set_byte(1, 6, 0xAB);
    assert_eq!(matrix.row_frame(6), vec![7, 0, 7, 0xAB, 7, 0, 7, 0]);
}

#[test]
fn pixel_writes_never_disturb_command_bytes() {
    let mut matrix = DotMatrix::new(0);
    for x in 0..32 {
        for y in 0..8 {
            matrix.set_bit(x, y, true);
        }
    }
    for y in 0..8 {
        let frame = matrix.row_frame(y);
        for s in 0..4 {
            assert_eq!(frame[2 * s], (y + 1) as u8);
            assert_eq!(frame[2 * s + 1], 0xFF);
        }
    }
}

#[test]
fn clear_and_fill_touch_every_data_byte() {
    let mut matrix = DotMatrix::new(0);
    matrix.fill();
    for y in 0..8 {
        assert_eq!(matrix.row_bytes(y), vec![0xFF, 0xFF, 0xFF, 0xFF]);
    }
    matrix.clear();
    for y in 0..8 {
        assert_eq!(matrix.row_bytes(y), vec![0, 0, 0, 0]);
        for x in 0..32 {
            assert!(!matrix.get_bit(x, y));
        }
    }
}

#[test]
fn offset_addresses_data_bits_only() {
    // Row 0, segment 0: the data bits start after the 8 command bits.
    assert_eq!(offset(0, 0), Some(8));
    assert_eq!(offset(7, 0), Some(15));
    // Segment 1 starts one instruction (16 bits) later.
    assert_eq!(offset(8, 0), Some(24));
    // The last pixel of the chain.
    assert_eq!(offset(31, 7), Some(511));
    assert_eq!(offset(32, 0), None);
    assert_eq!(offset(0, 8), None);
}

#[test]
fn set_intensity_encodes_a_chain_wide_command() {
    let mut matrix = DotMatrix::new(0);
    let frame = matrix.set_intensity(0x7);
    assert_eq!(frame, vec![0xA, 0x7, 0xA, 0x7, 0xA, 0x7, 0xA, 0x7]);
}
