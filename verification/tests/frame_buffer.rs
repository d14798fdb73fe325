use co2_monitor::frame_buffer::{create_mask_128, Invertible, MyFrameBuffer, Rect};

fn row(bytes: &[u8; 1024], r: usize) -> &[u8] {
    &bytes[r * 16..r * 16 + 16]
}

#[test]
fn mask_single_leftmost_column() {
    assert_eq!(create_mask_128(0, 1), 1u128 << 127);
}

#[test]
fn mask_single_rightmost_column() {
    assert_eq!(create_mask_128(127, 1), 1);
}

#[test]
fn mask_gauge_area() {
    let expected: u128 = ((1u128 << 124) - 1) << 2;
    assert_eq!(create_mask_128(2, 124), expected);
}

#[test]
fn mask_of_zero_width_is_empty() {
    assert_eq!(create_mask_128(5, 0), 0);
}

#[test]
fn mask_full_but_one() {
    assert_eq!(create_mask_128(1, 127), u128::MAX >> 1);
}

#[test]
fn invert_gauge_area_on_blank_buffer() {
    let mut fb = MyFrameBuffer::new();
    fb.invert_rect(Rect { x: 2, y: 2, width: 124, height: 16 });
    let bytes = fb.to_bytes();
    let mut expected_row = [0xffu8; 16];
    expected_row[0] = 0x3f;
    expected_row[15] = 0xfc;
    for r in 0..64 {
        if (2..18).contains(&r) {
            assert_eq!(row(&bytes, r), &expected_row[..]);
        } else {
            assert_eq!(row(&bytes, r), &[0u8; 16][..]);
        }
    }
}

#[test]
fn invert_flips_set_pixels_off() {
    let mut fb = MyFrameBuffer::from_bytes([0xffu8; 1024]);
    fb.invert_rect(Rect { x: 8, y: 63, width: 8, height: 1 });
    let bytes = fb.to_bytes();
    assert_eq!(bytes[63 * 16 + 1], 0x00);
    assert_eq!(bytes[63 * 16], 0xff);
    assert_eq!(bytes[62 * 16 + 1], 0xff);
}

#[test]
fn invert_twice_restores_buffer() {
    let mut original = [0u8; 1024];
    for (i, b) in original.iter_mut().enumerate() {
        *b = (i * 37 % 256) as u8;
    }
    let mut fb = MyFrameBuffer::from_bytes(original);
    let rect = Rect { x: 3, y: 10, width: 50, height: 20 };
    fb.invert_rect(rect);
    assert_ne!(fb.to_bytes(), original);
    fb.invert_rect(rect);
    assert_eq!(fb.to_bytes(), original);
}

#[test]
fn rect_with_no_rows_changes_nothing() {
    let mut fb = MyFrameBuffer::new();
    fb.invert_rect(Rect { x: 0, y: 5, width: 10, height: 0 });
    assert_eq!(fb.to_bytes(), [0u8; 1024]);
}

#[test]
fn rows_saturate_at_i32_max() {
    // y + height overflows i32: the rows saturate to the empty range i32::MAX..i32::MAX.
    let mut fb = MyFrameBuffer::new();
    fb.invert_rect(Rect { x: 0, y: i32::MAX, width: 10, height: 5 });
    assert_eq!(fb.to_bytes(), [0u8; 1024]);
}

#[test]
fn from_bytes_round_trips() {
    let mut bytes = [0u8; 1024];
    bytes[5] = 0xa5;
    bytes[1023] = 1;
    assert_eq!(MyFrameBuffer::from_bytes(bytes).to_bytes(), bytes);
}
