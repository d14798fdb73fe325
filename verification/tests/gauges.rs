use co2_monitor::frame_buffer::MyFrameBuffer;
use co2_monitor::gauges::{
    clamp_gauge_width, co2_area, co2_gauge_width, draw_gauges, humidity_area, temperature_area,
    temperature_gauge_width,
};

#[test]
fn temperature_width_formula() {
    assert_eq!(temperature_gauge_width(13), 0);
    assert_eq!(temperature_gauge_width(14), 6);
    assert_eq!(temperature_gauge_width(23), 62);
    assert_eq!(temperature_gauge_width(33), 124);
    assert_eq!(temperature_gauge_width(40), 124);
}

#[test]
fn co2_width_formula() {
    assert_eq!(co2_gauge_width(0), 0);
    assert_eq!(co2_gauge_width(400), 24);
    assert_eq!(co2_gauge_width(1000), 62);
    assert_eq!(co2_gauge_width(2000), 124);
    assert_eq!(co2_gauge_width(u16::MAX), 124);
}

#[test]
fn clamp_limits_to_full_width() {
    assert_eq!(clamp_gauge_width(0), 0);
    assert_eq!(clamp_gauge_width(124), 124);
    assert_eq!(clamp_gauge_width(125), 124);
    assert_eq!(clamp_gauge_width(u32::MAX), 124);
}

#[test]
fn gauge_areas() {
    let t = temperature_area();
    let h = humidity_area();
    let c = co2_area();
    assert_eq!((t.x, t.y, t.width, t.height), (2, 2, 124, 16));
    assert_eq!((h.x, h.y, h.width, h.height), (2, 24, 124, 16));
    assert_eq!((c.x, c.y, c.width, c.height), (2, 46, 124, 16));
}

#[test]
fn draw_gauges_inverts_bars_of_reading_width() {
    let mut fb = MyFrameBuffer::new();
    // temperature 23 -> 62 px, humidity 8 px, CO2 1000 -> 62 px
    draw_gauges(&mut fb, 23, 8, 1000);
    let bytes = fb.to_bytes();
    // columns 2..64 of rows 2..18 and 46..62; columns 2..10 of rows 24..40
    let mut wide = [0u8; 16];
    wide[0] = 0x3f;
    for b in wide.iter_mut().take(8).skip(1) {
        *b = 0xff;
    }
    let mut narrow = [0u8; 16];
    narrow[0] = 0x3f;
    narrow[1] = 0xc0;
    for r in 0..64usize {
        let row = &bytes[r * 16..r * 16 + 16];
        if (2..18).contains(&r) || (46..62).contains(&r) {
            assert_eq!(row, &wide[..], "row {}", r);
        } else if (24..40).contains(&r) {
            assert_eq!(row, &narrow[..], "row {}", r);
        } else {
            assert_eq!(row, &[0u8; 16][..], "row {}", r);
        }
    }
}

#[test]
fn draw_gauges_clamps_humidity_width() {
    let mut a = MyFrameBuffer::new();
    draw_gauges(&mut a, 13, 500, 0);
    let mut b = MyFrameBuffer::new();
    draw_gauges(&mut b, 13, 124, 0);
    assert_eq!(a.to_bytes(), b.to_bytes());
    assert_eq!(a.to_bytes()[24 * 16 + 15], 0xfc);
}
