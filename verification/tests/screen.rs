use co2_monitor::controller::Monitor;
use co2_monitor::frame_buffer::MyFrameBuffer;
use co2_monitor::gauges::draw_gauges;
use co2_monitor::screen::{
    is_screen_bitmap, render_background, render_history_screen, render_measurement_screen,
};

/// A top-down 128 x 64 one-bit BMP file with palette [black, white].
fn bmp(pixels: &[u8; 1024]) -> Vec<u8> {
    let mut b = Vec::new();
    b.extend_from_slice(b"BM");
    b.extend_from_slice(&(62u32 + 1024).to_le_bytes());
    b.extend_from_slice(&[0, 0, 0, 0]);
    b.extend_from_slice(&62u32.to_le_bytes());
    b.extend_from_slice(&40u32.to_le_bytes());
    b.extend_from_slice(&128i32.to_le_bytes());
    b.extend_from_slice(&(-64i32).to_le_bytes());
    b.extend_from_slice(&1u16.to_le_bytes());
    b.extend_from_slice(&1u16.to_le_bytes());
    b.extend_from_slice(&0u32.to_le_bytes());
    b.extend_from_slice(&1024u32.to_le_bytes());
    b.extend_from_slice(&[0; 8]);
    b.extend_from_slice(&2u32.to_le_bytes());
    b.extend_from_slice(&0u32.to_le_bytes());
    b.extend_from_slice(&[0, 0, 0, 0, 255, 255, 255, 0]);
    b.extend_from_slice(pixels);
    b
}

fn pattern() -> [u8; 1024] {
    let mut p = [0u8; 1024];
    for (i, x) in p.iter_mut().enumerate() {
        *x = (i * 7 % 256) as u8;
    }
    p
}

#[test]
fn background_is_drawn_from_bmp() {
    let frame = render_background(&bmp(&pattern())).unwrap();
    assert_eq!(frame.to_bytes(), pattern());
}

#[test]
fn screen_bitmap_headers() {
    assert!(is_screen_bitmap(&bmp(&pattern())));
    assert!(!is_screen_bitmap(b"not a bitmap"));
    let mut wide = bmp(&pattern());
    wide[18] = 129;
    assert!(!is_screen_bitmap(&wide));
    let mut bottom_up = bmp(&pattern());
    bottom_up[22..26].copy_from_slice(&64i32.to_le_bytes());
    assert!(is_screen_bitmap(&bottom_up));
    let mut tall = bmp(&pattern());
    tall[22..26].copy_from_slice(&(-65i32).to_le_bytes());
    assert!(!is_screen_bitmap(&tall));
    let mut deep = bmp(&pattern());
    deep[28] = 32;
    assert!(!is_screen_bitmap(&deep));
    let mut palette = bmp(&pattern());
    palette[46] = 3;
    assert!(!is_screen_bitmap(&palette));
}

#[test]
fn truncated_background_is_refused() {
    let mut short = bmp(&pattern());
    short.truncate(62 + 500);
    assert!(is_screen_bitmap(&short));
    assert!(render_background(&short).is_none());
    assert!(render_measurement_screen(&short, 20, 40, 50, 400).is_none());
}

#[test]
fn bottom_up_background_is_flipped() {
    let mut pixels = [0u8; 1024];
    pixels[0] = 0x80;
    let mut file = bmp(&pixels);
    file[22..26].copy_from_slice(&64i32.to_le_bytes());
    let frame = render_background(&file).unwrap().to_bytes();
    assert_eq!(frame[63 * 16], 0x80);
    assert_eq!(frame[0], 0);
}

#[test]
fn measurement_screen_writes_readings_and_bars() {
    let background = bmp(&[0u8; 1024]);
    let screen = render_measurement_screen(&background, 23, 45, 56, 800).unwrap().to_bytes();
    // Undoing the bars leaves the background with the three readings written on it.
    let mut texts = MyFrameBuffer::from_bytes(screen);
    draw_gauges(&mut texts, 23, 56, 800);
    let texts = texts.to_bytes();
    for (top, bottom) in [(1usize, 19usize), (23, 41), (45, 63)] {
        let written: usize = texts[top * 16..bottom * 16].iter().map(|b| b.count_ones() as usize).sum();
        assert!(written > 0, "no digits in rows {}..{}", top, bottom);
    }
    // The readings are right-aligned at column 124: nothing right of it.
    for r in 0..64 {
        assert_eq!(texts[r * 16 + 15] & 0x07, 0, "row {}", r);
    }
    // Changing a reading changes the frame.
    let other = render_measurement_screen(&background, 23, 45, 56, 900).unwrap().to_bytes();
    assert_ne!(screen, other);
    assert_eq!(screen, render_measurement_screen(&background, 23, 45, 56, 800).unwrap().to_bytes());
}

#[test]
fn history_screen_shows_newest_average() {
    let mut m = Monitor::new();
    let blank = render_history_screen(m.history()).to_bytes();
    for _ in 0..12 {
        m.record_measurement(420);
    }
    let shown = render_history_screen(m.history()).to_bytes();
    assert_ne!(blank, shown);
    assert!(shown[..19 * 16].iter().any(|b| *b != 0));
    assert!(shown[19 * 16..].iter().all(|b| *b == 0));
}
