use vstd::prelude::*;
use crate::frame_buffer::{pixel_on, MyFrameBuffer};
use crate::gauges::{
    clamped_width, co2_width_spec, draw_gauges, in_bars, temperature_in_gauge_range,
    temperature_width_spec,
};
use crate::ring_buffer::RingBuffer;
use embedded_graphics::framebuffer::Framebuffer;
use embedded_graphics::image::Image;
use embedded_graphics::mono_font::ascii::FONT_9X18_BOLD;
use embedded_graphics::mono_font::MonoTextStyle;
use embedded_graphics::pixelcolor::raw::{BigEndian, RawU1};
use embedded_graphics::pixelcolor::BinaryColor;
use embedded_graphics::prelude::{Drawable, Point};
use embedded_graphics::text::{Alignment, Baseline, Text, TextStyleBuilder};
use tinybmp::Bmp;

verus! {

/// The little-endian unsigned value of the four bytes of `s` at `i`.
pub open spec fn le_u32_at(s: Seq<u8>, i: int) -> int {
    s[i] + s[i + 1] * 0x100 + s[i + 2] * 0x1_0000 + s[i + 3] * 0x100_0000
}

/// The little-endian unsigned value of the two bytes of `s` at `i`.
pub open spec fn le_u16_at(s: Seq<u8>, i: int) -> int {
    s[i] + s[i + 1] * 0x100
}

/// Whether `bmp` starts with the header of a screen bitmap: signature `BM`, a
/// 40-byte information header, a width of 1 to 128 pixels, a height of 1 to 64
/// pixels stored in either row order (a negative height means top-down), one bit
/// per pixel, no compression, and at most two palette entries. These are the
/// bitmaps the screens are drawn from; for them `tinybmp`'s parse and its drawing
/// do not overflow or panic, on a 32-bit target too.
pub open spec fn screen_bitmap(bmp: Seq<u8>) -> bool {
    &&& bmp.len() >= 54
    &&& bmp[0] == 0x42 && bmp[1] == 0x4d
    &&& le_u32_at(bmp, 14) == 40
    &&& 1 <= le_u32_at(bmp, 18) <= 128
    &&& (1 <= le_u32_at(bmp, 22) <= 64 || 0x1_0000_0000 - 64 <= le_u32_at(bmp, 22))
    &&& le_u16_at(bmp, 28) == 1
    &&& le_u32_at(bmp, 30) == 0
    &&& le_u32_at(bmp, 46) <= 2
}

/// The little-endian value of the four bytes of `s` at `i`.
fn read_le_u32(s: &[u8], i: usize) -> (r: u64)
    requires
        i + 4 <= s@.len(),
    ensures
        r == le_u32_at(s@, i as int),
{
    s[i] as u64 + s[i + 1] as u64 * 0x100 + s[i + 2] as u64 * 0x1_0000 + s[i + 3] as u64
        * 0x100_0000
}

/// Whether `bmp` starts with the header of a screen bitmap.
pub fn is_screen_bitmap(bmp: &[u8]) -> (b: bool)
    ensures
        b == screen_bitmap(bmp@),
{
    if bmp.len() < 54 {
        return false;
    }
    let height = read_le_u32(bmp, 22);
    let bpp = bmp[28] as u64 + bmp[29] as u64 * 0x100;
    let width = read_le_u32(bmp, 18);
    bmp[0] == 0x42 && bmp[1] == 0x4d && read_le_u32(bmp, 14) == 40 && 1 <= width && width <= 128
        && ((1 <= height && height <= 64) || 0x1_0000_0000 - 64 <= height) && bpp == 1
        && read_le_u32(bmp, 30) == 0 && read_le_u32(bmp, 46) <= 2
}

/// The 128 x 64 frame that a BMP file draws onto a blank frame, or `None` when
/// the bytes are not a BMP file that `tinybmp` can parse.
pub uninterp spec fn bmp_frame(bmp: Seq<u8>) -> Option<Seq<u8>>;

/// The frame after drawing `value` in decimal, in `embedded_graphics`' 9 x 18 bold
/// ASCII font, right-aligned at `right_x` with its top at `top_y`.
pub uninterp spec fn number_drawn(frame: Seq<u8>, value: u32, right_x: i32, top_y: i32) -> Seq<u8>;

/// Parses `bmp` with `tinybmp`'s `Bmp::<BinaryColor>::from_slice` and draws it with
/// `embedded_graphics`' `Image` at the origin of a blank 128 x 64 `Framebuffer`
/// (drawing into it cannot fail). The contract names the result and says that it
/// depends on the bytes alone; it does not state what the pixels are.
#[verifier::external_body]
fn render_bmp(bmp: &[u8]) -> (r: Option<[u8; 1024]>)
    requires
        screen_bitmap(bmp@),
    ensures
        r is Some <==> bmp_frame(bmp@) is Some,
        r matches Some(f) ==> f@ == bmp_frame(bmp@).unwrap(),
{
    let image = Bmp::<BinaryColor>::from_slice(bmp).ok()?;
    let mut frame = Framebuffer::<BinaryColor, RawU1, BigEndian, 128, 64, 1024>::new();
    Image::new(&image, Point::zero()).draw(&mut frame).unwrap();
    Some(*frame.data())
}

/// Formats `value` with `itoa` and draws it with `embedded_graphics`' `Text`
/// (9 x 18 bold ASCII font, pixels on, right-aligned, top baseline) into a
/// `Framebuffer` holding `frame` (drawing into it cannot fail). The contract names
/// the result as a function of the arguments; it does not state the glyphs.
#[verifier::external_body]
fn draw_number(frame: [u8; 1024], value: u32, right_x: i32, top_y: i32) -> (r: [u8; 1024])
    requires
        0 <= right_x < 128,
        0 <= top_y < 64,
    ensures
        r@ == number_drawn(frame@, value, right_x, top_y),
{
    let mut fb = Framebuffer::<BinaryColor, RawU1, BigEndian, 128, 64, 1024>::new();
    *fb.data_mut() = frame;
    let style = MonoTextStyle::new(&FONT_9X18_BOLD, BinaryColor::On);
    let layout = TextStyleBuilder::new().alignment(Alignment::Right).baseline(Baseline::Top).build();
    let mut digits = itoa::Buffer::new();
    Text::with_text_style(digits.format(value), Point::new(right_x, top_y), style, layout)
        .draw(&mut fb)
        .unwrap();
    *fb.data()
}

/// The frame of the measurement screen before its bars are drawn: the background
/// with the three readings written right-aligned at x = 124, rows 1, 23 and 45.
pub open spec fn readings_drawn(background: Seq<u8>, temperature: u32, humidity: u32, co2: u16) -> Seq<u8> {
    number_drawn(
        number_drawn(number_drawn(background, temperature, 124, 1), humidity, 124, 23),
        co2 as u32,
        124,
        45,
    )
}

/// Layout law of the measurement screen: on the background, the temperature is
/// written first, right-aligned at x = 124 on the top line (y = 1), then the
/// humidity on the middle line (y = 23), then the CO2 reading on the bottom line
/// (y = 45).
pub proof fn law_measurement_screen_layout(background: Seq<u8>, temperature: u32, humidity: u32, co2: u16)
    ensures
        readings_drawn(background, temperature, humidity, co2) == number_drawn(
            number_drawn(number_drawn(background, temperature, 124, 1), humidity, 124, 23),
            co2 as u32,
            124,
            45,
        ),
{
}

/// The background of the measurement screen, drawn from the screen bitmap
/// `background`; `None` when `tinybmp` cannot parse the file. The device shows it
/// while the first measurement is awaited.
pub fn render_background(background: &[u8]) -> (r: Option<MyFrameBuffer>)
    requires
        screen_bitmap(background@),
    ensures
        r is Some <==> bmp_frame(background@) is Some,
        r matches Some(fb) ==> fb@ == bmp_frame(background@).unwrap(),
{
    match render_bmp(background) {
        Some(frame) => Some(MyFrameBuffer::from_bytes(frame)),
        None => None,
    }
}

/// Renders the measurement screen: the background drawn from the screen bitmap
/// `background`, the temperature, humidity and CO2 readings written on it, and the
/// three gauge bars inverted over it. `None` when `tinybmp` cannot parse the file.
pub fn render_measurement_screen(
    background: &[u8],
    temperature: u32,
    humidity: u32,
    rh_width: u32,
    co2: u16,
) -> (r: Option<MyFrameBuffer>)
    requires
        screen_bitmap(background@),
        temperature_in_gauge_range(temperature),
    ensures
        r is Some <==> bmp_frame(background@) is Some,
        r matches Some(fb) ==> ({
            &&& fb@.len() == 1024
            &&& forall|col: int, row: int|
                0 <= col < 128 && 0 <= row < 64 ==> #[trigger] pixel_on(fb@, col, row) == (pixel_on(
                    readings_drawn(bmp_frame(background@).unwrap(), temperature, humidity, co2),
                    col,
                    row,
                ) != in_bars(
                    temperature_width_spec(temperature as int),
                    clamped_width(rh_width as int),
                    co2_width_spec(co2 as int),
                    col,
                    row,
                ))
            &&& forall|col: int, row: int|
                0 <= col < 128 && 0 <= row < 64 ==> #[trigger] pixel_on(fb@, col, row) == (pixel_on(
                    number_drawn(
                        number_drawn(
                            number_drawn(bmp_frame(background@).unwrap(), temperature, 124, 1),
                            humidity,
                            124,
                            23,
                        ),
                        co2 as u32,
                        124,
                        45,
                    ),
                    col,
                    row,
                ) != in_bars(
                    temperature_width_spec(temperature as int),
                    clamped_width(rh_width as int),
                    co2_width_spec(co2 as int),
                    col,
                    row,
                ))
        }),
{
    match render_bmp(background) {
        Some(frame) => {
            let frame = draw_number(frame, temperature, 124, 1);
            let frame = draw_number(frame, humidity, 124, 23);
            let frame = draw_number(frame, co2 as u32, 124, 45);
            let mut fb = MyFrameBuffer::from_bytes(frame);
            draw_gauges(&mut fb, temperature, rh_width, co2);
            Some(fb)
        },
        None => None,
    }
}

/// Renders the history screen as this crate defines it: a blank frame with the
/// newest averaged CO2 reading written right-aligned at x = 124, row 1. It is a
/// placeholder for a history chart, which the firmware names but never draws.
pub fn render_history_screen(history: &RingBuffer<u16, 120>) -> (r: MyFrameBuffer)
    ensures
        r@ == number_drawn(Seq::new(1024, |i: int| 0u8), history@[119] as u32, 124, 1),
{
    let newest = history[119];
    let blank = [0u8; 1024];
    assert(blank@ =~= Seq::new(1024, |i: int| 0u8));
    MyFrameBuffer::from_bytes(draw_number(blank, newest as u32, 124, 1))
}

} // verus!
