use vstd::prelude::*;
use crate::frame_buffer::{
    in_rect, pixel_on, rect_resized_width_left, Invertible, MyFrameBuffer, Rect,
};

verus! {

/// Full width of a gauge bar, in pixels.
pub const GAUGE_WIDTH: u32 = 124;

/// Temperature (in whole degrees Celsius) at which the temperature gauge starts.
pub const TEMPERATURE_GAUGE_MIN: u32 = 13;

/// Temperature span, in degrees Celsius, that the full temperature gauge covers.
pub const TEMPERATURE_GAUGE_SPAN: u32 = 20;

/// CO2 concentration, in ppm, that fills the CO2 gauge.
pub const CO2_GAUGE_FULL: u32 = 2000;

/// The area of the temperature gauge on the measurement screen.
pub fn temperature_area() -> (r: Rect)
    ensures
        r == (Rect { x: 2, y: 2, width: 124, height: 16 }),
{
    Rect { x: 2, y: 2, width: GAUGE_WIDTH, height: 16 }
}

/// The area of the relative humidity gauge on the measurement screen.
pub fn humidity_area() -> (r: Rect)
    ensures
        r == (Rect { x: 2, y: 24, width: 124, height: 16 }),
{
    Rect { x: 2, y: 24, width: GAUGE_WIDTH, height: 16 }
}

/// The area of the CO2 gauge on the measurement screen.
pub fn co2_area() -> (r: Rect)
    ensures
        r == (Rect { x: 2, y: 46, width: 124, height: 16 }),
{
    Rect { x: 2, y: 46, width: GAUGE_WIDTH, height: 16 }
}

/// A bar width limited to the full gauge width.
pub open spec fn clamped_width(w: int) -> int {
    if w > 124 {
        124
    } else {
        w
    }
}

/// The temperature bar width: 124 pixels per 20 degrees above 13, rounded down, at most 124.
pub open spec fn temperature_width_spec(temperature: int) -> int {
    clamped_width(124 * (temperature - 13) / 20)
}

/// The CO2 bar width: 124 pixels per 2000 ppm, rounded down, at most 124.
pub open spec fn co2_width_spec(co2: int) -> int {
    clamped_width(124 * co2 / 2000)
}

/// Whether the temperature bar width can be computed for `temperature` (whole
/// degrees): it is at least 13 and the scaled difference fits in a `u32`.
pub open spec fn temperature_in_gauge_range(temperature: u32) -> bool {
    13 <= temperature && 124 * (temperature - 13) <= u32::MAX
}

/// Limits a bar width to the full gauge width (`w.clamp(0, 124)`).
pub fn clamp_gauge_width(w: u32) -> (r: u32)
    ensures
        r == clamped_width(w as int),
{
    if w > GAUGE_WIDTH {
        GAUGE_WIDTH
    } else {
        w
    }
}

/// Width of the temperature bar for a temperature in whole degrees Celsius.
pub fn temperature_gauge_width(temperature: u32) -> (w: u32)
    requires
        temperature_in_gauge_range(temperature),
    ensures
        w == temperature_width_spec(temperature as int),
{
    let w = GAUGE_WIDTH * (temperature - TEMPERATURE_GAUGE_MIN) / TEMPERATURE_GAUGE_SPAN;
    clamp_gauge_width(w)
}

/// Width of the CO2 bar for a concentration in ppm.
pub fn co2_gauge_width(co2: u16) -> (w: u32)
    ensures
        w == co2_width_spec(co2 as int),
{
    assert(124 * (co2 as int) <= 124 * 65535);
    let w = GAUGE_WIDTH * (co2 as u32) / CO2_GAUGE_FULL;
    clamp_gauge_width(w)
}

/// The area of a gauge with its bar cut to `width` pixels from the left.
pub open spec fn bar(area: Rect, width: int) -> Rect {
    Rect { width: width as u32, ..area }
}

/// Whether pixel (`col`, `row`) lies in one of the three bars of the measurement screen.
pub open spec fn in_bars(
    temperature_width: int,
    humidity_width: int,
    co2_width: int,
    col: int,
    row: int,
) -> bool {
    ||| in_rect(bar(Rect { x: 2, y: 2, width: 124, height: 16 }, temperature_width), col, row)
    ||| in_rect(bar(Rect { x: 2, y: 24, width: 124, height: 16 }, humidity_width), col, row)
    ||| in_rect(bar(Rect { x: 2, y: 46, width: 124, height: 16 }, co2_width), col, row)
}

/// Bar width law: the temperature bar grows by 124 pixels per 20 degrees above 13
/// and the CO2 bar by 124 pixels per 2000 ppm, rounded down (`w` is the largest
/// width whose scaled value does not exceed the reading), and both are full (124
/// pixels) exactly from 33 degrees and from 2000 ppm on; any width is limited to
/// 124 pixels and kept below that.
pub proof fn law_gauge_widths(temperature: u32, co2: u16, w: u32)
    requires
        temperature_in_gauge_range(temperature),
    ensures
        ({
            let t = temperature_width_spec(temperature as int);
            &&& temperature < 33 ==> t * 20 <= 124 * (temperature - 13) < (t + 1) * 20
            &&& temperature < 33 ==> t < 124
            &&& temperature >= 33 ==> t == 124
        }),
        ({
            let c = co2_width_spec(co2 as int);
            &&& co2 < 2000 ==> c * 2000 <= 124 * co2 < (c + 1) * 2000
            &&& co2 < 2000 ==> c < 124
            &&& co2 >= 2000 ==> c == 124
        }),
        clamped_width(w as int) == if w <= 124 { w as int } else { 124 },
{
    let tq = 124 * (temperature - 13) / 20;
    vstd::arithmetic::div_mod::lemma_fundamental_div_mod(124 * (temperature - 13), 20);
    let cq = 124 * (co2 as int) / 2000;
    vstd::arithmetic::div_mod::lemma_fundamental_div_mod(124 * (co2 as int), 2000);
}

/// Bar placement law: the pixels of the bars are, in the rows of the temperature
/// area (2 to 17), exactly columns 2 .. 2 + temperature width; in the rows of the
/// humidity area (24 to 39), exactly columns 2 .. 2 + humidity width; in the rows of
/// the CO2 area (46 to 61), exactly columns 2 .. 2 + CO2 width; and none elsewhere.
pub proof fn law_bar_placement(
    temperature_width: int,
    humidity_width: int,
    co2_width: int,
    col: int,
    row: int,
)
    requires
        0 <= temperature_width <= 124,
        0 <= humidity_width <= 124,
        0 <= co2_width <= 124,
        0 <= col < 128,
        0 <= row < 64,
    ensures
        in_bars(temperature_width, humidity_width, co2_width, col, row) == ((2 <= row < 18 && 2
            <= col < 2 + temperature_width) || (24 <= row < 40 && 2 <= col < 2 + humidity_width) || (
        46 <= row < 62 && 2 <= col < 2 + co2_width)),
{
}

/// Draws the three gauge bars of the measurement screen by inverting, in each gauge
/// area, a bar as wide as the reading calls for: temperature in whole degrees
/// Celsius, the humidity bar's unclamped width in pixels, and CO2 in ppm.
pub fn draw_gauges(fb: &mut MyFrameBuffer, temperature: u32, humidity_width: u32, co2: u16)
    requires
        temperature_in_gauge_range(temperature),
    ensures
        old(fb)@.len() == 1024,
        final(fb)@.len() == 1024,
        forall|col: int, row: int|
            0 <= col < 128 && 0 <= row < 64 ==> #[trigger] pixel_on(final(fb)@, col, row) == (
            pixel_on(old(fb)@, col, row) != in_bars(
                temperature_width_spec(temperature as int),
                clamped_width(humidity_width as int),
                co2_width_spec(co2 as int),
                col,
                row,
            )),
{
    let tmp_width = temperature_gauge_width(temperature);
    let rh_width = clamp_gauge_width(humidity_width);
    let co2_width = co2_gauge_width(co2);
    let ghost fb0 = fb@;
    let tmp_bar = rect_resized_width_left(temperature_area(), tmp_width);
    fb.invert_rect(tmp_bar);
    let ghost fb1 = fb@;
    let rh_bar = rect_resized_width_left(humidity_area(), rh_width);
    fb.invert_rect(rh_bar);
    let ghost fb2 = fb@;
    let co2_bar = rect_resized_width_left(co2_area(), co2_width);
    fb.invert_rect(co2_bar);
    proof {
        assert forall|col: int, row: int| 0 <= col < 128 && 0 <= row < 64 implies #[trigger] pixel_on(
            fb@,
            col,
            row,
        ) == (pixel_on(fb0, col, row) != in_bars(
            tmp_width as int,
            rh_width as int,
            co2_width as int,
            col,
            row,
        )) by {
            assert(pixel_on(fb@, col, row) == (pixel_on(fb2, col, row) != in_rect(co2_bar, col, row)));
            assert(pixel_on(fb2, col, row) == (pixel_on(fb1, col, row) != in_rect(rh_bar, col, row)));
            assert(pixel_on(fb1, col, row) == (pixel_on(fb0, col, row) != in_rect(tmp_bar, col, row)));
        }
    }
}

} // verus!
