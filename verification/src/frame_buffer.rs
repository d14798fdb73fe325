use vstd::prelude::*;
use embedded_graphics::geometry::{AnchorX, Point, Size};
use embedded_graphics::primitives::Rectangle;

verus! {

/// Whether column `c` (0 = leftmost, most significant bit) of a 128-pixel row mask is set.
pub open spec fn mask_column_set(mask: u128, c: u32) -> bool {
    (mask >> ((127 - c) as u32)) & 1 == 1
}

proof fn lemma_low_ones_bit(w: u32, k: u32)
    by (bit_vector)
    requires
        w < 128,
        k < 128,
    ensures
        ((!(!0u128 << w)) >> k) & 1 == 1 <==> k < w,
{
}

proof fn lemma_shl_bit(a: u128, r: u32, k: u32)
    by (bit_vector)
    requires
        r < 128,
        k < 128,
    ensures
        k >= r ==> ((a << r) >> k) & 1 == (a >> ((k - r) as u32)) & 1,
        k < r ==> ((a << r) >> k) & 1 == 0,
{
}

/// Builds a 128-bit row mask, leftmost column in the most significant bit,
/// whose set columns are exactly `x .. x + width`.
pub fn create_mask_128(x: u32, width: u32) -> (mask: u128)
    requires
        width < 128,
        0 < x + width <= 128,
    ensures
        forall|c: u32| c < 128 ==> (#[trigger] mask_column_set(mask, c) <==> x <= c < x + width),
{
    let right = 128 - (x + width);
    let low = !(!0u128 << width);
    let mask = low << right;
    assert forall|c: u32| c < 128 implies (#[trigger] mask_column_set(mask, c) <==> x <= c < x
        + width) by {
        let k = (127 - c) as u32;
        lemma_shl_bit(low, right, k);
        if k >= right {
            lemma_low_ones_bit(width, (k - right) as u32);
        }
    }
    mask
}

/// An axis-aligned rectangle: top-left corner and size, as in `embedded_graphics`.
#[derive(Clone, Copy, Debug, PartialEq, Eq)]
pub struct Rect {
    pub x: i32,
    pub y: i32,
    pub width: u32,
    pub height: u32,
}

/// The end (exclusive) of the rows a rectangle covers: `y + height`, with the
/// height saturated to `i32::MAX` and the sum saturated to `i32::MAX`.
pub open spec fn rows_end(rect: Rect) -> int {
    let h: int = if rect.height > i32::MAX {
        i32::MAX as int
    } else {
        rect.height as int
    };
    if rect.y + h > i32::MAX {
        i32::MAX as int
    } else {
        rect.y + h
    }
}

/// The rows of `rect`, computed by `embedded_graphics`'s `Rectangle::rows`, returned as
/// the bounds of the range. Its source returns `y .. y.saturating_add(height.saturating_as())`,
/// which the contract states through `rows_end`.
#[verifier::external_body]
fn rect_rows(rect: Rect) -> (rows: (i32, i32))
    ensures
        rows.0 == rect.y,
        rows.1 == rows_end(rect),
{
    let range = Rectangle::new(Point::new(rect.x, rect.y), Size::new(rect.width, rect.height)).rows();
    (range.start, range.end)
}

/// `rect` resized to `width` with its left edge kept, computed by `embedded_graphics`'s
/// `Rectangle::resized_width` with `AnchorX::Left`. Its source keeps the top-left corner
/// and the height and sets the width, which is what the contract states.
#[verifier::external_body]
pub(crate) fn rect_resized_width_left(rect: Rect, width: u32) -> (r: Rect)
    ensures
        r == (Rect { width, ..rect }),
{
    let resized = Rectangle::new(Point::new(rect.x, rect.y), Size::new(rect.width, rect.height))
        .resized_width(width, AnchorX::Left);
    Rect {
        x: resized.top_left.x,
        y: resized.top_left.y,
        width: resized.size.width,
        height: resized.size.height,
    }
}

/// Whether pixel (`col`, `row`) is on in a 128 x 64 one-bit frame buffer whose rows
/// are 16 bytes each, leftmost pixel in the most significant bit.
pub open spec fn pixel_on(bytes: Seq<u8>, col: int, row: int) -> bool {
    (bytes[row * 16 + col / 8] >> ((7 - col % 8) as u32)) & 1 == 1
}

/// Whether pixel (`col`, `row`) lies inside `rect`.
pub open spec fn in_rect(rect: Rect, col: int, row: int) -> bool {
    &&& rect.x <= col < rect.x + rect.width
    &&& rect.y <= row < rows_end(rect)
}

/// Whether inverting `rect` stays inside the screen: its columns start at or right of
/// the left edge, end at or left of the right edge, cover less than the full width and
/// do not end at column 0; the rows it covers, if any, lie on the screen.
pub open spec fn invertible_rect(rect: Rect) -> bool {
    &&& 0 <= rect.x
    &&& rect.width < 128
    &&& 0 < rect.x + rect.width <= 128
    &&& rect.y < rows_end(rect) ==> 0 <= rect.y && rows_end(rect) <= 64
}

/// Byte `k` (0 = leftmost) of a 128-bit row mask.
pub open spec fn mask_byte(mask: u128, k: int) -> u8 {
    (mask >> (((15 - k) * 8) as u32)) as u8
}

proof fn lemma_xor_mask_bit(b: u8, mask: u128, k: u32, p: u32)
    by (bit_vector)
    requires
        k < 16,
        p < 8,
    ensures
        ((b ^ ((mask >> ((15 - k) * 8) as u32) as u8)) >> ((7 - p) as u32)) & 1 == 1 <==> (((b
            >> ((7 - p) as u32)) & 1 == 1) != ((mask >> ((127 - (8 * k + p)) as u32)) & 1 == 1)),
{
}

proof fn lemma_bits_determine_byte(a: u8, b: u8)
    by (bit_vector)
    requires
        (a >> 7u32) & 1 == (b >> 7u32) & 1,
        (a >> 6u32) & 1 == (b >> 6u32) & 1,
        (a >> 5u32) & 1 == (b >> 5u32) & 1,
        (a >> 4u32) & 1 == (b >> 4u32) & 1,
        (a >> 3u32) & 1 == (b >> 3u32) & 1,
        (a >> 2u32) & 1 == (b >> 2u32) & 1,
        (a >> 1u32) & 1 == (b >> 1u32) & 1,
        (a >> 0u32) & 1 == (b >> 0u32) & 1,
    ensures
        a == b,
{
}

proof fn lemma_bit_is_one_or_zero(a: u8, s: u32)
    by (bit_vector)
    requires
        s < 8,
    ensures
        (a >> s) & 1 == 0 || (a >> s) & 1 == 1,
{
}

/// Bit `sh` (0 = least significant) of a byte.
spec fn byte_bit(a: u8, sh: int) -> u8 {
    (a >> (sh as u32)) & 1
}

/// Two 128 x 64 frame buffers with the same pixels hold the same bytes.
pub proof fn lemma_pixels_determine_bytes(a: Seq<u8>, b: Seq<u8>)
    requires
        a.len() == 1024,
        b.len() == 1024,
        forall|col: int, row: int|
            0 <= col < 128 && 0 <= row < 64 ==> #[trigger] pixel_on(a, col, row) == pixel_on(
                b,
                col,
                row,
            ),
    ensures
        a == b,
{
    assert forall|j: int| 0 <= j < 1024 implies a[j] == b[j] by {
        let row = j / 16;
        let k = j % 16;
        assert forall|sh: int| 0 <= sh < 8 implies #[trigger] byte_bit(a[j], sh) == byte_bit(b[j], sh)
            by {
            let col = 8 * k + (7 - sh);
            assert(row * 16 + col / 8 == j);
            assert(col % 8 == 7 - sh);
            assert(pixel_on(a, col, row) == pixel_on(b, col, row));
            lemma_bit_is_one_or_zero(a[j], sh as u32);
            lemma_bit_is_one_or_zero(b[j], sh as u32);
        }
        assert(byte_bit(a[j], 0) == byte_bit(b[j], 0));
        assert(byte_bit(a[j], 1) == byte_bit(b[j], 1));
        assert(byte_bit(a[j], 2) == byte_bit(b[j], 2));
        assert(byte_bit(a[j], 3) == byte_bit(b[j], 3));
        assert(byte_bit(a[j], 4) == byte_bit(b[j], 4));
        assert(byte_bit(a[j], 5) == byte_bit(b[j], 5));
        assert(byte_bit(a[j], 6) == byte_bit(b[j], 6));
        assert(byte_bit(a[j], 7) == byte_bit(b[j], 7));
        lemma_bits_determine_byte(a[j], b[j]);
    }
    assert(a =~= b);
}

/// The pixels of `after` are those of `before` with the pixels inside `rect` inverted.
pub open spec fn inverted_from(before: Seq<u8>, after: Seq<u8>, rect: Rect) -> bool {
    forall|col: int, row: int|
        0 <= col < 128 && 0 <= row < 64 ==> #[trigger] pixel_on(after, col, row) == (pixel_on(
            before,
            col,
            row,
        ) != in_rect(rect, col, row))
}

/// Involution law: inverting the same rectangle twice gives back the original
/// frame buffer, byte for byte.
pub proof fn law_invert_twice(b0: Seq<u8>, b1: Seq<u8>, b2: Seq<u8>, rect: Rect)
    requires
        b0.len() == 1024,
        b2.len() == 1024,
        inverted_from(b0, b1, rect),
        inverted_from(b1, b2, rect),
    ensures
        b2 == b0,
{
    assert forall|col: int, row: int| 0 <= col < 128 && 0 <= row < 64 implies #[trigger] pixel_on(
        b2,
        col,
        row,
    ) == pixel_on(b0, col, row) by {
        assert(pixel_on(b1, col, row) == (pixel_on(b0, col, row) != in_rect(rect, col, row)));
    }
    lemma_pixels_determine_bytes(b2, b0);
}

/// A 128 x 64 monochrome frame buffer: 64 rows of 16 bytes, leftmost pixel of each
/// byte in its most significant bit.
pub struct MyFrameBuffer {
    data: [u8; 1024],
}

impl View for MyFrameBuffer {
    type V = Seq<u8>;

    closed spec fn view(&self) -> Seq<u8> {
        self.data@
    }
}

impl MyFrameBuffer {
    /// Every frame buffer holds exactly 1024 bytes.
    pub proof fn lemma_view_len(&self)
        ensures
            self@.len() == 1024,
    {
    }

    /// A frame buffer with every pixel off.
    pub fn new() -> (fb: Self)
        ensures
            fb@.len() == 1024,
            forall|i: int| 0 <= i < 1024 ==> #[trigger] fb@[i] == 0,
    {
        MyFrameBuffer { data: [0u8; 1024] }
    }

    /// A frame buffer holding `bytes`.
    pub fn from_bytes(bytes: [u8; 1024]) -> (fb: Self)
        ensures
            fb@ == bytes@,
            fb@.len() == 1024,
    {
        MyFrameBuffer { data: bytes }
    }

    /// The bytes of the frame buffer.
    pub fn to_bytes(&self) -> (bytes: [u8; 1024])
        ensures
            bytes@ == self@,
            self@.len() == 1024,
    {
        self.data
    }
}

/// A drawing surface on which the pixels of a rectangle can be inverted.
pub trait Invertible: Sized {
    /// Inverts every pixel inside `rect`.
    fn invert_rect(&mut self, rect: Rect)
        requires
            invertible_rect(rect),
    ;
}

impl Invertible for MyFrameBuffer {
    /// Inverts exactly the pixels of the screen that lie inside `rect`; every other
    /// pixel keeps its value.
    fn invert_rect(&mut self, rect: Rect)
        ensures
            old(self)@.len() == 1024,
            final(self)@.len() == 1024,
            inverted_from(old(self)@, final(self)@, rect),
    {
        let mask = create_mask_128(rect.x as u32, rect.width);
        let (start, end) = rect_rows(rect);
        let ghost old_data = self.data@;
        let mut y: i32 = start;
        while y < end
            invariant
                start == rect.y,
                end == rows_end(rect),
                invertible_rect(rect),
                start <= y,
                start < end ==> y <= end,
                start >= end ==> y == start,
                self.data@.len() == 1024,
                forall|j: int|
                    0 <= j < 1024 ==> #[trigger] self.data@[j] == (if start <= j / 16 < y {
                        old_data[j] ^ mask_byte(mask, j % 16)
                    } else {
                        old_data[j]
                    }),
            decreases end - y,
        {
            let mut i: u32 = 0;
            while i < 16
                invariant
                    start == rect.y,
                    end == rows_end(rect),
                    invertible_rect(rect),
                    start <= y < end,
                    i <= 16,
                    self.data@.len() == 1024,
                    forall|j: int|
                        0 <= j < 1024 ==> #[trigger] self.data@[j] == (if start <= j / 16 < y || (j
                            / 16 == y && j % 16 < i) {
                            old_data[j] ^ mask_byte(mask, j % 16)
                        } else {
                            old_data[j]
                        }),
                decreases 16 - i,
            {
                let idx = (y * 16 + i as i32) as usize;
                let b = (mask >> ((15 - i) * 8)) as u8;
                self.data[idx] = self.data[idx] ^ b;
                i = i + 1;
            }
            y = y + 1;
        }
        assert(start < end ==> y == end);
        proof {
            assert forall|col: int, row: int|
                0 <= col < 128 && 0 <= row < 64 implies #[trigger] pixel_on(self.data@, col, row) == (
                pixel_on(old_data, col, row) != in_rect(rect, col, row)) by {
                let j = row * 16 + col / 8;
                let k = (col / 8) as u32;
                let p = (col % 8) as u32;
                assert(j / 16 == row && j % 16 == col / 8);
                lemma_xor_mask_bit(old_data[j], mask, k, p);
                let c = (8 * k + p) as u32;
                assert(c == col);
                assert(mask_column_set(mask, c) == (rect.x <= col < rect.x + rect.width));
                assert(start <= row < y <==> rect.y <= row < rows_end(rect));
                assert(self.data@[j] == (if start <= row < y {
                    old_data[j] ^ mask_byte(mask, col / 8)
                } else {
                    old_data[j]
                }));
            }
        }
    }
}

} // verus!
