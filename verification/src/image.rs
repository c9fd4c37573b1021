//! Image decoding and e-ink pixel-plane packing.
//!
//! Supports decoding 8-bit indexed bitmaps (and a compact pre-packed binary
//! format) and quantizing them into the packed plane layout each e-ink
//! display family expects: one plane of 2-bit color codes for the 4-color
//! (BWRY) format, or two concatenated 1-bit planes (monochrome, then red) for
//! the 3-color (BWR) format.

use core::marker::PhantomData;
use vstd::prelude::*;

use crate::protocol_common::{DISPLAY_HEIGHT, DISPLAY_WIDTH, IMAGE_DATA_SIZE, PLANE_SIZE};
use crate::tag_type::{Bwr, Bwry, ImageFormat};

verus! {

/// Image decoding errors.
#[derive(Debug, Clone, Copy, PartialEq, Eq, Structural)]
pub enum ImageError {
    /// Could not open the source file
    OpenFailed,
    /// The source data ended before the expected content
    ReadFailed,
    /// Invalid file format
    InvalidFormat,
    /// Wrong image dimensions
    InvalidSize,
}

/// One pixel's color in the 4-color space, quantized against the reference
/// palette. The declaration order is the tie-break priority order.
#[derive(Debug, Clone, Copy, PartialEq, Eq, Structural)]
pub enum ColorCode {
    /// Reference color (0, 0, 0), packed code 0b00
    Black,
    /// Reference color (255, 255, 255), packed code 0b01
    White,
    /// Reference color (255, 255, 0), packed code 0b10
    Yellow,
    /// Reference color (255, 0, 0), packed code 0b11
    Red,
}

impl ColorCode {
    /// The 2-bit packed code of this color.
    pub open spec fn spec_code(self) -> u8 {
        match self {
            ColorCode::Black => 0,
            ColorCode::White => 1,
            ColorCode::Yellow => 2,
            ColorCode::Red => 3,
        }
    }

    /// The color of a 2-bit packed code.
    pub open spec fn spec_from_code(code: u8) -> ColorCode {
        if code == 0 {
            ColorCode::Black
        } else if code == 1 {
            ColorCode::White
        } else if code == 2 {
            ColorCode::Yellow
        } else {
            ColorCode::Red
        }
    }

    /// Returns the 2-bit packed code of this color.
    pub fn code(self) -> (c: u8)
        ensures
            c == self.spec_code(),
            c < 4,
    {
        match self {
            ColorCode::Black => 0,
            ColorCode::White => 1,
            ColorCode::Yellow => 2,
            ColorCode::Red => 3,
        }
    }

    /// Returns the color of a 2-bit packed code (codes above 3 map to Red,
    /// matching the truncation to 2 bits).
    pub fn from_code(code: u8) -> (r: ColorCode)
        ensures
            r == ColorCode::spec_from_code(code),
    {
        if code == 0 {
            ColorCode::Black
        } else if code == 1 {
            ColorCode::White
        } else if code == 2 {
            ColorCode::Yellow
        } else {
            ColorCode::Red
        }
    }

    /// The RGB components of this color's reference point.
    pub open spec fn spec_ref_rgb(self) -> (u8, u8, u8) {
        match self {
            ColorCode::Black => (0, 0, 0),
            ColorCode::White => (255, 255, 255),
            ColorCode::Yellow => (255, 255, 0),
            ColorCode::Red => (255, 0, 0),
        }
    }
}

// ---------------------------------------------------------------------------
// Color quantization
// ---------------------------------------------------------------------------

/// Squared Euclidean distance between two RGB colors, with no gamma
/// correction or perceptual weighting.
pub open spec fn spec_color_distance_sq(r1: u8, g1: u8, b1: u8, r2: u8, g2: u8, b2: u8) -> int {
    (r1 - r2) * (r1 - r2) + (g1 - g2) * (g1 - g2) + (b1 - b2) * (b1 - b2)
}

/// Squared distance from an RGB color to a `ColorCode`'s reference point.
pub open spec fn spec_dist_to_ref(c: ColorCode, r: u8, g: u8, b: u8) -> int {
    let (rr, rg, rb) = c.spec_ref_rgb();
    spec_color_distance_sq(r, g, b, rr, rg, rb)
}

/// Calculates the squared distance between two RGB colors.
pub fn color_distance_sq(r1: u8, g1: u8, b1: u8, r2: u8, g2: u8, b2: u8) -> (d: u32)
    ensures
        d == spec_color_distance_sq(r1, g1, b1, r2, g2, b2),
{
    let dr: u32 = if r1 >= r2 { (r1 - r2) as u32 } else { (r2 - r1) as u32 };
    let dg: u32 = if g1 >= g2 { (g1 - g2) as u32 } else { (g2 - g1) as u32 };
    let db: u32 = if b1 >= b2 { (b1 - b2) as u32 } else { (b2 - b1) as u32 };
    proof {
        assert(dr * dr == (r1 - r2) * (r1 - r2) && dr * dr <= 255 * 255) by (nonlinear_arith)
            requires dr == if r1 >= r2 { r1 - r2 } else { r2 - r1 }, dr <= 255;
        assert(dg * dg == (g1 - g2) * (g1 - g2) && dg * dg <= 255 * 255) by (nonlinear_arith)
            requires dg == if g1 >= g2 { g1 - g2 } else { g2 - g1 }, dg <= 255;
        assert(db * db == (b1 - b2) * (b1 - b2) && db * db <= 255 * 255) by (nonlinear_arith)
            requires db == if b1 >= b2 { b1 - b2 } else { b2 - b1 }, db <= 255;
    }
    dr * dr + dg * dg + db * db
}

/// The 2-bit BWRY code nearest to an RGB color: the reference color of
/// minimum squared distance, ties broken by the evaluation order
/// Black, White, Yellow, Red (first minimum wins).
pub open spec fn spec_bwry_code(r: u8, g: u8, b: u8) -> u8 {
    let bd = spec_dist_to_ref(ColorCode::Black, r, g, b);
    let wd = spec_dist_to_ref(ColorCode::White, r, g, b);
    let yd = spec_dist_to_ref(ColorCode::Yellow, r, g, b);
    let rd = spec_dist_to_ref(ColorCode::Red, r, g, b);
    if bd <= wd && bd <= yd && bd <= rd {
        0
    } else if wd <= yd && wd <= rd {
        1
    } else if yd <= rd {
        2
    } else {
        3
    }
}

/// Maps an RGB color to its 2-bit BWRY e-ink color code:
/// 0 = Black, 1 = White, 2 = Yellow, 3 = Red.
pub fn map_to_bwry_color(r: u8, g: u8, b: u8) -> (code: u8)
    ensures
        code == spec_bwry_code(r, g, b),
        code < 4,
{
    let black_dist = color_distance_sq(r, g, b, 0, 0, 0);
    let white_dist = color_distance_sq(r, g, b, 255, 255, 255);
    let yellow_dist = color_distance_sq(r, g, b, 255, 255, 0);
    let red_dist = color_distance_sq(r, g, b, 255, 0, 0);

    if black_dist <= white_dist && black_dist <= yellow_dist && black_dist <= red_dist {
        0
    } else if white_dist <= yellow_dist && white_dist <= red_dist {
        1
    } else if yellow_dist <= red_dist {
        2
    } else {
        3
    }
}

/// The color nearest to an RGB value in the 4-color space.
pub open spec fn spec_nearest_color(r: u8, g: u8, b: u8) -> ColorCode {
    ColorCode::spec_from_code(spec_bwry_code(r, g, b))
}

/// Maps an RGB color to the nearest reference color of the 4-color space.
pub fn nearest_color(r: u8, g: u8, b: u8) -> (c: ColorCode)
    ensures
        c == spec_nearest_color(r, g, b),
{
    ColorCode::from_code(map_to_bwry_color(r, g, b))
}

/// `nearest_color` is total and picks the reference color of minimum squared
/// distance; on an exact tie the earlier-declared color wins (declaration
/// order Black, White, Yellow, Red).
pub proof fn lemma_nearest_color_minimal(r: u8, g: u8, b: u8)
    ensures
        forall|c: ColorCode|
            spec_dist_to_ref(spec_nearest_color(r, g, b), r, g, b) <= #[trigger] spec_dist_to_ref(
                c, r, g, b,
            ),
        forall|c: ColorCode|
            #[trigger] spec_dist_to_ref(c, r, g, b) == spec_dist_to_ref(
                spec_nearest_color(r, g, b), r, g, b,
            ) ==> spec_nearest_color(r, g, b).spec_code() <= c.spec_code(),
{
    let n = spec_nearest_color(r, g, b);
    assert forall|c: ColorCode|
        spec_dist_to_ref(n, r, g, b) <= #[trigger] spec_dist_to_ref(c, r, g, b) by {
        match c {
            ColorCode::Black => {},
            ColorCode::White => {},
            ColorCode::Yellow => {},
            ColorCode::Red => {},
        }
    }
    assert forall|c: ColorCode|
        #[trigger] spec_dist_to_ref(c, r, g, b) == spec_dist_to_ref(n, r, g, b)
            implies n.spec_code() <= c.spec_code() by {
        match c {
            ColorCode::Black => {},
            ColorCode::White => {},
            ColorCode::Yellow => {},
            ColorCode::Red => {},
        }
    }
}

/// The dual-buffer encoding flags of the 3-color space: `(is_white, is_red)`.
/// Black encodes as `(false, false)`. The nearest of the Black, White and Red
/// references wins, ties broken in that declaration order.
pub open spec fn spec_bwr_flags(r: u8, g: u8, b: u8) -> (bool, bool) {
    let bd = spec_dist_to_ref(ColorCode::Black, r, g, b);
    let wd = spec_dist_to_ref(ColorCode::White, r, g, b);
    let rd = spec_dist_to_ref(ColorCode::Red, r, g, b);
    if bd <= wd && bd <= rd {
        (false, false)
    } else if wd <= rd {
        (true, false)
    } else {
        (false, true)
    }
}

/// Maps an RGB color to its BWR dual-buffer encoding `(is_white, is_red)`.
pub fn map_to_bwr_color(r: u8, g: u8, b: u8) -> (f: (bool, bool))
    ensures
        f == spec_bwr_flags(r, g, b),
{
    let black_dist = color_distance_sq(r, g, b, 0, 0, 0);
    let white_dist = color_distance_sq(r, g, b, 255, 255, 255);
    let red_dist = color_distance_sq(r, g, b, 255, 0, 0);

    if black_dist <= white_dist && black_dist <= red_dist {
        (false, false)
    } else if white_dist <= red_dist {
        (true, false)
    } else {
        (false, true)
    }
}

// ---------------------------------------------------------------------------
// The packed image container
// ---------------------------------------------------------------------------

/// Marker trait tying a format marker type to its runtime format identifier.
pub trait ImageFormatMarker {
    /// Runtime format identifier.
    spec fn spec_format() -> ImageFormat;

    /// Returns the runtime format identifier.
    fn format() -> (f: ImageFormat)
        ensures
            f == Self::spec_format(),
    ;
}

impl ImageFormatMarker for Bwry {
    open spec fn spec_format() -> ImageFormat {
        ImageFormat::Bwry
    }

    fn format() -> ImageFormat {
        ImageFormat::Bwry
    }
}

impl ImageFormatMarker for Bwr {
    open spec fn spec_format() -> ImageFormat {
        ImageFormat::Bwr
    }

    fn format() -> ImageFormat {
        ImageFormat::Bwr
    }
}

/// Type-safe packed image container for a specific format. The buffer always
/// holds exactly `IMAGE_DATA_SIZE` bytes: one plane of 2-bit codes for the
/// 4-color format, or two concatenated `PLANE_SIZE`-byte planes (monochrome,
/// then red) for the 3-color format.
#[derive(Debug)]
pub struct Image<F: ImageFormatMarker> {
    data: Vec<u8>,
    marker: PhantomData<F>,
}

impl<F: ImageFormatMarker> View for Image<F> {
    type V = Seq<u8>;

    closed spec fn view(&self) -> Seq<u8> {
        self.data@
    }
}

impl<F: ImageFormatMarker> Image<F> {
    /// Well-formedness: every image holds exactly the packed buffer size.
    /// Every constructor establishes it and every method preserves it.
    pub open spec fn wf(&self) -> bool {
        self@.len() == IMAGE_DATA_SIZE
    }

    /// Creates an image with every byte set to `fill`.
    pub fn new_filled(fill: u8) -> (img: Self)
        ensures
            img.wf(),
            img@ == Seq::new(IMAGE_DATA_SIZE as nat, |i: int| fill),
    {
        let mut data: Vec<u8> = Vec::new();
        let mut i: usize = 0;
        while i < IMAGE_DATA_SIZE
            invariant
                i <= IMAGE_DATA_SIZE,
                data@ == Seq::new(i as nat, |j: int| fill),
            decreases IMAGE_DATA_SIZE - i,
        {
            data.push(fill);
            proof {
                assert(data@ =~= Seq::new((i + 1) as nat, |j: int| fill));
            }
            i = i + 1;
        }
        Image { data, marker: PhantomData }
    }

    /// Wraps an already-packed buffer; `None` unless it has exactly the
    /// packed buffer size.
    pub fn from_vec(data: Vec<u8>) -> (r: Option<Self>)
        ensures
            data@.len() == IMAGE_DATA_SIZE ==> (r matches Some(img) && img.wf() && img@ == data@),
            data@.len() != IMAGE_DATA_SIZE ==> r is None,
    {
        if data.len() == IMAGE_DATA_SIZE {
            Some(Image { data, marker: PhantomData })
        } else {
            None
        }
    }

    /// Borrows the packed image bytes.
    pub fn as_slice(&self) -> (r: &Vec<u8>)
        ensures
            r@ == self@,
    {
        &self.data
    }
}

/// Runtime-dispatched image container.
#[derive(Debug)]
pub enum AnyImage {
    /// BWRY 4-color image
    Bwry(Image<Bwry>),
    /// BWR 3-color image
    Bwr(Image<Bwr>),
}

// ---------------------------------------------------------------------------
// Pixel accessors for the 4-color packed layout
// ---------------------------------------------------------------------------

/// Bytes per row in the 4-color packed layout: 4 pixels per byte, 2 bits
/// each, most significant pair first.
pub const BWRY_BYTES_PER_ROW: usize = DISPLAY_WIDTH / 4;

/// The place value of pixel `x`'s 2-bit field within its byte (the leftmost
/// pixel of a byte occupies the most significant pair).
pub open spec fn spec_pixel_mult(x: int) -> int {
    if x % 4 == 0 {
        64
    } else if x % 4 == 1 {
        16
    } else if x % 4 == 2 {
        4
    } else {
        1
    }
}

/// The 2-bit code of the pixel at `(x, y)` in a 4-color packed buffer.
pub open spec fn spec_pixel_code(img: Seq<u8>, x: int, y: int) -> u8 {
    ((img[y * BWRY_BYTES_PER_ROW + x / 4] as int / spec_pixel_mult(x)) % 4) as u8
}

/// The byte `b` with the 2-bit field of place value `m` replaced by `code`:
/// the fields above the target are kept, the bits below it are kept, and
/// `code * m` is put in between.
pub open spec fn spec_byte_with_field(b: u8, m: int, code: u8) -> u8 {
    if m == 64 {
        (b % 64 + code * 64) as u8
    } else if m == 16 {
        ((b / 64) * 64 + b % 16 + code * 16) as u8
    } else if m == 4 {
        ((b / 16) * 16 + b % 4 + code * 4) as u8
    } else {
        ((b / 4) * 4 + code) as u8
    }
}

/// A 4-color packed buffer with the pixel at `(x, y)` replaced by `code`,
/// all other pixels unchanged.
pub open spec fn spec_set_pixel(img: Seq<u8>, x: int, y: int, code: u8) -> Seq<u8> {
    let idx = y * BWRY_BYTES_PER_ROW + x / 4;
    img.update(idx, spec_byte_with_field(img[idx], spec_pixel_mult(x), code))
}

/// Replacing one 2-bit field of a byte yields that field back and leaves the
/// other three 2-bit fields unchanged.
proof fn lemma_byte_with_field(b: u8, code: u8)
    requires
        code < 4,
    ensures
        spec_byte_with_field(b, 64, code) / 64 % 4 == code,
        spec_byte_with_field(b, 64, code) / 16 % 4 == b / 16 % 4,
        spec_byte_with_field(b, 64, code) / 4 % 4 == b / 4 % 4,
        spec_byte_with_field(b, 64, code) % 4 == b % 4,
        spec_byte_with_field(b, 16, code) / 16 % 4 == code,
        spec_byte_with_field(b, 16, code) / 64 % 4 == b / 64 % 4,
        spec_byte_with_field(b, 16, code) / 4 % 4 == b / 4 % 4,
        spec_byte_with_field(b, 16, code) % 4 == b % 4,
        spec_byte_with_field(b, 4, code) / 4 % 4 == code,
        spec_byte_with_field(b, 4, code) / 64 % 4 == b / 64 % 4,
        spec_byte_with_field(b, 4, code) / 16 % 4 == b / 16 % 4,
        spec_byte_with_field(b, 4, code) % 4 == b % 4,
        spec_byte_with_field(b, 1, code) % 4 == code,
        spec_byte_with_field(b, 1, code) / 64 % 4 == b / 64 % 4,
        spec_byte_with_field(b, 1, code) / 16 % 4 == b / 16 % 4,
        spec_byte_with_field(b, 1, code) / 4 % 4 == b / 4 % 4,
{
    assert(((b % 64 + code * 64) as u8) / 64 % 4 == code
        && ((b % 64 + code * 64) as u8) / 16 % 4 == b / 16 % 4
        && ((b % 64 + code * 64) as u8) / 4 % 4 == b / 4 % 4
        && ((b % 64 + code * 64) as u8) % 4 == b % 4) by (bit_vector)
        requires code < 4;
    assert((((b / 64) * 64 + b % 16 + code * 16) as u8) / 16 % 4 == code
        && (((b / 64) * 64 + b % 16 + code * 16) as u8) / 64 % 4 == b / 64 % 4
        && (((b / 64) * 64 + b % 16 + code * 16) as u8) / 4 % 4 == b / 4 % 4
        && (((b / 64) * 64 + b % 16 + code * 16) as u8) % 4 == b % 4) by (bit_vector)
        requires code < 4;
    assert((((b / 16) * 16 + b % 4 + code * 4) as u8) / 4 % 4 == code
        && (((b / 16) * 16 + b % 4 + code * 4) as u8) / 64 % 4 == b / 64 % 4
        && (((b / 16) * 16 + b % 4 + code * 4) as u8) / 16 % 4 == b / 16 % 4
        && (((b / 16) * 16 + b % 4 + code * 4) as u8) % 4 == b % 4) by (bit_vector)
        requires code < 4;
    assert((((b / 4) * 4 + code) as u8) % 4 == code
        && (((b / 4) * 4 + code) as u8) / 64 % 4 == b / 64 % 4
        && (((b / 4) * 4 + code) as u8) / 16 % 4 == b / 16 % 4
        && (((b / 4) * 4 + code) as u8) / 4 % 4 == b / 4 % 4) by (bit_vector)
        requires code < 4;
}

impl Image<Bwry> {
    /// Reads the color of the pixel at `(x, y)` of the 4-color packed layout.
    /// Out-of-range coordinates return White (a defensive default, not an
    /// error).
    pub fn get_pixel(&self, x: usize, y: usize) -> (c: ColorCode)
        requires
            self.wf(),
        ensures
            x < DISPLAY_WIDTH && y < DISPLAY_HEIGHT ==> c == ColorCode::spec_from_code(
                spec_pixel_code(self@, x as int, y as int),
            ),
            !(x < DISPLAY_WIDTH && y < DISPLAY_HEIGHT) ==> c == ColorCode::White,
    {
        if x < DISPLAY_WIDTH && y < DISPLAY_HEIGHT {
            proof {
                assert(BWRY_BYTES_PER_ROW == 50);
                assert(y * BWRY_BYTES_PER_ROW + x / 4 < IMAGE_DATA_SIZE) by (nonlinear_arith)
                    requires y < 200, x < 200, BWRY_BYTES_PER_ROW == 50, IMAGE_DATA_SIZE == 10000;
            }
            let byte = self.data[y * BWRY_BYTES_PER_ROW + x / 4];
            let code = match x % 4 {
                0 => byte / 64 % 4,
                1 => byte / 16 % 4,
                2 => byte / 4 % 4,
                _ => byte % 4,
            };
            ColorCode::from_code(code)
        } else {
            ColorCode::White
        }
    }

    /// Writes the pixel at `(x, y)` of the 4-color packed layout, leaving
    /// every other pixel unchanged. Out-of-range coordinates are a no-op.
    pub fn set_pixel(&mut self, x: usize, y: usize, c: ColorCode)
        requires
            old(self).wf(),
        ensures
            final(self).wf(),
            x < DISPLAY_WIDTH && y < DISPLAY_HEIGHT ==> final(self)@ == spec_set_pixel(
                old(self)@,
                x as int,
                y as int,
                c.spec_code(),
            ),
            !(x < DISPLAY_WIDTH && y < DISPLAY_HEIGHT) ==> final(self)@ == old(self)@,
    {
        if x < DISPLAY_WIDTH && y < DISPLAY_HEIGHT {
            proof {
                assert(BWRY_BYTES_PER_ROW == 50);
                assert(y * BWRY_BYTES_PER_ROW + x / 4 < IMAGE_DATA_SIZE) by (nonlinear_arith)
                    requires y < 200, x < 200, BWRY_BYTES_PER_ROW == 50, IMAGE_DATA_SIZE == 10000;
            }
            let idx = y * BWRY_BYTES_PER_ROW + x / 4;
            let b = self.data[idx];
            let code = c.code();
            let new_b = match x % 4 {
                0 => b % 64 + code * 64,
                1 => (b / 64) * 64 + b % 16 + code * 16,
                2 => (b / 16) * 16 + b % 4 + code * 4,
                _ => (b / 4) * 4 + code,
            };
            proof {
                assert(b % 64 + code * 64 < 256
                    && (b / 64) * 64 + b % 16 + code * 16 < 256
                    && (b / 16) * 16 + b % 4 + code * 4 < 256
                    && (b / 4) * 4 + code < 256) by (bit_vector)
                    requires code < 4;
                assert(new_b == spec_byte_with_field(b, spec_pixel_mult(x as int), code));
            }
            self.data.set(idx, new_b);
        }
    }
}

/// Round-trip: setting a pixel and reading it back yields the written code,
/// for all valid coordinates and all four color codes.
pub proof fn lemma_set_get_round_trip(img: Seq<u8>, x: int, y: int, code: u8)
    requires
        img.len() == IMAGE_DATA_SIZE,
        0 <= x < DISPLAY_WIDTH,
        0 <= y < DISPLAY_HEIGHT,
        code < 4,
    ensures
        spec_pixel_code(spec_set_pixel(img, x, y, code), x, y) == code,
{
    let idx = y * BWRY_BYTES_PER_ROW + x / 4;
    assert(BWRY_BYTES_PER_ROW == 50);
    assert(0 <= idx < IMAGE_DATA_SIZE) by (nonlinear_arith)
        requires idx == y * 50 + x / 4, 0 <= y < 200, 0 <= x < 200, IMAGE_DATA_SIZE == 10000;
    let b = img[idx];
    lemma_byte_with_field(b, code);
}

/// Frame: setting a pixel leaves every other valid pixel unchanged.
pub proof fn lemma_set_pixel_frame(img: Seq<u8>, x: int, y: int, code: u8, x2: int, y2: int)
    requires
        img.len() == IMAGE_DATA_SIZE,
        0 <= x < DISPLAY_WIDTH,
        0 <= y < DISPLAY_HEIGHT,
        0 <= x2 < DISPLAY_WIDTH,
        0 <= y2 < DISPLAY_HEIGHT,
        code < 4,
        x != x2 || y != y2,
    ensures
        spec_pixel_code(spec_set_pixel(img, x, y, code), x2, y2) == spec_pixel_code(img, x2, y2),
{
    let idx = y * BWRY_BYTES_PER_ROW + x / 4;
    let idx2 = y2 * BWRY_BYTES_PER_ROW + x2 / 4;
    assert(BWRY_BYTES_PER_ROW == 50);
    assert(0 <= idx < IMAGE_DATA_SIZE && 0 <= idx2 < IMAGE_DATA_SIZE) by (nonlinear_arith)
        requires idx == y * 50 + x / 4, idx2 == y2 * 50 + x2 / 4, 0 <= y < 200, 0 <= x < 200,
            0 <= y2 < 200, 0 <= x2 < 200, IMAGE_DATA_SIZE == 10000;
    if idx != idx2 {
        // A different byte is read; the update does not touch it.
    } else {
        assert(y == y2 && x / 4 == x2 / 4) by (nonlinear_arith)
            requires y * 50 + x / 4 == y2 * 50 + x2 / 4, 0 <= y < 200, 0 <= x < 200,
                0 <= y2 < 200, 0 <= x2 < 200;
        assert(x % 4 != x2 % 4);
        let b = img[idx];
        lemma_byte_with_field(b, code);
    }
}

// ---------------------------------------------------------------------------
// Bitmap decoding
// ---------------------------------------------------------------------------

/// Size of the bitmap file header.
pub const BMP_FILE_HEADER_SIZE: usize = 14;

/// Size of the bitmap info header.
pub const BMP_INFO_HEADER_SIZE: usize = 40;

/// Size of the color palette: 256 entries of 4 bytes (B, G, R, A) each.
pub const BMP_PALETTE_SIZE: usize = 1024;

/// Offset of the first pixel row: file header, info header, then palette.
/// The rows are taken from right after the palette; the file header's
/// pixel-offset field is not consulted.
pub const BMP_PIXEL_OFFSET: usize = BMP_FILE_HEADER_SIZE + BMP_INFO_HEADER_SIZE
    + BMP_PALETTE_SIZE;

/// Bytes per stored pixel row: the width rounded up to a 4-byte boundary,
/// which for a 200-pixel-wide 8-bit image is the width itself.
pub const BMP_ROW_SIZE: usize = 200;

/// Least input length that carries all headers, the palette and every row.
pub const BMP_MIN_SIZE: usize = BMP_PIXEL_OFFSET + BMP_ROW_SIZE * DISPLAY_HEIGHT;

/// Little-endian 16-bit value of two bytes.
pub open spec fn spec_le16(b0: u8, b1: u8) -> int {
    b0 + 0x100 * b1
}

/// Little-endian 32-bit value of four bytes.
pub open spec fn spec_le32(b0: u8, b1: u8, b2: u8, b3: u8) -> int {
    b0 + 0x100 * b1 + 0x1_0000 * b2 + 0x100_0000 * b3
}

/// The width field of the info header (a little-endian 32-bit integer).
pub open spec fn spec_bmp_width(d: Seq<u8>) -> int {
    spec_le32(d[18], d[19], d[20], d[21])
}

/// The raw height field of the info header: a little-endian 32-bit integer
/// in two's complement, positive for bottom-up storage, negative (here: the
/// raw value `0x1_0000_0000 - 200`) for top-down storage.
pub open spec fn spec_bmp_height_raw(d: Seq<u8>) -> int {
    spec_le32(d[22], d[23], d[24], d[25])
}

/// The bits-per-pixel field of the info header.
pub open spec fn spec_bmp_bpp(d: Seq<u8>) -> int {
    spec_le16(d[28], d[29])
}

/// Whether the rows are stored bottom-up (positive height field).
pub open spec fn spec_bmp_bottom_up(d: Seq<u8>) -> bool {
    spec_bmp_height_raw(d) == DISPLAY_HEIGHT
}

/// Whether the header's dimensions match the display exactly: the width must
/// equal the display width and the height's magnitude the display height
/// (positive for bottom-up rows, negative for top-down rows).
pub open spec fn spec_bmp_dims_ok(d: Seq<u8>) -> bool {
    &&& spec_bmp_width(d) == DISPLAY_WIDTH
    &&& (spec_bmp_height_raw(d) == DISPLAY_HEIGHT
        || spec_bmp_height_raw(d) == 0x1_0000_0000 - DISPLAY_HEIGHT)
}

/// Header validation, in the order the checks are made: enough bytes for the
/// file header; the magic "BM"; enough bytes for the info header; exactly the
/// display's dimensions; 8-bit indexed color; and enough bytes for the
/// palette and every pixel row. `None` means the input is well-formed.
pub open spec fn spec_bmp_header_error(d: Seq<u8>) -> Option<ImageError> {
    if d.len() < BMP_FILE_HEADER_SIZE {
        Some(ImageError::ReadFailed)
    } else if d[0] != 0x42 || d[1] != 0x4D {
        Some(ImageError::InvalidFormat)
    } else if d.len() < BMP_FILE_HEADER_SIZE + BMP_INFO_HEADER_SIZE {
        Some(ImageError::ReadFailed)
    } else if !spec_bmp_dims_ok(d) {
        Some(ImageError::InvalidSize)
    } else if spec_bmp_bpp(d) != 8 {
        Some(ImageError::InvalidFormat)
    } else if d.len() < BMP_MIN_SIZE {
        Some(ImageError::ReadFailed)
    } else {
        None
    }
}

/// The stored row that output row `out_row` comes from: mirrored for
/// bottom-up storage, identical for top-down storage.
pub open spec fn spec_bmp_src_row(out_row: int, bottom_up: bool) -> int {
    if bottom_up {
        DISPLAY_HEIGHT - 1 - out_row
    } else {
        out_row
    }
}

/// The palette index stored for the pixel at column `x` of output row
/// `out_row`.
pub open spec fn spec_bmp_palette_index(d: Seq<u8>, x: int, out_row: int) -> u8 {
    d[BMP_PIXEL_OFFSET + spec_bmp_src_row(out_row, spec_bmp_bottom_up(d)) * BMP_ROW_SIZE + x]
}

/// The BWRY color code of palette entry `idx`. Palette entries are stored as
/// B, G, R, A; the alpha byte is ignored.
pub open spec fn spec_bwry_code_of_palette(d: Seq<u8>, idx: int) -> u8 {
    spec_bwry_code(d[54 + 4 * idx + 2], d[54 + 4 * idx + 1], d[54 + 4 * idx])
}

/// The 2-bit code of the pixel at column `x` of output row `out_row`.
pub open spec fn spec_bwry_pixel(d: Seq<u8>, x: int, out_row: int) -> u8 {
    spec_bwry_code_of_palette(d, spec_bmp_palette_index(d, x, out_row) as int)
}

/// Output byte `xb` of output row `out_row`: four pixels packed two bits
/// each, most significant pair first.
pub open spec fn spec_bwry_packed_byte(d: Seq<u8>, out_row: int, xb: int) -> u8 {
    (spec_bwry_pixel(d, 4 * xb, out_row) * 64 + spec_bwry_pixel(d, 4 * xb + 1, out_row) * 16
        + spec_bwry_pixel(d, 4 * xb + 2, out_row) * 4 + spec_bwry_pixel(
        d,
        4 * xb + 3,
        out_row,
    )) as u8
}

/// The whole packed 4-color plane of a well-formed bitmap.
pub open spec fn spec_bwry_pixels(d: Seq<u8>) -> Seq<u8> {
    Seq::new(
        IMAGE_DATA_SIZE as nat,
        |i: int| spec_bwry_packed_byte(d, i / BWRY_BYTES_PER_ROW as int, i % BWRY_BYTES_PER_ROW as int),
    )
}

/// What decoding a bitmap to the 4-color format yields for any input.
pub open spec fn spec_load_bmp_bwry(d: Seq<u8>) -> Result<Seq<u8>, ImageError> {
    match spec_bmp_header_error(d) {
        Some(e) => Err(e),
        None => Ok(spec_bwry_pixels(d)),
    }
}

/// Reads a little-endian 16-bit field.
fn read_le16(data: &Vec<u8>, off: usize) -> (v: u32)
    requires
        off + 2 <= data@.len(),
    ensures
        v == spec_le16(data@[off as int], data@[off + 1]),
{
    let n = data.len();
    data[off] as u32 + 0x100 * (data[off + 1] as u32)
}

/// Reads a little-endian 32-bit field.
fn read_le32(data: &Vec<u8>, off: usize) -> (v: u64)
    requires
        off + 4 <= data@.len(),
    ensures
        v == spec_le32(data@[off as int], data@[off + 1], data@[off + 2], data@[off + 3]),
{
    let n = data.len();
    data[off] as u64 + 0x100 * (data[off + 1] as u64) + 0x1_0000 * (data[off + 2] as u64)
        + 0x100_0000 * (data[off + 3] as u64)
}

/// Distinct (row, byte) positions map to distinct indices in a `w`-bytes-per-
/// row layout.
proof fn lemma_row_index_inj(w: int, r1: int, b1: int, r2: int, b2: int)
    by (nonlinear_arith)
    requires
        0 < w,
        0 <= b1 < w,
        0 <= b2 < w,
        r1 != r2,
    ensures
        r1 * w + b1 != r2 * w + b2,
{
}

/// Validates the headers of an 8-bit indexed bitmap against the display's
/// fixed dimensions. On success returns whether the rows are stored
/// bottom-up.
fn check_bmp_headers(data: &Vec<u8>) -> (r: Result<bool, ImageError>)
    ensures
        r matches Ok(bottom_up) ==> spec_bmp_header_error(data@) is None && bottom_up
            == spec_bmp_bottom_up(data@),
        r matches Err(e) ==> spec_bmp_header_error(data@) == Some(e),
{
    if data.len() < BMP_FILE_HEADER_SIZE {
        return Err(ImageError::ReadFailed);
    }
    if data[0] != 0x42 || data[1] != 0x4D {
        return Err(ImageError::InvalidFormat);
    }
    if data.len() < BMP_FILE_HEADER_SIZE + BMP_INFO_HEADER_SIZE {
        return Err(ImageError::ReadFailed);
    }
    let width = read_le32(data, 18);
    let height_raw = read_le32(data, 22);
    let bpp = read_le16(data, 28);
    let width_ok = width == DISPLAY_WIDTH as u64;
    let bottom_up = height_raw == DISPLAY_HEIGHT as u64;
    let top_down = height_raw == 0x1_0000_0000 - DISPLAY_HEIGHT as u64;
    if !(width_ok && (bottom_up || top_down)) {
        return Err(ImageError::InvalidSize);
    }
    if bpp != 8 {
        return Err(ImageError::InvalidFormat);
    }
    if data.len() < BMP_MIN_SIZE {
        return Err(ImageError::ReadFailed);
    }
    Ok(bottom_up)
}

/// Decodes an 8-bit indexed bitmap into the packed BWRY 4-color plane.
///
/// The 256-entry palette is first mapped once to a 256-entry lookup table of
/// color codes, bounding the per-pixel cost to a table lookup; the pixel rows
/// are then packed four pixels per byte, most significant pair first,
/// mirrored vertically when the rows are stored bottom-up.
pub fn load_bmp_bwry(data: &Vec<u8>) -> (r: Result<Image<Bwry>, ImageError>)
    ensures
        r matches Ok(img) ==> img.wf() && spec_load_bmp_bwry(data@)
            == Ok::<Seq<u8>, ImageError>(img@),
        r matches Err(e) ==> spec_load_bmp_bwry(data@) == Err::<Seq<u8>, ImageError>(e),
{
    let bottom_up = match check_bmp_headers(data) {
        Ok(b) => b,
        Err(e) => {
            return Err(e);
        },
    };

    // Map each palette entry (stored B, G, R, A) to its color code once.
    let mut color_map: Vec<u8> = Vec::new();
    let mut i: usize = 0;
    while i < 256
        invariant
            i <= 256,
            spec_bmp_header_error(data@) is None,
            data@.len() >= BMP_MIN_SIZE,
            color_map@.len() == i,
            forall|j: int|
                0 <= j < i ==> color_map@[j] == spec_bwry_code_of_palette(data@, j)
                    && color_map@[j] < 4,
        decreases 256 - i,
    {
        let b = data[54 + 4 * i];
        let g = data[54 + 4 * i + 1];
        let r = data[54 + 4 * i + 2];
        color_map.push(map_to_bwry_color(r, g, b));
        i = i + 1;
    }

    // Fill the packed plane with zeros, then pack row by row.
    let mut buf: Vec<u8> = Vec::new();
    let mut i: usize = 0;
    while i < IMAGE_DATA_SIZE
        invariant
            i <= IMAGE_DATA_SIZE,
            buf@.len() == i,
        decreases IMAGE_DATA_SIZE - i,
    {
        buf.push(0);
        i = i + 1;
    }

    let ghost bu = spec_bmp_bottom_up(data@);
    let mut row: usize = 0;
    while row < DISPLAY_HEIGHT
        invariant
            row <= DISPLAY_HEIGHT,
            spec_bmp_header_error(data@) is None,
            data@.len() >= BMP_MIN_SIZE,
            bottom_up == bu,
            bu == spec_bmp_bottom_up(data@),
            color_map@.len() == 256,
            forall|j: int|
                0 <= j < 256 ==> color_map@[j] == spec_bwry_code_of_palette(data@, j)
                    && color_map@[j] < 4,
            buf@.len() == IMAGE_DATA_SIZE,
            forall|i2: int, xb2: int|
                0 <= i2 < row && 0 <= xb2 < BWRY_BYTES_PER_ROW ==> buf@[spec_bmp_src_row(i2, bu)
                    * BWRY_BYTES_PER_ROW + xb2] == spec_bwry_packed_byte(
                    data@,
                    spec_bmp_src_row(i2, bu),
                    xb2,
                ),
        decreases DISPLAY_HEIGHT - row,
    {
        // The stored row `row` lands on output row `out_row`; mirroring is an
        // involution, so `spec_bmp_src_row(out_row, bu) == row`.
        let out_row = if bottom_up {
            DISPLAY_HEIGHT - 1 - row
        } else {
            row
        };
        assert(out_row == spec_bmp_src_row(row as int, bu));
        assert(spec_bmp_src_row(out_row as int, bu) == row);
        let mut xb: usize = 0;
        while xb < BWRY_BYTES_PER_ROW
            invariant
                xb <= BWRY_BYTES_PER_ROW,
                row < DISPLAY_HEIGHT,
                out_row < DISPLAY_HEIGHT,
                out_row == spec_bmp_src_row(row as int, bu),
                spec_bmp_src_row(out_row as int, bu) == row,
                spec_bmp_header_error(data@) is None,
                data@.len() >= BMP_MIN_SIZE,
                bu == spec_bmp_bottom_up(data@),
                color_map@.len() == 256,
                forall|j: int|
                    0 <= j < 256 ==> color_map@[j] == spec_bwry_code_of_palette(data@, j)
                        && color_map@[j] < 4,
                buf@.len() == IMAGE_DATA_SIZE,
                forall|i2: int, xb2: int|
                    0 <= i2 < row && 0 <= xb2 < BWRY_BYTES_PER_ROW ==> buf@[spec_bmp_src_row(
                        i2,
                        bu,
                    ) * BWRY_BYTES_PER_ROW + xb2] == spec_bwry_packed_byte(
                        data@,
                        spec_bmp_src_row(i2, bu),
                        xb2,
                    ),
                forall|xb2: int|
                    0 <= xb2 < xb ==> buf@[out_row * BWRY_BYTES_PER_ROW + xb2]
                        == spec_bwry_packed_byte(data@, out_row as int, xb2),
            decreases BWRY_BYTES_PER_ROW - xb,
        {
            let base = BMP_PIXEL_OFFSET + row * BMP_ROW_SIZE + xb * 4;
            proof {
                assert(row * BMP_ROW_SIZE + xb * 4 + 4 <= DISPLAY_HEIGHT * BMP_ROW_SIZE)
                    by (nonlinear_arith)
                    requires
                        row < DISPLAY_HEIGHT,
                        xb < BWRY_BYTES_PER_ROW,
                        BMP_ROW_SIZE == 200,
                        BWRY_BYTES_PER_ROW == 50,
                        DISPLAY_HEIGHT == 200,
                ;
            }
            let p0 = data[base] as usize;
            let p1 = data[base + 1] as usize;
            let p2 = data[base + 2] as usize;
            let p3 = data[base + 3] as usize;
            let c0 = color_map[p0];
            let c1 = color_map[p1];
            let c2 = color_map[p2];
            let c3 = color_map[p3];
            let byte_val = c0 * 64 + c1 * 16 + c2 * 4 + c3;
            proof {
                let d = data@;
                let orow = out_row as int;
                assert(spec_bmp_palette_index(d, 4 * (xb as int), orow) == d[base as int]);
                assert(spec_bmp_palette_index(d, 4 * (xb as int) + 1, orow) == d[base + 1]);
                assert(spec_bmp_palette_index(d, 4 * (xb as int) + 2, orow) == d[base + 2]);
                assert(spec_bmp_palette_index(d, 4 * (xb as int) + 3, orow) == d[base + 3]);
                assert(byte_val == spec_bwry_packed_byte(d, orow, xb as int));
                assert(out_row * BWRY_BYTES_PER_ROW + xb < IMAGE_DATA_SIZE) by (nonlinear_arith)
                    requires
                        out_row < DISPLAY_HEIGHT,
                        xb < BWRY_BYTES_PER_ROW,
                        BWRY_BYTES_PER_ROW == 50,
                        DISPLAY_HEIGHT == 200,
                        IMAGE_DATA_SIZE == 10000,
                ;
            }
            let ghost buf_prev = buf@;
            buf.set(out_row * BWRY_BYTES_PER_ROW + xb, byte_val);
            proof {
                assert forall|i2: int, xb2: int|
                    0 <= i2 < row && 0 <= xb2 < BWRY_BYTES_PER_ROW implies buf@[spec_bmp_src_row(
                        i2,
                        bu,
                    ) * BWRY_BYTES_PER_ROW + xb2] == spec_bwry_packed_byte(
                        data@,
                        spec_bmp_src_row(i2, bu),
                        xb2,
                    ) by {
                    let or2 = spec_bmp_src_row(i2, bu);
                    assert(or2 != out_row);
                    lemma_row_index_inj(
                        BWRY_BYTES_PER_ROW as int,
                        or2,
                        xb2,
                        out_row as int,
                        xb as int,
                    );
                    assert(buf@[or2 * BWRY_BYTES_PER_ROW + xb2] == buf_prev[or2
                        * BWRY_BYTES_PER_ROW + xb2]);
                }
                assert forall|xb2: int|
                    0 <= xb2 < xb + 1 implies buf@[out_row * BWRY_BYTES_PER_ROW + xb2]
                        == spec_bwry_packed_byte(data@, out_row as int, xb2) by {
                    if xb2 < xb {
                        assert(buf@[out_row * BWRY_BYTES_PER_ROW + xb2] == buf_prev[out_row
                            * BWRY_BYTES_PER_ROW + xb2]);
                    }
                }
            }
            xb = xb + 1;
        }
        row = row + 1;
    }

    // Every output row was written exactly once: output row `j / 50` of the
    // final buffer came from stored row `spec_bmp_src_row(j / 50, bu)`.
    proof {
        assert forall|j: int| 0 <= j < IMAGE_DATA_SIZE implies buf@[j] == spec_bwry_packed_byte(
            data@,
            j / BWRY_BYTES_PER_ROW as int,
            j % BWRY_BYTES_PER_ROW as int,
        ) by {
            let orow = j / BWRY_BYTES_PER_ROW as int;
            let xb2 = j % BWRY_BYTES_PER_ROW as int;
            let i2 = spec_bmp_src_row(orow, bu);
            assert(0 <= i2 < DISPLAY_HEIGHT);
            assert(spec_bmp_src_row(i2, bu) == orow);
            assert(orow * BWRY_BYTES_PER_ROW + xb2 == j);
        }
        assert(buf@ =~= spec_bwry_pixels(data@));
    }

    match Image::<Bwry>::from_vec(buf) {
        Some(img) => Ok(img),
        None => Err(ImageError::ReadFailed),
    }
}

/// Bytes per row of one plane in the 3-color packed layout: 8 pixels per
/// byte, 1 bit each, most significant bit first.
pub const BWR_BYTES_PER_ROW: usize = DISPLAY_WIDTH / 8;

/// 1 for a set bit, 0 for a clear one.
pub open spec fn spec_bit(b: bool) -> int {
    if b {
        1
    } else {
        0
    }
}

/// Whether palette entry `idx` quantizes to white in the 3-color space.
#[verifier::opaque]
pub open spec fn spec_bwr_white_of_palette(d: Seq<u8>, idx: int) -> bool {
    spec_bwr_flags(d[54 + 4 * idx + 2], d[54 + 4 * idx + 1], d[54 + 4 * idx]).0
}

/// Whether palette entry `idx` quantizes to red in the 3-color space.
#[verifier::opaque]
pub open spec fn spec_bwr_red_of_palette(d: Seq<u8>, idx: int) -> bool {
    spec_bwr_flags(d[54 + 4 * idx + 2], d[54 + 4 * idx + 1], d[54 + 4 * idx]).1
}

/// The monochrome-plane bit of the pixel at column `x` of output row
/// `out_row`: set for white.
pub open spec fn spec_bw_bit(d: Seq<u8>, x: int, out_row: int) -> bool {
    spec_bwr_white_of_palette(d, spec_bmp_palette_index(d, x, out_row) as int)
}

/// The red-plane bit of the pixel at column `x` of output row `out_row`.
pub open spec fn spec_red_bit(d: Seq<u8>, x: int, out_row: int) -> bool {
    spec_bwr_red_of_palette(d, spec_bmp_palette_index(d, x, out_row) as int)
}

/// Monochrome-plane byte `xb` of output row `out_row`: eight pixels packed
/// one bit each, most significant bit first.
pub open spec fn spec_bw_byte(d: Seq<u8>, out_row: int, xb: int) -> u8 {
    (spec_bit(spec_bw_bit(d, 8 * xb, out_row)) * 128
        + spec_bit(spec_bw_bit(d, 8 * xb + 1, out_row)) * 64
        + spec_bit(spec_bw_bit(d, 8 * xb + 2, out_row)) * 32
        + spec_bit(spec_bw_bit(d, 8 * xb + 3, out_row)) * 16
        + spec_bit(spec_bw_bit(d, 8 * xb + 4, out_row)) * 8
        + spec_bit(spec_bw_bit(d, 8 * xb + 5, out_row)) * 4
        + spec_bit(spec_bw_bit(d, 8 * xb + 6, out_row)) * 2
        + spec_bit(spec_bw_bit(d, 8 * xb + 7, out_row))) as u8
}

/// Red-plane byte `xb` of output row `out_row`.
pub open spec fn spec_red_byte(d: Seq<u8>, out_row: int, xb: int) -> u8 {
    (spec_bit(spec_red_bit(d, 8 * xb, out_row)) * 128
        + spec_bit(spec_red_bit(d, 8 * xb + 1, out_row)) * 64
        + spec_bit(spec_red_bit(d, 8 * xb + 2, out_row)) * 32
        + spec_bit(spec_red_bit(d, 8 * xb + 3, out_row)) * 16
        + spec_bit(spec_red_bit(d, 8 * xb + 4, out_row)) * 8
        + spec_bit(spec_red_bit(d, 8 * xb + 5, out_row)) * 4
        + spec_bit(spec_red_bit(d, 8 * xb + 6, out_row)) * 2
        + spec_bit(spec_red_bit(d, 8 * xb + 7, out_row))) as u8
}

/// The packed dual-buffer layout of a well-formed bitmap: the monochrome
/// plane in the first `PLANE_SIZE` bytes, the red plane in the second.
pub open spec fn spec_bwr_planes(d: Seq<u8>) -> Seq<u8> {
    Seq::new(
        IMAGE_DATA_SIZE as nat,
        |i: int|
            if i < PLANE_SIZE {
                spec_bw_byte(d, i / BWR_BYTES_PER_ROW as int, i % BWR_BYTES_PER_ROW as int)
            } else {
                spec_red_byte(
                    d,
                    (i - PLANE_SIZE) / BWR_BYTES_PER_ROW as int,
                    (i - PLANE_SIZE) % BWR_BYTES_PER_ROW as int,
                )
            },
    )
}

/// What decoding a bitmap to the 3-color dual-buffer format yields for any
/// input.
pub open spec fn spec_load_bmp_bwr(d: Seq<u8>) -> Result<Seq<u8>, ImageError> {
    match spec_bmp_header_error(d) {
        Some(e) => Err(e),
        None => Ok(spec_bwr_planes(d)),
    }
}

/// Packs eight plane bits into one byte, most significant bit first.
fn pack_bits(b0: bool, b1: bool, b2: bool, b3: bool, b4: bool, b5: bool, b6: bool, b7: bool) -> (v:
    u8)
    ensures
        v == (spec_bit(b0) * 128 + spec_bit(b1) * 64 + spec_bit(b2) * 32 + spec_bit(b3) * 16
            + spec_bit(b4) * 8 + spec_bit(b5) * 4 + spec_bit(b6) * 2 + spec_bit(b7)) as u8,
{
    (if b0 { 128 } else { 0 }) + (if b1 { 64 } else { 0 }) + (if b2 { 32 } else { 0 }) + (if b3 {
        16
    } else {
        0
    }) + (if b4 { 8 } else { 0 }) + (if b5 { 4 } else { 0 }) + (if b6 { 2 } else { 0 }) + (if b7 {
        1
    } else {
        0
    })
}

/// Reads the palette index stored for the pixel at column `x` of output row
/// `out_row`, which came from stored row `row`.
fn palette_index_at(data: &Vec<u8>, row: usize, out_row: usize, x: usize) -> (p: u8)
    requires
        spec_bmp_header_error(data@) is None,
        row < DISPLAY_HEIGHT,
        out_row < DISPLAY_HEIGHT,
        x < DISPLAY_WIDTH,
        spec_bmp_src_row(out_row as int, spec_bmp_bottom_up(data@)) == row,
    ensures
        p == spec_bmp_palette_index(data@, x as int, out_row as int),
{
    proof {
        assert(data@.len() >= BMP_MIN_SIZE);
        assert(row * BMP_ROW_SIZE + x < DISPLAY_HEIGHT * BMP_ROW_SIZE) by (nonlinear_arith)
            requires
                row < DISPLAY_HEIGHT,
                x < DISPLAY_WIDTH,
                BMP_ROW_SIZE == 200,
                DISPLAY_WIDTH == 200,
                DISPLAY_HEIGHT == 200,
        ;
    }
    data[BMP_PIXEL_OFFSET + row * BMP_ROW_SIZE + x]
}

/// Packs the monochrome-plane byte for output byte `xb` of output row
/// `out_row`, looking each of the eight pixels up in the precomputed map.
fn bw_byte_at(data: &Vec<u8>, bw_map: &Vec<bool>, row: usize, out_row: usize, xb: usize) -> (v: u8)
    requires
        spec_bmp_header_error(data@) is None,
        row < DISPLAY_HEIGHT,
        out_row < DISPLAY_HEIGHT,
        xb < BWR_BYTES_PER_ROW,
        spec_bmp_src_row(out_row as int, spec_bmp_bottom_up(data@)) == row,
        bw_map@.len() == 256,
        forall|j: int| 0 <= j < 256 ==> bw_map@[j] == spec_bwr_white_of_palette(data@, j),
    ensures
        v == spec_bw_byte(data@, out_row as int, xb as int),
{
    let ghost d = data@;
    let ghost orow = out_row as int;
    let b0 = bw_map[palette_index_at(data, row, out_row, xb * 8) as usize];
    let b1 = bw_map[palette_index_at(data, row, out_row, xb * 8 + 1) as usize];
    let b2 = bw_map[palette_index_at(data, row, out_row, xb * 8 + 2) as usize];
    let b3 = bw_map[palette_index_at(data, row, out_row, xb * 8 + 3) as usize];
    let b4 = bw_map[palette_index_at(data, row, out_row, xb * 8 + 4) as usize];
    let b5 = bw_map[palette_index_at(data, row, out_row, xb * 8 + 5) as usize];
    let b6 = bw_map[palette_index_at(data, row, out_row, xb * 8 + 6) as usize];
    let b7 = bw_map[palette_index_at(data, row, out_row, xb * 8 + 7) as usize];
    proof {
        assert(b0 == spec_bw_bit(d, 8 * (xb as int), orow));
        assert(b1 == spec_bw_bit(d, 8 * (xb as int) + 1, orow));
        assert(b2 == spec_bw_bit(d, 8 * (xb as int) + 2, orow));
        assert(b3 == spec_bw_bit(d, 8 * (xb as int) + 3, orow));
        assert(b4 == spec_bw_bit(d, 8 * (xb as int) + 4, orow));
        assert(b5 == spec_bw_bit(d, 8 * (xb as int) + 5, orow));
        assert(b6 == spec_bw_bit(d, 8 * (xb as int) + 6, orow));
        assert(b7 == spec_bw_bit(d, 8 * (xb as int) + 7, orow));
    }
    pack_bits(b0, b1, b2, b3, b4, b5, b6, b7)
}

/// Packs the red-plane byte for output byte `xb` of output row `out_row`,
/// looking each of the eight pixels up in the precomputed map.
fn red_byte_at(data: &Vec<u8>, red_map: &Vec<bool>, row: usize, out_row: usize, xb: usize) -> (v:
    u8)
    requires
        spec_bmp_header_error(data@) is None,
        row < DISPLAY_HEIGHT,
        out_row < DISPLAY_HEIGHT,
        xb < BWR_BYTES_PER_ROW,
        spec_bmp_src_row(out_row as int, spec_bmp_bottom_up(data@)) == row,
        red_map@.len() == 256,
        forall|j: int| 0 <= j < 256 ==> red_map@[j] == spec_bwr_red_of_palette(data@, j),
    ensures
        v == spec_red_byte(data@, out_row as int, xb as int),
{
    let ghost d = data@;
    let ghost orow = out_row as int;
    let b0 = red_map[palette_index_at(data, row, out_row, xb * 8) as usize];
    let b1 = red_map[palette_index_at(data, row, out_row, xb * 8 + 1) as usize];
    let b2 = red_map[palette_index_at(data, row, out_row, xb * 8 + 2) as usize];
    let b3 = red_map[palette_index_at(data, row, out_row, xb * 8 + 3) as usize];
    let b4 = red_map[palette_index_at(data, row, out_row, xb * 8 + 4) as usize];
    let b5 = red_map[palette_index_at(data, row, out_row, xb * 8 + 5) as usize];
    let b6 = red_map[palette_index_at(data, row, out_row, xb * 8 + 6) as usize];
    let b7 = red_map[palette_index_at(data, row, out_row, xb * 8 + 7) as usize];
    proof {
        assert(b0 == spec_red_bit(d, 8 * (xb as int), orow));
        assert(b1 == spec_red_bit(d, 8 * (xb as int) + 1, orow));
        assert(b2 == spec_red_bit(d, 8 * (xb as int) + 2, orow));
        assert(b3 == spec_red_bit(d, 8 * (xb as int) + 3, orow));
        assert(b4 == spec_red_bit(d, 8 * (xb as int) + 4, orow));
        assert(b5 == spec_red_bit(d, 8 * (xb as int) + 5, orow));
        assert(b6 == spec_red_bit(d, 8 * (xb as int) + 6, orow));
        assert(b7 == spec_red_bit(d, 8 * (xb as int) + 7, orow));
    }
    pack_bits(b0, b1, b2, b3, b4, b5, b6, b7)
}

/// Decodes an 8-bit indexed bitmap into the packed BWR 3-color dual-buffer
/// layout: a 5,000-byte monochrome plane (white = 1) followed by a
/// 5,000-byte red plane (red = 1), both packed eight pixels per byte, most
/// significant bit first, mirrored vertically when the rows are stored
/// bottom-up.
#[verifier::rlimit(100)]
pub fn load_bmp_bwr(data: &Vec<u8>) -> (r: Result<Image<Bwr>, ImageError>)
    ensures
        r matches Ok(img) ==> img.wf() && spec_load_bmp_bwr(data@)
            == Ok::<Seq<u8>, ImageError>(img@),
        r matches Err(e) ==> spec_load_bmp_bwr(data@) == Err::<Seq<u8>, ImageError>(e),
{
    let bottom_up = match check_bmp_headers(data) {
        Ok(b) => b,
        Err(e) => {
            return Err(e);
        },
    };

    // Map each palette entry (stored B, G, R, A) to its two plane bits once.
    let mut bw_map: Vec<bool> = Vec::new();
    let mut red_map: Vec<bool> = Vec::new();
    let mut i: usize = 0;
    while i < 256
        invariant
            i <= 256,
            spec_bmp_header_error(data@) is None,
            data@.len() >= BMP_MIN_SIZE,
            bw_map@.len() == i,
            red_map@.len() == i,
            forall|j: int| 0 <= j < i ==> bw_map@[j] == spec_bwr_white_of_palette(data@, j),
            forall|j: int| 0 <= j < i ==> red_map@[j] == spec_bwr_red_of_palette(data@, j),
        decreases 256 - i,
    {
        let b = data[54 + 4 * i];
        let g = data[54 + 4 * i + 1];
        let r = data[54 + 4 * i + 2];
        let (is_white, is_red) = map_to_bwr_color(r, g, b);
        proof {
            reveal(spec_bwr_white_of_palette);
            reveal(spec_bwr_red_of_palette);
        }
        bw_map.push(is_white);
        red_map.push(is_red);
        i = i + 1;
    }

    // Fill both planes with zeros, then pack row by row.
    let mut buf: Vec<u8> = Vec::new();
    let mut i: usize = 0;
    while i < IMAGE_DATA_SIZE
        invariant
            i <= IMAGE_DATA_SIZE,
            buf@.len() == i,
        decreases IMAGE_DATA_SIZE - i,
    {
        buf.push(0);
        i = i + 1;
    }

    let ghost bu = spec_bmp_bottom_up(data@);
    let mut row: usize = 0;
    while row < DISPLAY_HEIGHT
        invariant
            row <= DISPLAY_HEIGHT,
            spec_bmp_header_error(data@) is None,
            data@.len() >= BMP_MIN_SIZE,
            bottom_up == bu,
            bu == spec_bmp_bottom_up(data@),
            bw_map@.len() == 256,
            red_map@.len() == 256,
            forall|j: int| 0 <= j < 256 ==> bw_map@[j] == spec_bwr_white_of_palette(data@, j),
            forall|j: int| 0 <= j < 256 ==> red_map@[j] == spec_bwr_red_of_palette(data@, j),
            buf@.len() == IMAGE_DATA_SIZE,
            forall|i2: int, xb2: int|
                0 <= i2 < row && 0 <= xb2 < BWR_BYTES_PER_ROW ==> buf@[spec_bmp_src_row(i2, bu)
                    * BWR_BYTES_PER_ROW + xb2] == spec_bw_byte(
                    data@,
                    spec_bmp_src_row(i2, bu),
                    xb2,
                ),
            forall|i2: int, xb2: int|
                0 <= i2 < row && 0 <= xb2 < BWR_BYTES_PER_ROW ==> buf@[PLANE_SIZE
                    + spec_bmp_src_row(i2, bu) * BWR_BYTES_PER_ROW + xb2] == spec_red_byte(
                    data@,
                    spec_bmp_src_row(i2, bu),
                    xb2,
                ),
        decreases DISPLAY_HEIGHT - row,
    {
        let out_row = if bottom_up {
            DISPLAY_HEIGHT - 1 - row
        } else {
            row
        };
        assert(out_row == spec_bmp_src_row(row as int, bu));
        assert(spec_bmp_src_row(out_row as int, bu) == row);
        let mut xb: usize = 0;
        while xb < BWR_BYTES_PER_ROW
            invariant
                xb <= BWR_BYTES_PER_ROW,
                row < DISPLAY_HEIGHT,
                out_row < DISPLAY_HEIGHT,
                out_row == spec_bmp_src_row(row as int, bu),
                spec_bmp_src_row(out_row as int, bu) == row,
                spec_bmp_header_error(data@) is None,
                data@.len() >= BMP_MIN_SIZE,
                bu == spec_bmp_bottom_up(data@),
                bw_map@.len() == 256,
                red_map@.len() == 256,
                forall|j: int| 0 <= j < 256 ==> bw_map@[j] == spec_bwr_white_of_palette(data@, j),
                forall|j: int| 0 <= j < 256 ==> red_map@[j] == spec_bwr_red_of_palette(data@, j),
                buf@.len() == IMAGE_DATA_SIZE,
                forall|i2: int, xb2: int|
                    0 <= i2 < row && 0 <= xb2 < BWR_BYTES_PER_ROW ==> buf@[spec_bmp_src_row(
                        i2,
                        bu,
                    ) * BWR_BYTES_PER_ROW + xb2] == spec_bw_byte(
                        data@,
                        spec_bmp_src_row(i2, bu),
                        xb2,
                    ),
                forall|i2: int, xb2: int|
                    0 <= i2 < row && 0 <= xb2 < BWR_BYTES_PER_ROW ==> buf@[PLANE_SIZE
                        + spec_bmp_src_row(i2, bu) * BWR_BYTES_PER_ROW + xb2] == spec_red_byte(
                        data@,
                        spec_bmp_src_row(i2, bu),
                        xb2,
                    ),
                forall|xb2: int|
                    0 <= xb2 < xb ==> buf@[out_row * BWR_BYTES_PER_ROW + xb2] == spec_bw_byte(
                        data@,
                        out_row as int,
                        xb2,
                    ),
                forall|xb2: int|
                    0 <= xb2 < xb ==> buf@[PLANE_SIZE + out_row * BWR_BYTES_PER_ROW + xb2]
                        == spec_red_byte(data@, out_row as int, xb2),
            decreases BWR_BYTES_PER_ROW - xb,
        {
            let bw_byte = bw_byte_at(data, &bw_map, row, out_row, xb);
            let red_byte = red_byte_at(data, &red_map, row, out_row, xb);
            proof {
                assert(out_row * BWR_BYTES_PER_ROW + xb < PLANE_SIZE) by (nonlinear_arith)
                    requires
                        out_row < DISPLAY_HEIGHT,
                        xb < BWR_BYTES_PER_ROW,
                        BWR_BYTES_PER_ROW == 25,
                        DISPLAY_HEIGHT == 200,
                        PLANE_SIZE == 5000,
                ;
            }
            let idx_bw = out_row * BWR_BYTES_PER_ROW + xb;
            let idx_red = PLANE_SIZE + out_row * BWR_BYTES_PER_ROW + xb;
            let ghost buf_prev = buf@;
            buf.set(idx_bw, bw_byte);
            let ghost buf_mid = buf@;
            buf.set(idx_red, red_byte);
            proof {
                assert forall|i2: int, xb2: int|
                    0 <= i2 < row && 0 <= xb2 < BWR_BYTES_PER_ROW implies buf@[spec_bmp_src_row(
                        i2,
                        bu,
                    ) * BWR_BYTES_PER_ROW + xb2] == spec_bw_byte(
                        data@,
                        spec_bmp_src_row(i2, bu),
                        xb2,
                    ) by {
                    let or2 = spec_bmp_src_row(i2, bu);
                    assert(or2 != out_row);
                    lemma_row_index_inj(
                        BWR_BYTES_PER_ROW as int,
                        or2,
                        xb2,
                        out_row as int,
                        xb as int,
                    );
                    let k = or2 * BWR_BYTES_PER_ROW + xb2;
                    assert(k < PLANE_SIZE) by (nonlinear_arith)
                        requires
                            k == or2 * 25 + xb2,
                            0 <= or2 < 200,
                            0 <= xb2 < 25,
                            PLANE_SIZE == 5000,
                    ;
                    assert(k != idx_red);
                    assert(k != idx_bw);
                    assert(buf@[k] == buf_mid[k] && buf_mid[k] == buf_prev[k]);
                }
                assert forall|i2: int, xb2: int|
                    0 <= i2 < row && 0 <= xb2 < BWR_BYTES_PER_ROW implies buf@[PLANE_SIZE
                        + spec_bmp_src_row(i2, bu) * BWR_BYTES_PER_ROW + xb2] == spec_red_byte(
                        data@,
                        spec_bmp_src_row(i2, bu),
                        xb2,
                    ) by {
                    let or2 = spec_bmp_src_row(i2, bu);
                    assert(or2 != out_row);
                    lemma_row_index_inj(
                        BWR_BYTES_PER_ROW as int,
                        or2,
                        xb2,
                        out_row as int,
                        xb as int,
                    );
                    let k = PLANE_SIZE + or2 * BWR_BYTES_PER_ROW + xb2;
                    assert(0 <= or2 * BWR_BYTES_PER_ROW + xb2 < PLANE_SIZE) by (nonlinear_arith)
                        requires
                            0 <= or2 < 200,
                            0 <= xb2 < 25,
                            BWR_BYTES_PER_ROW == 25,
                            PLANE_SIZE == 5000,
                    ;
                    assert(k != idx_red);
                    assert(k != idx_bw);
                    assert(buf@[k] == buf_mid[k] && buf_mid[k] == buf_prev[k]);
                }
                assert forall|xb2: int|
                    0 <= xb2 < xb + 1 implies buf@[out_row * BWR_BYTES_PER_ROW + xb2]
                        == spec_bw_byte(data@, out_row as int, xb2) by {
                    let k = out_row * BWR_BYTES_PER_ROW + xb2;
                    assert(k < PLANE_SIZE) by (nonlinear_arith)
                        requires
                            k == out_row * 25 + xb2,
                            0 <= out_row < 200,
                            0 <= xb2 < 25,
                            PLANE_SIZE == 5000,
                    ;
                    assert(k != idx_red);
                    if xb2 < xb {
                        assert(k != idx_bw);
                        assert(buf@[k] == buf_mid[k] && buf_mid[k] == buf_prev[k]);
                    } else {
                        assert(k == idx_bw);
                        assert(buf@[k] == buf_mid[k] && buf_mid[k] == bw_byte);
                    }
                }
                assert forall|xb2: int|
                    0 <= xb2 < xb + 1 implies buf@[PLANE_SIZE + out_row * BWR_BYTES_PER_ROW + xb2]
                        == spec_red_byte(data@, out_row as int, xb2) by {
                    let k = PLANE_SIZE + out_row * BWR_BYTES_PER_ROW + xb2;
                    assert(0 <= out_row * BWR_BYTES_PER_ROW + xb2 < PLANE_SIZE) by (nonlinear_arith)
                        requires
                            0 <= out_row < 200,
                            0 <= xb2 < 25,
                            BWR_BYTES_PER_ROW == 25,
                            PLANE_SIZE == 5000,
                    ;
                    if xb2 < xb {
                        assert(k != idx_red);
                        assert(k != idx_bw);
                        assert(buf@[k] == buf_mid[k] && buf_mid[k] == buf_prev[k]);
                    } else {
                        assert(k == idx_red);
                        assert(buf@[k] == red_byte);
                    }
                }
            }
            xb = xb + 1;
        }
        row = row + 1;
    }

    proof {
        assert forall|j: int| 0 <= j < IMAGE_DATA_SIZE implies buf@[j] == spec_bwr_planes(data@)[j]
            by {
            if j < PLANE_SIZE {
                let orow = j / BWR_BYTES_PER_ROW as int;
                let xb2 = j % BWR_BYTES_PER_ROW as int;
                let i2 = spec_bmp_src_row(orow, bu);
                assert(0 <= i2 < DISPLAY_HEIGHT);
                assert(spec_bmp_src_row(i2, bu) == orow);
                assert(orow * BWR_BYTES_PER_ROW + xb2 == j);
            } else {
                let k = j - PLANE_SIZE;
                let orow = k / BWR_BYTES_PER_ROW as int;
                let xb2 = k % BWR_BYTES_PER_ROW as int;
                let i2 = spec_bmp_src_row(orow, bu);
                assert(0 <= i2 < DISPLAY_HEIGHT);
                assert(spec_bmp_src_row(i2, bu) == orow);
                assert(PLANE_SIZE + orow * BWR_BYTES_PER_ROW + xb2 == j);
            }
        }
        assert(buf@ =~= spec_bwr_planes(data@));
    }

    match Image::<Bwr>::from_vec(buf) {
        Some(img) => Ok(img),
        None => Err(ImageError::ReadFailed),
    }
}

/// Decodes a bitmap with runtime format selection.
pub fn load_bmp(data: &Vec<u8>, format: ImageFormat) -> (r: Result<AnyImage, ImageError>)
    ensures
        format == ImageFormat::Bwry ==> (match r {
            Ok(a) => a matches AnyImage::Bwry(img) && img.wf() && spec_load_bmp_bwry(data@)
                == Ok::<Seq<u8>, ImageError>(img@),
            Err(e) => spec_load_bmp_bwry(data@) == Err::<Seq<u8>, ImageError>(e),
        }),
        format == ImageFormat::Bwr ==> (match r {
            Ok(a) => a matches AnyImage::Bwr(img) && img.wf() && spec_load_bmp_bwr(data@)
                == Ok::<Seq<u8>, ImageError>(img@),
            Err(e) => spec_load_bmp_bwr(data@) == Err::<Seq<u8>, ImageError>(e),
        }),
{
    match format {
        ImageFormat::Bwry => {
            match load_bmp_bwry(data) {
                Ok(img) => Ok(AnyImage::Bwry(img)),
                Err(e) => Err(e),
            }
        },
        ImageFormat::Bwr => {
            match load_bmp_bwr(data) {
                Ok(img) => Ok(AnyImage::Bwr(img)),
                Err(e) => Err(e),
            }
        },
    }
}

// ---------------------------------------------------------------------------
// Compact and raw pre-packed formats
// ---------------------------------------------------------------------------

/// Size of the compact format's header: the 4-byte magic tag, a
/// little-endian 16-bit width and a little-endian 16-bit height.
pub const COMPACT_HEADER_SIZE: usize = 8;

/// The compact format's fixed 4-byte magic tag.
pub open spec fn spec_compact_magic() -> Seq<u8> {
    seq![0x45u8, 0x49, 0x4E, 0x4B]
}

/// What decoding a compact pre-packed input yields for any input: the magic
/// tag and the dimension fields are validated against the display, and the
/// plane data after the header is taken verbatim, with no per-pixel work. On
/// a dimension mismatch nothing past the 8-byte header is looked at.
pub open spec fn spec_decode_compact(d: Seq<u8>) -> Result<Seq<u8>, ImageError> {
    if d.len() < COMPACT_HEADER_SIZE {
        Err(ImageError::ReadFailed)
    } else if d.subrange(0, 4) != spec_compact_magic() {
        Err(ImageError::InvalidFormat)
    } else if !(spec_le16(d[4], d[5]) == DISPLAY_WIDTH && spec_le16(d[6], d[7])
        == DISPLAY_HEIGHT) {
        Err(ImageError::InvalidSize)
    } else if d.len() < COMPACT_HEADER_SIZE + IMAGE_DATA_SIZE {
        Err(ImageError::ReadFailed)
    } else {
        Ok(d.subrange(COMPACT_HEADER_SIZE as int, COMPACT_HEADER_SIZE + IMAGE_DATA_SIZE as int))
    }
}

/// Copies `count` bytes of `src` starting at `from`.
fn copy_bytes(src: &Vec<u8>, from: usize, count: usize) -> (v: Vec<u8>)
    requires
        from + count <= src@.len(),
    ensures
        v@ == src@.subrange(from as int, from + count as int),
{
    let n = src.len();
    let mut v: Vec<u8> = Vec::new();
    let mut i: usize = 0;
    while i < count
        invariant
            i <= count,
            from + count <= n,
            n == src@.len(),
            v@ == src@.subrange(from as int, from + i as int),
        decreases count - i,
    {
        v.push(src[from + i]);
        proof {
            assert(v@ =~= src@.subrange(from as int, from + i + 1 as int));
        }
        i = i + 1;
    }
    v
}

/// Decodes the compact pre-packed binary format: a 4-byte magic tag, the
/// display's dimensions as little-endian 16-bit fields, then the packed
/// plane data verbatim.
pub fn decode_compact<F: ImageFormatMarker>(data: &Vec<u8>) -> (r: Result<Image<F>, ImageError>)
    ensures
        r matches Ok(img) ==> img.wf() && spec_decode_compact(data@)
            == Ok::<Seq<u8>, ImageError>(img@),
        r matches Err(e) ==> spec_decode_compact(data@) == Err::<Seq<u8>, ImageError>(e),
{
    if data.len() < COMPACT_HEADER_SIZE {
        return Err(ImageError::ReadFailed);
    }
    if !(data[0] == 0x45 && data[1] == 0x49 && data[2] == 0x4E && data[3] == 0x4B) {
        proof {
            assert(data@.subrange(0, 4) != spec_compact_magic());
        }
        return Err(ImageError::InvalidFormat);
    }
    proof {
        assert(data@.subrange(0, 4) =~= spec_compact_magic());
    }
    let width = read_le16(data, 4);
    let height = read_le16(data, 6);
    if !(width == DISPLAY_WIDTH as u32 && height == DISPLAY_HEIGHT as u32) {
        return Err(ImageError::InvalidSize);
    }
    if data.len() < COMPACT_HEADER_SIZE + IMAGE_DATA_SIZE {
        return Err(ImageError::ReadFailed);
    }
    let buf = copy_bytes(data, COMPACT_HEADER_SIZE, IMAGE_DATA_SIZE);
    match Image::<F>::from_vec(buf) {
        Some(img) => Ok(img),
        None => Err(ImageError::ReadFailed),
    }
}

/// What loading a raw pre-packed input yields: the input must be exactly the
/// packed buffer size, and is taken verbatim.
pub open spec fn spec_load_raw(d: Seq<u8>) -> Result<Seq<u8>, ImageError> {
    if d.len() == IMAGE_DATA_SIZE {
        Ok(d)
    } else {
        Err(ImageError::InvalidSize)
    }
}

/// Loads the raw pre-packed binary format: no header, the input must be
/// exactly the packed buffer size.
pub fn load_raw<F: ImageFormatMarker>(data: &Vec<u8>) -> (r: Result<Image<F>, ImageError>)
    ensures
        r matches Ok(img) ==> img.wf() && spec_load_raw(data@) == Ok::<Seq<u8>, ImageError>(img@),
        r matches Err(e) ==> spec_load_raw(data@) == Err::<Seq<u8>, ImageError>(e),
{
    if data.len() != IMAGE_DATA_SIZE {
        return Err(ImageError::InvalidSize);
    }
    let buf = copy_bytes(data, 0, IMAGE_DATA_SIZE);
    proof {
        assert(data@.subrange(0, IMAGE_DATA_SIZE as int) =~= data@);
    }
    match Image::<F>::from_vec(buf) {
        Some(img) => Ok(img),
        None => Err(ImageError::ReadFailed),
    }
}

/// Decoding is deterministic: the same input always yields the same packed
/// image (or the same error), for every decoder of the codec.
pub proof fn lemma_decode_deterministic(d1: Seq<u8>, d2: Seq<u8>)
    requires
        d1 == d2,
    ensures
        spec_load_bmp_bwry(d1) == spec_load_bmp_bwry(d2),
        spec_load_bmp_bwr(d1) == spec_load_bmp_bwr(d2),
        spec_decode_compact(d1) == spec_decode_compact(d2),
        spec_load_raw(d1) == spec_load_raw(d2),
{
}

} // verus!
