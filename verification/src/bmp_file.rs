//! Bitmap files: the header, the rows, and how pictures are written and read back.
use vstd::arithmetic::div_mod::{lemma_div_denominator, lemma_fundamental_div_mod};
use vstd::prelude::*;
use crate::adapter::{plain_error, AdapterError, AdapterErrorView};
use crate::bitmap::BmpImage;
use crate::run::{FailureKind, RunErrorKind};

verus! {

/// The number that two bytes stand for, the least byte first.
pub open spec fn le16(bytes: Seq<u8>, at: int) -> int {
    bytes[at] + bytes[at + 1] * 0x100
}

/// The number that four bytes stand for, the least byte first.
pub open spec fn le32(bytes: Seq<u8>, at: int) -> int {
    bytes[at] + bytes[at + 1] * 0x100 + bytes[at + 2] * 0x1_0000 + bytes[at + 3] * 0x100_0000
}

/// A number of 32 bits taken as a signed one.
pub open spec fn signed32(n: int) -> int {
    if n >= 0x8000_0000 {
        n - 0x1_0000_0000
    } else {
        n
    }
}

pub open spec fn truncated_header() -> AdapterErrorView {
    plain_error(RunErrorKind::Adapter, "image target BMP header is truncated"@)
}

pub fn read_u16_le(bytes: &Vec<u8>, offset: usize) -> (r: Result<u16, AdapterError>)
    ensures
        match r {
            Ok(n) => offset + 2 <= bytes@.len() && n == le16(bytes@, offset as int),
            Err(e) => offset + 2 > bytes@.len() && e@ == truncated_header(),
        },
{
    if bytes.len() < 2 || offset > bytes.len() - 2 {
        return Err(AdapterError::new("image target BMP header is truncated".to_owned()));
    }
    Ok(bytes[offset] as u16 + bytes[offset + 1] as u16 * 0x100)
}

pub fn read_u32_le(bytes: &Vec<u8>, offset: usize) -> (r: Result<u32, AdapterError>)
    ensures
        match r {
            Ok(n) => offset + 4 <= bytes@.len() && n == le32(bytes@, offset as int),
            Err(e) => offset + 4 > bytes@.len() && e@ == truncated_header(),
        },
{
    if bytes.len() < 4 || offset > bytes.len() - 4 {
        return Err(AdapterError::new("image target BMP header is truncated".to_owned()));
    }
    Ok(
        bytes[offset] as u32 + bytes[offset + 1] as u32 * 0x100 + bytes[offset + 2] as u32
            * 0x1_0000 + bytes[offset + 3] as u32 * 0x100_0000,
    )
}

pub fn read_i32_le(bytes: &Vec<u8>, offset: usize) -> (r: Result<i32, AdapterError>)
    ensures
        match r {
            Ok(n) => offset + 4 <= bytes@.len() && n == signed32(le32(bytes@, offset as int)),
            Err(e) => offset + 4 > bytes@.len() && e@ == truncated_header(),
        },
{
    match read_u32_le(bytes, offset) {
        Ok(n) => if n >= 0x8000_0000 {
            Ok((n as i64 - 0x1_0000_0000) as i32)
        } else {
            Ok(n as i32)
        },
        Err(e) => Err(e),
    }
}

/// What a bitmap file says of itself.
pub struct Header {
    pub offset: int,
    pub header_size: int,
    pub width: int,
    pub raw_height: int,
    pub planes: int,
    pub bits: int,
    pub compression: int,
}

pub open spec fn header_of(bytes: Seq<u8>) -> Header {
    Header {
        offset: le32(bytes, 10),
        header_size: le32(bytes, 14),
        width: signed32(le32(bytes, 18)),
        raw_height: signed32(le32(bytes, 22)),
        planes: le16(bytes, 26),
        bits: le16(bytes, 28),
        compression: le32(bytes, 30),
    }
}

/// The number of bytes of a row in the file: rows are padded to whole groups of four bytes.
pub open spec fn stride(h: Header) -> int {
    ((h.bits * h.width + 31) / 32) * 4
}

/// The height; a negative one in the file says that the rows run from top to bottom.
pub open spec fn rows(h: Header) -> int {
    if h.raw_height < 0 {
        -h.raw_height
    } else {
        h.raw_height
    }
}

/// The formats that a reader accepts.
#[derive(Debug, Clone, Copy, PartialEq, Eq, Structural)]
pub enum BmpDepth {
    /// Four bytes for every pixel.
    Only32,
    /// Three or four bytes for every pixel.
    Also24,
}

pub open spec fn accepted(depth: BmpDepth, bits: int) -> bool {
    bits == 32 || (depth == BmpDepth::Also24 && bits == 24)
}

pub open spec fn wrong_format(depth: BmpDepth) -> Seq<char> {
    match depth {
        BmpDepth::Only32 => "image target must be an uncompressed 32bpp BMP"@,
        BmpDepth::Also24 => "image target must be an uncompressed 24bpp or 32bpp BMP"@,
    }
}

/// Why a file is not read, if it is not.
pub open spec fn bmp_problem(bytes: Seq<u8>, depth: BmpDepth) -> Option<Seq<char>> {
    let h = header_of(bytes);
    if bytes.len() < 54 || bytes[0] != 0x42 || bytes[1] != 0x4D {
        Some(wrong_format(depth))
    } else if h.header_size < 40 || bytes.len() < h.offset {
        Some("image target BMP header is invalid"@)
    } else if h.width <= 0 || h.raw_height == 0 || h.planes != 1 || !accepted(depth, h.bits)
        || h.compression != 0 {
        Some(wrong_format(depth))
    } else if h.raw_height == i32::MIN {
        Some("image target BMP dimensions overflowed"@)
    } else if bytes.len() < h.offset + stride(h) * rows(h) {
        Some("image target BMP pixel data is truncated"@)
    } else {
        None
    }
}

/// The row of the file in which a row of the picture stands.
pub open spec fn file_row(h: Header, y: int) -> int {
    if h.raw_height < 0 {
        y
    } else {
        rows(h) - 1 - y
    }
}

/// Where in the file a pixel begins.
pub open spec fn pixel_start(h: Header, x: int, y: int) -> int {
    h.offset + file_row(h, y) * stride(h) + x * (h.bits / 8)
}

/// The `k`-th byte of a pixel; a pixel of three bytes is opaque.
pub open spec fn file_byte(bytes: Seq<u8>, x: int, y: int, k: int) -> u8 {
    let h = header_of(bytes);
    if k == 3 && h.bits == 24 {
        255
    } else {
        bytes[pixel_start(h, x, y) + k]
    }
}

proof fn pixel_in_file(h: Header, len: int, x: int, y: int)
    requires
        h.bits == 24 || h.bits == 32,
        0 < h.width,
        0 <= x < h.width,
        0 <= y < rows(h),
        0 <= h.offset,
        h.offset + stride(h) * rows(h) <= len,
    ensures
        0 <= h.offset <= pixel_start(h, x, y),
        0 <= file_row(h, y) * stride(h),
        0 <= file_row(h, y) < rows(h),
        pixel_start(h, x, y) + h.bits / 8 <= len,
        h.width * (h.bits / 8) <= stride(h),
{
    let s = stride(h);
    let r = file_row(h, y);
    let n = rows(h);
    assert(h.width * (h.bits / 8) <= s) by {
        if h.bits == 24 {
            assert(h.width * 24 == 24 * h.width);
            assert(((24 * h.width + 31) / 32) * 4 >= 3 * h.width);
        } else {
            assert(((32 * h.width + 31) / 32) == h.width);
        }
    }
    assert(0 <= r < n);
    assert((r + 1) * s <= n * s && r * s + s == (r + 1) * s && 0 <= r * s) by (nonlinear_arith)
        requires
            0 <= r < n,
            0 <= s,
    ;
    assert(n * s == s * n) by (nonlinear_arith);
    if h.bits == 24 {
        assert(x * 3 + 3 <= s);
    } else {
        assert(x * 4 + 4 <= s);
    }
}

/// A pixel of a picture stands where the order of rows and pixels puts it.
proof fn pixel_order(y: int, x: int, other_y: int, other_x: int, w: int)
    requires
        0 <= x < w,
        0 <= other_x < w,
        0 <= other_y,
        0 <= y,
        y < other_y || (y == other_y && x < other_x),
    ensures
        0 <= (y * w + x) * 4,
        (y * w + x) * 4 + 4 <= (other_y * w + other_x) * 4,
{
    if y < other_y {
        assert((y + 1) * w <= other_y * w) by (nonlinear_arith)
            requires
                y + 1 <= other_y,
                0 < w,
        ;
        assert((y + 1) * w == y * w + w) by (nonlinear_arith);
    }
    assert(0 <= y * w) by (nonlinear_arith)
        requires
            0 <= y,
            0 < w,
    ;
}

fn copy_pixels(
    bytes: &Vec<u8>,
    offset: usize,
    row_stride: usize,
    width: i32,
    height: i32,
    top_down: bool,
    four_bytes: bool,
    Ghost(h): Ghost<Header>,
) -> (r: Vec<u8>)
    requires
        h == header_of(bytes@),
        h.offset == offset,
        stride(h) == row_stride,
        h.width == width,
        0 < width,
        rows(h) == height,
        0 < height,
        top_down == (h.raw_height < 0),
        h.bits == (if four_bytes {
            32int
        } else {
            24
        }),
        h.offset + stride(h) * rows(h) <= bytes@.len(),
    ensures
        r@.len() == width * height * 4,
        forall|y: int, x: int, k: int|
            0 <= x < width && 0 <= y < height && 0 <= k < 4 ==> #[trigger] r@[(y * width + x) * 4
                + k] == file_byte(bytes@, x, y, k),
{
    let total: usize = bytes.len();
    let mut pixels: Vec<u8> = Vec::new();
    let mut y: i32 = 0;
    proof {
        assert(0 * width == 0) by (nonlinear_arith);
    }
    while y < height
        invariant
            0 <= y <= height,
            total == bytes@.len(),
            h == header_of(bytes@),
            h.offset == offset,
            stride(h) == row_stride,
            h.width == width,
            0 < width,
            rows(h) == height,
            0 < height,
            top_down == (h.raw_height < 0),
            h.bits == (if four_bytes {
                32int
            } else {
                24
            }),
            h.offset + stride(h) * rows(h) <= bytes@.len(),
            pixels@.len() == (y * width) * 4,
            forall|b: int, a: int, k: int|
                0 <= a < width && 0 <= b < y && 0 <= k < 4 ==> #[trigger] pixels@[(b * width + a)
                    * 4 + k] == file_byte(bytes@, a, b, k),
        decreases height - y,
    {
        let mut x: i32 = 0;
        while x < width
            invariant
                0 <= x <= width,
                0 <= y < height,
                total == bytes@.len(),
                h == header_of(bytes@),
                h.offset == offset,
                stride(h) == row_stride,
                h.width == width,
                0 < width,
                rows(h) == height,
                0 < height,
                top_down == (h.raw_height < 0),
                h.bits == (if four_bytes {
                    32int
                } else {
                    24
                }),
                h.offset + stride(h) * rows(h) <= bytes@.len(),
                pixels@.len() == (y * width + x) * 4,
                forall|b: int, a: int, k: int|
                    0 <= a < width && 0 <= b <= y && (b < y || a < x) && 0 <= k < 4
                        ==> #[trigger] pixels@[(b * width + a) * 4 + k] == file_byte(
                        bytes@,
                        a,
                        b,
                        k,
                    ),
            decreases width - x,
        {
            proof {
                pixel_in_file(h, total as int, x as int, y as int);
            }
            let row: usize = if top_down {
                y as usize
            } else {
                (height - 1 - y) as usize
            };
            let pixel_size: usize = if four_bytes {
                4
            } else {
                3
            };
            let start: usize = offset + row * row_stride + x as usize * pixel_size;
            let ghost before = pixels@;
            pixels.push(bytes[start]);
            pixels.push(bytes[start + 1]);
            pixels.push(bytes[start + 2]);
            if four_bytes {
                pixels.push(bytes[start + 3]);
            } else {
                pixels.push(255);
            }
            proof {
                assert forall|b: int, a: int, k: int|
                    0 <= a < width && 0 <= b <= y && (b < y || a < x + 1) && 0 <= k
                        < 4 implies #[trigger] pixels@[(b * width + a) * 4 + k] == file_byte(
                    bytes@,
                    a,
                    b,
                    k,
                ) by {
                    if b == y && a == x {
                        assert((b * width + a) * 4 == before.len());
                    } else {
                        pixel_order(b, a, y as int, x as int, width as int);
                        assert(before[(b * width + a) * 4 + k] == file_byte(bytes@, a, b, k));
                    }
                }
            }
            x = x + 1;
        }
        proof {
            assert((y + 1) * width == y * width + width) by (nonlinear_arith);
            assert forall|b: int, a: int, k: int|
                0 <= a < width && 0 <= b < y + 1 && 0 <= k < 4 implies #[trigger] pixels@[(b * width
                + a) * 4 + k] == file_byte(bytes@, a, b, k) by {
                assert(b < y || a < x);
            }
        }
        y = y + 1;
    }
    proof {
        assert(height * width == width * height) by (nonlinear_arith);
    }
    pixels
}

fn format_error(depth: BmpDepth) -> (r: AdapterError)
    ensures
        r@ == plain_error(RunErrorKind::Adapter, wrong_format(depth)),
{
    match depth {
        BmpDepth::Only32 => AdapterError::new(
            "image target must be an uncompressed 32bpp BMP".to_owned(),
        ),
        BmpDepth::Also24 => AdapterError::new(
            "image target must be an uncompressed 24bpp or 32bpp BMP".to_owned(),
        ),
    }
}

/// Whether a picture is the one in the file.
pub open spec fn is_picture(bytes: Seq<u8>, image: BmpImage) -> bool {
    let h = header_of(bytes);
    &&& image.complete()
    &&& image.width == h.width
    &&& image.height == rows(h)
    &&& forall|y: int, x: int, k: int|
        0 <= x < image.width && 0 <= y < image.height && 0 <= k < 4 ==> image.byte(x, y, k)
            == #[trigger] file_byte(bytes, x, y, k)
}

/// Reads a picture from the bytes of a bitmap file.
pub fn parse_bmp_image(bytes: &Vec<u8>, depth: BmpDepth) -> (r: Result<BmpImage, AdapterError>)
    ensures
        match r {
            Ok(image) => bmp_problem(bytes@, depth) is None && is_picture(bytes@, image),
            Err(e) => bmp_problem(bytes@, depth) matches Some(message) && e@ == plain_error(
                RunErrorKind::Adapter,
                message,
            ),
        },
{
    let total: usize = bytes.len();
    if total < 54 || bytes[0] != 0x42 || bytes[1] != 0x4D {
        return Err(format_error(depth));
    }
    let ghost h = header_of(bytes@);
    let offset: u32 = read_u32_le(bytes, 10)?;
    let header_size: u32 = read_u32_le(bytes, 14)?;
    if header_size < 40 || (total as u64) < offset as u64 {
        return Err(AdapterError::new("image target BMP header is invalid".to_owned()));
    }
    let width: i32 = read_i32_le(bytes, 18)?;
    let raw_height: i32 = read_i32_le(bytes, 22)?;
    let planes: u16 = read_u16_le(bytes, 26)?;
    let bits: u16 = read_u16_le(bytes, 28)?;
    let compression: u32 = read_u32_le(bytes, 30)?;
    let four_bytes = bits == 32;
    let three_bytes = match depth {
        BmpDepth::Only32 => false,
        BmpDepth::Also24 => bits == 24,
    };
    if width <= 0 || raw_height == 0 || planes != 1 || !(four_bytes || three_bytes) || compression
        != 0 {
        return Err(format_error(depth));
    }
    if raw_height == i32::MIN {
        return Err(AdapterError::new("image target BMP dimensions overflowed".to_owned()));
    }
    let height: i32 = if raw_height < 0 {
        -raw_height
    } else {
        raw_height
    };
    let row_stride: u64 = if four_bytes {
        width as u64 * 4
    } else {
        ((width as u64 * 24 + 31) / 32) * 4
    };
    proof {
        if four_bytes {
            assert(h.bits * h.width == 32 * h.width) by (nonlinear_arith)
                requires
                    h.bits == 32,
            ;
            assert((32 * h.width + 31) / 32 == h.width);
        } else {
            assert(h.bits * h.width == 24 * h.width) by (nonlinear_arith)
                requires
                    h.bits == 24,
            ;
        }
        assert(row_stride == stride(h));
        assert(0 <= row_stride <= 0x2_0000_0000);
        assert(0 <= row_stride * height <= 0x2_0000_0000 * 0x7FFF_FFFF) by (nonlinear_arith)
            requires
                0 <= row_stride <= 0x2_0000_0000,
                0 < height <= 0x7FFF_FFFF,
        ;
    }
    let needed: u128 = offset as u128 + row_stride as u128 * height as u128;
    if (total as u128) < needed {
        return Err(AdapterError::new("image target BMP pixel data is truncated".to_owned()));
    }
    proof {
        pixel_in_file(h, total as int, 0, 0);
        assert(row_stride <= row_stride * height) by (nonlinear_arith)
            requires
                0 <= row_stride,
                1 <= height,
        ;
    }
    let pixels = copy_pixels(
        bytes,
        offset as usize,
        row_stride as usize,
        width,
        height,
        raw_height < 0,
        four_bytes,
        Ghost(h),
    );
    let image = BmpImage { width, height, pixels };
    proof {
        assert forall|y: int, x: int, k: int|
            0 <= x < image.width && 0 <= y < image.height && 0 <= k < 4 implies image.byte(x, y, k)
            == #[trigger] file_byte(bytes@, x, y, k) by {
            assert(pixels@[(y * width + x) * 4 + k] == file_byte(bytes@, x, y, k));
        }
    }
    Ok(image)
}

/// The `i`-th byte of a number, the least first.
#[verifier::opaque]
pub open spec fn nth_byte(n: int, i: int) -> u8 {
    if i == 0 {
        (n % 0x100) as u8
    } else if i == 1 {
        ((n / 0x100) % 0x100) as u8
    } else if i == 2 {
        ((n / 0x1_0000) % 0x100) as u8
    } else {
        ((n / 0x100_0000) % 0x100) as u8
    }
}

/// What stays of a number in 32 bits.
pub open spec fn low32(n: int) -> int {
    n % 0x1_0000_0000
}

/// The bytes before the pixels: 32 bits for every pixel, rows from top to bottom.
#[verifier::opaque]
pub open spec fn bmp_header(width: int, height: int, pixel_bytes: int) -> Seq<u8> {
    let size = low32(54 + pixel_bytes);
    let w = low32(width);
    let h = low32(-height);
    let n = low32(pixel_bytes);
    seq![
        0x42u8,
        0x4Du8,
        nth_byte(size, 0),
        nth_byte(size, 1),
        nth_byte(size, 2),
        nth_byte(size, 3),
        0u8,
        0u8,
        0u8,
        0u8,
        54u8,
        0u8,
        0u8,
        0u8,
        40u8,
        0u8,
        0u8,
        0u8,
        nth_byte(w, 0),
        nth_byte(w, 1),
        nth_byte(w, 2),
        nth_byte(w, 3),
        nth_byte(h, 0),
        nth_byte(h, 1),
        nth_byte(h, 2),
        nth_byte(h, 3),
        1u8,
        0u8,
        32u8,
        0u8,
        0u8,
        0u8,
        0u8,
        0u8,
        nth_byte(n, 0),
        nth_byte(n, 1),
        nth_byte(n, 2),
        nth_byte(n, 3),
        0x13u8,
        0x0Bu8,
        0u8,
        0u8,
        0x13u8,
        0x0Bu8,
        0u8,
        0u8,
        0u8,
        0u8,
        0u8,
        0u8,
        0u8,
        0u8,
        0u8,
        0u8,
    ]
}

/// The bytes of a bitmap file.
pub open spec fn bmp_bytes(width: int, height: int, pixels: Seq<u8>) -> Seq<u8> {
    bmp_header(width, height, pixels.len() as int) + pixels
}

fn byte_of(n: u32, i: u32) -> (r: u8)
    requires
        i < 4,
    ensures
        r == nth_byte(n as int, i as int),
{
    proof {
        reveal(nth_byte);
    }
    if i == 0 {
        (n % 0x100) as u8
    } else if i == 1 {
        ((n / 0x100) % 0x100) as u8
    } else if i == 2 {
        ((n / 0x1_0000) % 0x100) as u8
    } else {
        ((n / 0x100_0000) % 0x100) as u8
    }
}

fn wrapped(n: i32) -> (r: u32)
    ensures
        r == low32(n as int),
{
    if n < 0 {
        (n as i64 + 0x1_0000_0000) as u32
    } else {
        n as u32
    }
}

/// Writes the bytes of a bitmap file.
pub fn encode_bmp(width: i32, height: i32, pixels: &Vec<u8>) -> (r: Vec<u8>)
    requires
        height > i32::MIN,
    ensures
        r@ == bmp_bytes(width as int, height as int, pixels@),
{
    let count: usize = pixels.len();
    let size: u32 = ((count as u128 + 54) % 0x1_0000_0000) as u32;
    let w: u32 = wrapped(width);
    let h: u32 = wrapped(-height);
    let n: u32 = (count as u128 % 0x1_0000_0000) as u32;
    let mut out: Vec<u8> = vec![
        0x42u8,
        0x4Du8,
        byte_of(size, 0),
        byte_of(size, 1),
        byte_of(size, 2),
        byte_of(size, 3),
        0u8,
        0u8,
        0u8,
        0u8,
        54u8,
        0u8,
        0u8,
        0u8,
        40u8,
        0u8,
        0u8,
        0u8,
        byte_of(w, 0),
        byte_of(w, 1),
        byte_of(w, 2),
        byte_of(w, 3),
        byte_of(h, 0),
        byte_of(h, 1),
        byte_of(h, 2),
        byte_of(h, 3),
        1u8,
        0u8,
        32u8,
        0u8,
        0u8,
        0u8,
        0u8,
        0u8,
        byte_of(n, 0),
        byte_of(n, 1),
        byte_of(n, 2),
        byte_of(n, 3),
        0x13u8,
        0x0Bu8,
        0u8,
        0u8,
        0x13u8,
        0x0Bu8,
        0u8,
        0u8,
        0u8,
        0u8,
        0u8,
        0u8,
        0u8,
        0u8,
        0u8,
        0u8,
    ];
    let ghost header = bmp_header(width as int, height as int, count as int);
    proof {
        reveal(bmp_header);
    }
    assert(out@ =~= header);
    let mut i: usize = 0;
    assert(header + pixels@.take(0) =~= header);
    while i < pixels.len()
        invariant
            i <= pixels@.len(),
            out@ == header + pixels@.take(i as int),
        decreases pixels@.len() - i,
    {
        out.push(pixels[i]);
        assert(pixels@.take(i + 1) =~= pixels@.take(i as int).push(pixels@[i as int]));
        assert(header + pixels@.take(i + 1) =~= (header + pixels@.take(i as int)).push(
            pixels@[i as int],
        ));
        i = i + 1;
    }
    assert(pixels@.take(i as int) =~= pixels@);
    out
}

proof fn bytes_of_number(n: int)
    requires
        0 <= n < 0x1_0000_0000,
    ensures
        nth_byte(n, 0) + nth_byte(n, 1) * 0x100 + nth_byte(n, 2) * 0x1_0000 + nth_byte(n, 3)
            * 0x100_0000 == n,
{
    reveal(nth_byte);
    let a = n / 0x100;
    let b = n / 0x1_0000;
    let c = n / 0x100_0000;
    lemma_div_denominator(n, 0x100, 0x100);
    lemma_div_denominator(n, 0x1_0000, 0x100);
    assert(b == a / 0x100);
    assert(c == b / 0x100);
    assert(0 <= c < 0x100);
    lemma_fundamental_div_mod(n, 0x100);
    lemma_fundamental_div_mod(a, 0x100);
    lemma_fundamental_div_mod(b, 0x100);
}

/// A number of 32 bits and its bits taken as an unsigned one.
proof fn signed_of_low(n: int)
    requires
        i32::MIN <= n <= i32::MAX,
    ensures
        0 <= low32(n) < 0x1_0000_0000,
        signed32(low32(n)) == n,
{
}

/// The bytes before the pixels, as far as they matter to a reader.
proof fn header_bytes(width: int, height: int, count: int)
    ensures
        ({
            let b = bmp_header(width, height, count);
            &&& b.len() == 54
            &&& b[0] == 0x42 && b[1] == 0x4D
            &&& b[10] == 54 && b[11] == 0 && b[12] == 0 && b[13] == 0
            &&& b[14] == 40 && b[15] == 0 && b[16] == 0 && b[17] == 0
            &&& b[18] == nth_byte(low32(width), 0) && b[19] == nth_byte(low32(width), 1)
            &&& b[20] == nth_byte(low32(width), 2) && b[21] == nth_byte(low32(width), 3)
            &&& b[22] == nth_byte(low32(-height), 0) && b[23] == nth_byte(low32(-height), 1)
            &&& b[24] == nth_byte(low32(-height), 2) && b[25] == nth_byte(low32(-height), 3)
            &&& b[26] == 1 && b[27] == 0 && b[28] == 32 && b[29] == 0
            &&& b[30] == 0 && b[31] == 0 && b[32] == 0 && b[33] == 0
        }),
{
    reveal(bmp_header);
}

/// What is written before the pixels is read back, and the pixels follow.
proof fn written_header(image: BmpImage)
    requires
        image.complete(),
    ensures
        ({
            let bytes = bmp_bytes(image.width as int, image.height as int, image.pixels@);
            &&& bytes.len() == 54 + image.pixels@.len()
            &&& bytes[0] == 0x42
            &&& bytes[1] == 0x4D
            &&& header_of(bytes) == (Header {
                offset: 54,
                header_size: 40,
                width: image.width as int,
                raw_height: -(image.height as int),
                planes: 1,
                bits: 32,
                compression: 0,
            })
            &&& forall|i: int|
                0 <= i < image.pixels@.len() ==> #[trigger] image.pixels@[i] == bytes[54 + i]
        }),
{
    let bytes = bmp_bytes(image.width as int, image.height as int, image.pixels@);
    let header = bmp_header(image.width as int, image.height as int, image.pixels@.len() as int);
    header_bytes(image.width as int, image.height as int, image.pixels@.len() as int);
    signed_of_low(image.width as int);
    signed_of_low(-(image.height as int));
    bytes_of_number(low32(image.width as int));
    bytes_of_number(low32(-(image.height as int)));
    assert forall|i: int| 0 <= i < 54 implies #[trigger] bytes[i] == header[i] by {}
    assert(le32(bytes, 18) == low32(image.width as int));
    assert(le32(bytes, 22) == low32(-(image.height as int)));
}

/// A picture that is written is read back as it was, whichever formats the reader accepts.
pub proof fn bmp_round_trip(image: BmpImage, depth: BmpDepth, read: BmpImage)
    requires
        image.complete(),
    ensures
        ({
            let bytes = bmp_bytes(image.width as int, image.height as int, image.pixels@);
            &&& bmp_problem(bytes, depth) is None
            &&& is_picture(bytes, image)
            &&& is_picture(bytes, read) ==> read.width == image.width && read.height == image.height
                && read.pixels@ == image.pixels@
        }),
{
    let bytes = bmp_bytes(image.width as int, image.height as int, image.pixels@);
    let fields = header_of(bytes);
    written_header(image);
    assert((32 * fields.width + 31) / 32 == fields.width);
    assert(stride(fields) == image.width * 4);
    assert((image.width * 4) * image.height == image.width * image.height * 4) by (nonlinear_arith);
    assert forall|y: int, x: int, k: int|
        0 <= x < image.width && 0 <= y < image.height && 0 <= k < 4 implies image.byte(x, y, k)
        == #[trigger] file_byte(bytes, x, y, k) by {
        pixel_order_in(y, x, image.width as int, image.height as int);
        assert(y * (image.width * 4) + x * 4 == (y * image.width + x) * 4) by (nonlinear_arith);
        assert(pixel_start(fields, x, y) == 54 + (y * image.width + x) * 4);
    }
    if is_picture(bytes, read) {
        same_pixels(bytes, bytes, read, image);
    }
}

/// Two files that show the same pixels are read as the same picture.
proof fn same_pixels(bytes: Seq<u8>, other: Seq<u8>, a: BmpImage, b: BmpImage)
    requires
        is_picture(bytes, a),
        is_picture(other, b),
        a.width == b.width,
        a.height == b.height,
        forall|y: int, x: int, k: int|
            0 <= x < a.width && 0 <= y < a.height && 0 <= k < 4 ==> #[trigger] file_byte(
                bytes,
                x,
                y,
                k,
            ) == file_byte(other, x, y, k),
    ensures
        a.pixels@ == b.pixels@,
{
    assert forall|i: int| 0 <= i < a.pixels@.len() implies #[trigger] a.pixels@[i]
        == b.pixels@[i] by {
        let width = a.width as int;
        let pixel = i / 4;
        let k = i % 4;
        let y = pixel / width;
        let x = pixel % width;
        assert(pixel == y * width + x && 0 <= x < width && 0 <= y < a.height) by (nonlinear_arith)
            requires
                0 <= pixel < width * a.height,
                0 < width,
                y == pixel / width,
                x == pixel % width,
        ;
        assert(i == (y * width + x) * 4 + k);
        assert(a.byte(x, y, k) == file_byte(bytes, x, y, k));
        assert(b.byte(x, y, k) == file_byte(other, x, y, k));
    }
    assert(a.pixels@ =~= b.pixels@);
}

/// Whether two files hold the same rows, one from top to bottom and the other from bottom to top.
pub open spec fn upside_down(bytes: Seq<u8>, other: Seq<u8>) -> bool {
    let h = header_of(bytes);
    &&& header_of(other) == (Header { raw_height: -h.raw_height, ..h })
    &&& forall|row: int, column: int|
        0 <= row < rows(h) && 0 <= column < stride(h) ==> #[trigger] bytes[h.offset + row * stride(h)
            + column] == other[h.offset + (rows(h) - 1 - row) * stride(h) + column]
}

/// The bytes of a pixel stand in its row.
proof fn byte_in_row(h: Header, x: int, k: int)
    requires
        h.bits == 24 || h.bits == 32,
        0 <= x < h.width,
        0 <= k < h.bits / 8,
        h.width * (h.bits / 8) <= stride(h),
    ensures
        0 <= x * (h.bits / 8) + k < stride(h),
{
    let size = h.bits / 8;
    assert(0 <= x * size && (x + 1) * size <= h.width * size && (x + 1) * size == x * size + size)
        by (nonlinear_arith)
        requires
            0 <= x < h.width,
            0 < size,
    ;
}

/// A picture is the same whether its rows run from top to bottom or from bottom to top.
pub proof fn row_order_does_not_matter(
    bytes: Seq<u8>,
    other: Seq<u8>,
    depth: BmpDepth,
    a: BmpImage,
    b: BmpImage,
)
    requires
        bmp_problem(bytes, depth) is None,
        bmp_problem(other, depth) is None,
        upside_down(bytes, other),
        is_picture(bytes, a),
        is_picture(other, b),
    ensures
        a.width == b.width,
        a.height == b.height,
        a.pixels@ == b.pixels@,
{
    let h = header_of(bytes);
    let g = header_of(other);
    assert(rows(g) == rows(h) && stride(g) == stride(h));
    assert forall|y: int, x: int, k: int|
        0 <= x < a.width && 0 <= y < a.height && 0 <= k < 4 implies #[trigger] file_byte(
        bytes,
        x,
        y,
        k,
    ) == file_byte(other, x, y, k) by {
        pixel_in_file(h, bytes.len() as int, x, y);
        let row = file_row(h, y);
        let column = x * (h.bits / 8) + k;
        assert(file_row(g, y) == rows(h) - 1 - row);
        if !(k == 3 && h.bits == 24) {
            byte_in_row(h, x, k);
            assert(bytes[h.offset + row * stride(h) + column] == other[h.offset + (rows(h) - 1
                - row) * stride(h) + column]);
        }
    }
    same_pixels(bytes, other, a, b);
}

proof fn pixel_order_in(y: int, x: int, w: int, h: int)
    requires
        0 <= x < w,
        0 <= y < h,
    ensures
        0 <= (y * w + x) * 4,
        (y * w + x) * 4 + 4 <= w * h * 4,
{
    assert(0 <= y * w + x && (y * w + x) * 4 + 4 <= w * h * 4) by (nonlinear_arith)
        requires
            0 <= x < w,
            0 <= y < h,
    ;
}

/// The size of a bitmap file with 32 bits for every pixel.
pub fn bmp_file_size(width: i32, height: i32) -> (r: Result<u64, AdapterError>)
    ensures
        match r {
            Ok(size) => 0 <= width && 0 <= height && size == 54 + width * height * 4,
            Err(e) => e@ == AdapterErrorView {
                message: if width < 0 {
                    "Windows screenshot width is invalid"@
                } else {
                    "Windows screenshot height is invalid"@
                },
                kind: RunErrorKind::Adapter,
                diagnostics: Some("failureKind=transient"@),
                failure_kind: Some(FailureKind::Transient),
            } && (width < 0 || height < 0),
        },
{
    if width < 0 {
        return Err(
            AdapterError::new("Windows screenshot width is invalid".to_owned()).with_failure_kind(
                FailureKind::Transient,
            ).with_source("failureKind=transient".to_owned()),
        );
    }
    if height < 0 {
        return Err(
            AdapterError::new("Windows screenshot height is invalid".to_owned()).with_failure_kind(
                FailureKind::Transient,
            ).with_source("failureKind=transient".to_owned()),
        );
    }
    proof {
        let w = width as int;
        let h = height as int;
        assert(0 <= w * h <= 0x7FFF_FFFF * 0x7FFF_FFFF) by (nonlinear_arith)
            requires
                0 <= w <= 0x7FFF_FFFF,
                0 <= h <= 0x7FFF_FFFF,
        ;
    }
    Ok(width as u64 * height as u64 * 4 + 54)
}

} // verus!
