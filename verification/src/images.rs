//! Decoders for the image formats the vanilla UI is drawn from: uncompressed and run-length
//! encoded TGA files, `.pal` palettes, and palette-indexed animation frames.
//!
//! Every decoder produces straight (unpremultiplied) RGBA pixels in row-major order with the
//! origin at the top-left corner.
use vstd::prelude::*;

verus! {

/// One straight-alpha RGBA pixel.
#[derive(Clone, Copy, Debug, PartialEq, Eq, Structural)]
pub struct Rgba {
    pub r: u8,
    pub g: u8,
    pub b: u8,
    pub a: u8,
}

impl Rgba {
    pub open spec fn spec_rgba(r: u8, g: u8, b: u8, a: u8) -> Rgba {
        Rgba { r, g, b, a }
    }

    /// A colour with every channel given, alpha included.
    pub fn from_rgba_unmultiplied(r: u8, g: u8, b: u8, a: u8) -> (c: Rgba)
        ensures
            c == Rgba::spec_rgba(r, g, b, a),
    {
        Rgba { r, g, b, a }
    }

    /// An opaque colour.
    pub fn from_rgb(r: u8, g: u8, b: u8) -> (c: Rgba)
        ensures
            c == Rgba::spec_rgba(r, g, b, 255),
    {
        Rgba { r, g, b, a: 255 }
    }

    /// An opaque grey with all three colour channels set to `v`.
    pub fn from_gray(v: u8) -> (c: Rgba)
        ensures
            c == Rgba::spec_rgba(v, v, v, 255),
    {
        Rgba { r: v, g: v, b: v, a: 255 }
    }

    /// The fully transparent colour every image starts from.
    pub fn transparent() -> (c: Rgba)
        ensures
            c == Rgba::spec_rgba(0, 0, 0, 0),
    {
        Rgba { r: 0, g: 0, b: 0, a: 0 }
    }
}

/// A decoded image: `pixels` holds `width * height` colours, row by row from the top.
pub struct Image {
    pub width: usize,
    pub height: usize,
    pub pixels: Vec<Rgba>,
}

/// Why a TGA file could not be decoded.
#[derive(Clone, Copy, Debug, PartialEq, Eq, Structural)]
pub enum TgaError {
    /// Fewer than the 18 header bytes.
    TooShort,
    /// Width or height is zero.
    ZeroDimensions,
    /// The image ID field runs past the end of the data.
    ImageIdTruncated,
    /// Indexed pixels without an embedded colour map.
    MissingColorMap,
    /// A colour map type other than 0 or 1.
    UnsupportedColorMapType,
    /// A colour map in a file whose pixels are not indexed.
    UnusedColorMap,
    /// A colour map entry depth that has no byte size.
    UnsupportedColorMapDepth,
    /// The colour map runs past the end of the data.
    ColorMapTruncated,
    /// The data ended in the middle of a pixel.
    UnexpectedEnd,
    /// Indexed pixels that are neither 8 nor 16 bits wide.
    UnsupportedIndexedDepth,
    /// A palette index below the colour map's first entry.
    PaletteIndexBeforeFirst,
    /// A palette index past the end of the colour map.
    PaletteIndexOutOfBounds,
    /// Grayscale pixels that are not 8 bits wide.
    UnsupportedGrayscaleDepth,
    /// A true-colour depth other than 15, 16, 24 or 32 bits.
    UnsupportedColorDepth,
    /// An image type other than 1, 2, 3, 9, 10 or 11.
    UnsupportedImageType,
    /// The data ended where a run-length packet header was expected.
    RlePacketTruncated,
    /// A run-length packet that would produce more pixels than the image holds.
    RlePacketExceedsImage,
}

/// The fields of the 18-byte TGA header that decoding reads.
#[derive(Clone, Copy, Debug)]
pub struct TgaHeader {
    pub id_length: usize,
    pub color_map_type: u8,
    pub image_type: u8,
    pub color_map_first_entry: u16,
    pub color_map_length: usize,
    pub color_map_entry_depth: u8,
    pub width: usize,
    pub height: usize,
    pub pixel_depth: u8,
    pub image_descriptor: u8,
}

/// Little-endian 16-bit value at `i`.
pub open spec fn le16(data: Seq<u8>, i: int) -> int {
    data[i] as int + 256 * (data[i + 1] as int)
}

/// The header as it is read from the first 18 bytes of `data`.
pub open spec fn spec_header(data: Seq<u8>) -> TgaHeader {
    TgaHeader {
        id_length: data[0] as usize,
        color_map_type: data[1],
        image_type: data[2],
        color_map_first_entry: le16(data, 3) as u16,
        color_map_length: le16(data, 5) as usize,
        color_map_entry_depth: data[7],
        width: le16(data, 12) as usize,
        height: le16(data, 14) as usize,
        pixel_depth: data[16],
        image_descriptor: data[17],
    }
}

/// Bytes one value of the given bit depth occupies.
pub open spec fn spec_bytes_per_pixel(depth: u8) -> Option<int> {
    if depth == 8 {
        Some(1)
    } else if depth == 15 || depth == 16 {
        Some(2)
    } else if depth == 24 {
        Some(3)
    } else if depth == 32 {
        Some(4)
    } else {
        None
    }
}

/// A 15/16-bit `ARRRRRGGGGGBBBBB` value as a colour; the top bit is alpha only at 16 bits.
pub open spec fn spec_color16(value: u16, depth: u8) -> Rgba {
    Rgba {
        r: ((((value >> 10u16) & 0x1fu16) as u8) << 3u8) as u8,
        g: ((((value >> 5u16) & 0x1fu16) as u8) << 3u8) as u8,
        b: (((value & 0x1fu16) as u8) << 3u8) as u8,
        a: if depth == 16 && value & 0x8000u16 == 0 {
            0
        } else {
            255
        },
    }
}

/// A true-colour value (stored blue first) at `i`, and the index just past it.
pub open spec fn spec_read_color(data: Seq<u8>, i: int, depth: u8) -> Result<(Rgba, int), TgaError> {
    if depth == 15 || depth == 16 {
        if i + 2 <= data.len() {
            Ok((spec_color16(le16(data, i) as u16, depth), i + 2))
        } else {
            Err(TgaError::UnexpectedEnd)
        }
    } else if depth == 24 {
        if i + 3 <= data.len() {
            Ok((Rgba { r: data[i + 2], g: data[i + 1], b: data[i], a: 255 }, i + 3))
        } else {
            Err(TgaError::UnexpectedEnd)
        }
    } else if depth == 32 {
        if i + 4 <= data.len() {
            Ok((Rgba { r: data[i + 2], g: data[i + 1], b: data[i], a: data[i + 3] }, i + 4))
        } else {
            Err(TgaError::UnexpectedEnd)
        }
    } else {
        Err(TgaError::UnsupportedColorDepth)
    }
}

pub open spec fn is_indexed(image_type: u8) -> bool {
    image_type == 1 || image_type == 9
}

pub open spec fn is_true_color(image_type: u8) -> bool {
    image_type == 2 || image_type == 10
}

pub open spec fn is_grayscale(image_type: u8) -> bool {
    image_type == 3 || image_type == 11
}

/// `n` colours read one after another from `i`, and the index just past the last one.
pub open spec fn spec_read_colors(data: Seq<u8>, i: int, depth: u8, n: nat) -> Result<(Seq<Rgba>, int), TgaError>
    decreases n,
{
    if n == 0 {
        Ok((Seq::empty(), i))
    } else {
        match spec_read_colors(data, i, depth, (n - 1) as nat) {
            Err(e) => Err(e),
            Ok((s, j)) => match spec_read_color(data, j, depth) {
                Err(e) => Err(e),
                Ok((c, k)) => Ok((s.push(c), k)),
            },
        }
    }
}

/// The embedded colour map that starts at `i`, if the header declares one, and the index just
/// past it.
pub open spec fn spec_color_map(data: Seq<u8>, i: int, h: TgaHeader) -> Result<(Option<Seq<Rgba>>, int), TgaError> {
    if h.color_map_type == 0 {
        if is_indexed(h.image_type) {
            Err(TgaError::MissingColorMap)
        } else {
            Ok((None, i))
        }
    } else if h.color_map_type != 1 {
        Err(TgaError::UnsupportedColorMapType)
    } else if !is_indexed(h.image_type) {
        Err(TgaError::UnusedColorMap)
    } else {
        match spec_bytes_per_pixel(h.color_map_entry_depth) {
            None => Err(TgaError::UnsupportedColorMapDepth),
            Some(bpe) => if i + h.color_map_length * bpe > data.len() {
                Err(TgaError::ColorMapTruncated)
            } else {
                match spec_read_colors(data, i, h.color_map_entry_depth, h.color_map_length as nat) {
                    Err(e) => Err(e),
                    Ok((colors, j)) => Ok((Some(colors), j)),
                }
            },
        }
    }
}

/// One pixel at `i` in the encoding the header declares, and the index just past it.
pub open spec fn spec_read_pixel(data: Seq<u8>, i: int, h: TgaHeader, cmap: Option<Seq<Rgba>>) -> Result<(Rgba, int), TgaError> {
    if is_indexed(h.image_type) {
        let raw: Result<(int, int), TgaError> = if h.pixel_depth == 8 {
            if i + 1 <= data.len() {
                Ok((data[i] as int, i + 1))
            } else {
                Err(TgaError::UnexpectedEnd)
            }
        } else if h.pixel_depth == 16 {
            if i + 2 <= data.len() {
                Ok((le16(data, i), i + 2))
            } else {
                Err(TgaError::UnexpectedEnd)
            }
        } else {
            Err(TgaError::UnsupportedIndexedDepth)
        };
        match raw {
            Err(e) => Err(e),
            Ok((raw_index, j)) => if raw_index < h.color_map_first_entry {
                Err(TgaError::PaletteIndexBeforeFirst)
            } else {
                let p = raw_index - h.color_map_first_entry;
                match cmap {
                    Some(colors) => if p < colors.len() {
                        Ok((colors[p], j))
                    } else {
                        Err(TgaError::PaletteIndexOutOfBounds)
                    },
                    None => Err(TgaError::PaletteIndexOutOfBounds),
                }
            },
        }
    } else if is_true_color(h.image_type) {
        spec_read_color(data, i, h.pixel_depth)
    } else if is_grayscale(h.image_type) {
        if h.pixel_depth == 8 {
            if i + 1 <= data.len() {
                Ok((Rgba { r: data[i], g: data[i], b: data[i], a: 255 }, i + 1))
            } else {
                Err(TgaError::UnexpectedEnd)
            }
        } else {
            Err(TgaError::UnsupportedGrayscaleDepth)
        }
    } else {
        Err(TgaError::UnsupportedImageType)
    }
}

/// `n` pixels read one after another from `i`, and the index just past the last one.
pub open spec fn spec_read_pixels(data: Seq<u8>, i: int, h: TgaHeader, cmap: Option<Seq<Rgba>>, n: nat) -> Result<(Seq<Rgba>, int), TgaError>
    decreases n,
{
    if n == 0 {
        Ok((Seq::empty(), i))
    } else {
        match spec_read_pixels(data, i, h, cmap, (n - 1) as nat) {
            Err(e) => Err(e),
            Ok((s, j)) => match spec_read_pixel(data, j, h, cmap) {
                Err(e) => Err(e),
                Ok((c, k)) => Ok((s.push(c), k)),
            },
        }
    }
}

/// A 5-bit field `x` widened to 8 bits as the decoder does it: `x * 8`.
proof fn lemma_widen5(v: u16, x: u16)
    requires
        x == v & 0x1fu16,
    ensures
        x < 32,
        (((x as u8) << 3u8) as u8) as int == (x as int) * 8,
{
    assert(x < 32) by (bit_vector)
        requires
            x == v & 0x1fu16,
    ;
    let y = x as u8;
    assert(y < 32);
    assert(((y << 3u8) as u8) == y * 8) by (bit_vector)
        requires
            y < 32,
    ;
}

/// True-colour pixels decode channel by channel from the bytes as stored: a 15/16-bit pixel,
/// stored low byte `lo` first then `hi`, is `ARRRRRGGGGGBBBBB`, so red is bits 2..6 of `hi`, green
/// is bits 0..1 of `hi` above bits 5..7 of `lo`, and blue is bits 0..4 of `lo`, each 5-bit field
/// widened by 8; alpha is the top bit at 16 bits and opaque at 15. A 24/32-bit pixel is stored
/// blue, green, red (then alpha).
pub proof fn law_true_color_channels(data: Seq<u8>, i: int, depth: u8)
    requires
        0 <= i,
        spec_read_color(data, i, depth) is Ok,
    ensures
        ({
            let c = spec_read_color(data, i, depth).unwrap().0;
            if depth == 15 || depth == 16 {
                let lo = data[i] as int;
                let hi = data[i + 1] as int;
                &&& c.r as int == ((hi / 4) % 32) * 8
                &&& c.g as int == ((hi % 4) * 8 + lo / 32) * 8
                &&& c.b as int == (lo % 32) * 8
                &&& c.a == (if depth == 16 && hi < 128 { 0u8 } else { 255u8 })
            } else {
                &&& c.r == data[i + 2]
                &&& c.g == data[i + 1]
                &&& c.b == data[i]
                &&& c.a == (if depth == 32 { data[i + 3] } else { 255u8 })
            }
        }),
{
    if depth == 15 || depth == 16 {
        let lo = data[i];
        let hi = data[i + 1];
        let v: u16 = le16(data, i) as u16;
        assert(v as int == lo as int + 256 * (hi as int));
        let rf: u16 = (v >> 10u16) & 0x1fu16;
        let gf: u16 = (v >> 5u16) & 0x1fu16;
        let bf: u16 = v & 0x1fu16;
        assert(rf as int == ((v as int) / 1024) % 32) by (bit_vector)
            requires
                rf == (v >> 10u16) & 0x1fu16,
        ;
        assert(gf as int == ((v as int) / 32) % 32) by (bit_vector)
            requires
                gf == (v >> 5u16) & 0x1fu16,
        ;
        assert(bf as int == (v as int) % 32) by (bit_vector)
            requires
                bf == v & 0x1fu16,
        ;
        assert((v & 0x8000u16 == 0) == (v < 0x8000)) by (bit_vector);
        lemma_widen5(v >> 10u16, rf);
        lemma_widen5(v >> 5u16, gf);
        lemma_widen5(v, bf);
        assert((v as int) / 1024 == (hi as int) / 4) by (nonlinear_arith)
            requires
                v as int == lo as int + 256 * (hi as int),
                0 <= lo < 256,
                0 <= hi < 256,
        ;
        assert(((v as int) / 32) % 32 == ((hi as int) % 4) * 8 + (lo as int) / 32) by (nonlinear_arith)
            requires
                v as int == lo as int + 256 * (hi as int),
                0 <= lo < 256,
                0 <= hi < 256,
        ;
        assert((v as int) % 32 == (lo as int) % 32) by (nonlinear_arith)
            requires
                v as int == lo as int + 256 * (hi as int),
                0 <= lo < 256,
        ;
    }
}

/// A successful read of `n` pixels yields exactly `n` of them.
pub proof fn lemma_read_pixels_len(data: Seq<u8>, i: int, h: TgaHeader, cmap: Option<Seq<Rgba>>, n: nat)
    ensures
        spec_read_pixels(data, i, h, cmap, n) matches Ok((s, j)) ==> s.len() == n,
    decreases n,
{
    if n > 0 {
        lemma_read_pixels_len(data, i, h, cmap, (n - 1) as nat);
    }
}

/// A successful run-length read that starts below `total` pixels ends with exactly `total`.
pub proof fn lemma_read_rle_len(data: Seq<u8>, i: int, h: TgaHeader, cmap: Option<Seq<Rgba>>, have: Seq<Rgba>, total: nat)
    requires
        have.len() <= total,
    ensures
        spec_read_rle(data, i, h, cmap, have, total) matches Ok(s) ==> s.len() == total,
    decreases total - have.len(),
{
    if have.len() < total && i < data.len() {
        let packet = data[i];
        let count = (packet & 0x7fu8) as int + 1;
        if have.len() + count <= total {
            if packet & 0x80u8 != 0 {
                if let Ok((p, j)) = spec_read_pixel(data, i + 1, h, cmap) {
                    lemma_read_rle_len(data, j, h, cmap, have + Seq::new(count as nat, |k: int| p), total);
                }
            } else {
                lemma_read_pixels_len(data, i + 1, h, cmap, count as nat);
                if let Ok((s, j)) = spec_read_pixels(data, i + 1, h, cmap, count as nat) {
                    lemma_read_rle_len(data, j, h, cmap, have + s, total);
                }
            }
        }
    }
}

/// Run-length packets read from `i` and appended to `have` until `total` pixels are known.
/// A packet header's low seven bits give the pixel count minus one; with the top bit set one
/// pixel follows and is repeated, otherwise that many pixels follow.
pub open spec fn spec_read_rle(data: Seq<u8>, i: int, h: TgaHeader, cmap: Option<Seq<Rgba>>, have: Seq<Rgba>, total: nat) -> Result<Seq<Rgba>, TgaError>
    decreases total - have.len(),
{
    if have.len() >= total {
        Ok(have)
    } else if i >= data.len() {
        Err(TgaError::RlePacketTruncated)
    } else {
        let packet = data[i];
        let count = (packet & 0x7fu8) as int + 1;
        if have.len() + count > total {
            Err(TgaError::RlePacketExceedsImage)
        } else if packet & 0x80u8 != 0 {
            match spec_read_pixel(data, i + 1, h, cmap) {
                Err(e) => Err(e),
                Ok((p, j)) => spec_read_rle(data, j, h, cmap, have + Seq::new(count as nat, |k: int| p), total),
            }
        } else {
            match spec_read_pixels(data, i + 1, h, cmap, count as nat) {
                Err(e) => Err(e),
                Ok((s, j)) => {
                    proof {
                        lemma_read_pixels_len(data, i + 1, h, cmap, count as nat);
                    }
                    spec_read_rle(data, j, h, cmap, have + s, total)
                },
            }
        }
    }
}

/// The pixels in file order, before the origin is moved to the top-left corner.
pub open spec fn spec_source_pixels(data: Seq<u8>, i: int, h: TgaHeader, cmap: Option<Seq<Rgba>>) -> Result<Seq<Rgba>, TgaError> {
    let total = (h.width * h.height) as nat;
    if h.image_type == 1 || h.image_type == 2 || h.image_type == 3 {
        match spec_read_pixels(data, i, h, cmap, total) {
            Err(e) => Err(e),
            Ok((s, j)) => Ok(s),
        }
    } else if 9 <= h.image_type <= 11 {
        spec_read_rle(data, i, h, cmap, Seq::empty(), total)
    } else {
        Err(TgaError::UnsupportedImageType)
    }
}

/// Position `x` of row `y` in a row-major buffer `width` pixels wide.
pub open spec fn row_major(width: int, y: int, x: int) -> int {
    y * width + x
}

/// The file-order pixel shown at top-left-origin position `(x, y)`: bit 5 of the descriptor
/// says rows are stored top first, bit 4 that columns are stored right first.
pub open spec fn spec_oriented_pixel(src: Seq<Rgba>, h: TgaHeader, y: int, x: int) -> Rgba {
    let sy = if h.image_descriptor & 0x20u8 != 0 { y } else { h.height - 1 - y };
    let sx = if h.image_descriptor & 0x10u8 != 0 { h.width - 1 - x } else { x };
    src[row_major(h.width as int, sy, sx)]
}

/// What decoding `data` gives: the header checks, the image ID skipped, the colour map read,
/// the pixels read and then re-ordered to a top-left origin.
pub open spec fn tga_decodes_to(data: Seq<u8>, img_w: int, img_h: int, pixels: Seq<Rgba>) -> bool {
    let h = spec_header(data);
    &&& data.len() >= 18
    &&& h.width > 0 && h.height > 0
    &&& 18 + h.id_length <= data.len()
    &&& match spec_color_map(data, 18 + h.id_length, h) {
        Ok((cmap, i)) => match spec_source_pixels(data, i, h, cmap) {
            Ok(src) => {
                &&& img_w == h.width
                &&& img_h == h.height
                &&& pixels.len() == h.width * h.height
                &&& forall|y: int, x: int|
                    0 <= y < h.height && 0 <= x < h.width ==> #[trigger] pixels[row_major(h.width as int, y, x)]
                        == spec_oriented_pixel(src, h, y, x)
            },
            Err(_) => false,
        },
        Err(_) => false,
    }
}

/// The error decoding `data` stops at, if any.
pub open spec fn tga_error(data: Seq<u8>) -> Option<TgaError> {
    let h = spec_header(data);
    if data.len() < 18 {
        Some(TgaError::TooShort)
    } else if h.width == 0 || h.height == 0 {
        Some(TgaError::ZeroDimensions)
    } else if 18 + h.id_length > data.len() {
        Some(TgaError::ImageIdTruncated)
    } else {
        match spec_color_map(data, 18 + h.id_length, h) {
            Err(e) => Some(e),
            Ok((cmap, i)) => match spec_source_pixels(data, i, h, cmap) {
                Err(e) => Some(e),
                Ok(_) => None,
            },
        }
    }
}

/// A failed read of `n` colours stays failed, with the same error, for any larger count.
pub proof fn lemma_read_colors_err(data: Seq<u8>, i: int, depth: u8, n: nat, m: nat)
    requires
        n <= m,
        spec_read_colors(data, i, depth, n) is Err,
    ensures
        spec_read_colors(data, i, depth, m) == spec_read_colors(data, i, depth, n),
    decreases m,
{
    if m > n {
        lemma_read_colors_err(data, i, depth, n, (m - 1) as nat);
    }
}

/// A failed read of `n` pixels stays failed, with the same error, for any larger count.
pub proof fn lemma_read_pixels_err(data: Seq<u8>, i: int, h: TgaHeader, cmap: Option<Seq<Rgba>>, n: nat, m: nat)
    requires
        n <= m,
        spec_read_pixels(data, i, h, cmap, n) is Err,
    ensures
        spec_read_pixels(data, i, h, cmap, m) == spec_read_pixels(data, i, h, cmap, n),
    decreases m,
{
    if m > n {
        lemma_read_pixels_err(data, i, h, cmap, n, (m - 1) as nat);
    }
}

proof fn lemma_row_major_bound(w: int, h: int, y: int, x: int)
    requires
        0 <= y < h,
        0 <= x < w,
    ensures
        0 <= row_major(w, y, x) < w * h,
        row_major(w, y, x) + 1 <= (y + 1) * w,
{
    assert(0 <= y * w + x < w * h) by (nonlinear_arith)
        requires
            0 <= y < h,
            0 <= x < w,
    ;
    assert(y * w + x + 1 <= (y + 1) * w) by (nonlinear_arith)
        requires
            0 <= x < w,
    ;
}

proof fn lemma_row_before(w: int, yy: int, y: int, xx: int)
    requires
        0 <= yy < y,
        0 <= xx < w,
    ensures
        row_major(w, yy, xx) < y * w,
        row_major(w, yy, xx) >= 0,
{
    assert(yy * w + xx < y * w) by (nonlinear_arith)
        requires
            0 <= yy < y,
            0 <= xx < w,
    ;
    assert(yy * w + xx >= 0) by (nonlinear_arith)
        requires
            0 <= yy,
            0 <= xx,
            0 <= w,
    ;
}

fn read_u8(data: &[u8], index: &mut usize) -> (r: Result<u8, TgaError>)
    ensures
        *old(index) < data@.len() ==> r == Ok::<u8, TgaError>(data@[*old(index) as int]) && *final(index) == *old(index) + 1,
        *old(index) >= data@.len() ==> r == Err::<u8, TgaError>(TgaError::UnexpectedEnd) && *final(index) == *old(index),
{
    if *index < data.len() {
        let v = data[*index];
        *index = *index + 1;
        Ok(v)
    } else {
        Err(TgaError::UnexpectedEnd)
    }
}

fn read_u16(data: &[u8], index: &mut usize) -> (r: Result<u16, TgaError>)
    requires
        *old(index) <= data@.len(),
    ensures
        *old(index) + 2 <= data@.len() ==> r == Ok::<u16, TgaError>(le16(data@, *old(index) as int) as u16)
            && *final(index) == *old(index) + 2,
        *old(index) + 2 > data@.len() ==> r == Err::<u16, TgaError>(TgaError::UnexpectedEnd),
        *final(index) <= data@.len(),
{
    let lo = read_u8(data, index)?;
    let hi = read_u8(data, index)?;
    Ok(lo as u16 + (hi as u16) * 256)
}

/// Bytes one value of the given bit depth occupies, if the depth is one TGA files use.
pub fn bytes_per_pixel(pixel_depth: u8) -> (r: Option<usize>)
    ensures
        r matches Some(n) ==> spec_bytes_per_pixel(pixel_depth) == Some(n as int),
        r is None ==> spec_bytes_per_pixel(pixel_depth) is None,
{
    if pixel_depth == 8 {
        Some(1)
    } else if pixel_depth == 15 || pixel_depth == 16 {
        Some(2)
    } else if pixel_depth == 24 {
        Some(3)
    } else if pixel_depth == 32 {
        Some(4)
    } else {
        None
    }
}

fn read_color(data: &[u8], index: &mut usize, pixel_depth: u8) -> (r: Result<Rgba, TgaError>)
    requires
        *old(index) <= data@.len(),
    ensures
        match spec_read_color(data@, *old(index) as int, pixel_depth) {
            Ok((c, j)) => r == Ok::<Rgba, TgaError>(c) && *final(index) == j,
            Err(e) => r == Err::<Rgba, TgaError>(e),
        },
        *final(index) <= data@.len(),
{
    if pixel_depth == 15 || pixel_depth == 16 {
        let value = read_u16(data, index)?;
        let b = ((value & 0x1f) as u8) << 3u8;
        let g = (((value >> 5u16) & 0x1f) as u8) << 3u8;
        let r = (((value >> 10u16) & 0x1f) as u8) << 3u8;
        let a: u8 = if pixel_depth == 16 && value & 0x8000 == 0 { 0 } else { 255 };
        Ok(Rgba::from_rgba_unmultiplied(r, g, b, a))
    } else if pixel_depth == 24 {
        if data.len() - *index < 3 {
            return Err(TgaError::UnexpectedEnd);
        }
        let b = read_u8(data, index)?;
        let g = read_u8(data, index)?;
        let r = read_u8(data, index)?;
        Ok(Rgba::from_rgb(r, g, b))
    } else if pixel_depth == 32 {
        if data.len() - *index < 4 {
            return Err(TgaError::UnexpectedEnd);
        }
        let b = read_u8(data, index)?;
        let g = read_u8(data, index)?;
        let r = read_u8(data, index)?;
        let a = read_u8(data, index)?;
        Ok(Rgba::from_rgba_unmultiplied(r, g, b, a))
    } else {
        Err(TgaError::UnsupportedColorDepth)
    }
}

#[verifier::loop_isolation(false)]
fn read_color_map(data: &[u8], index: &mut usize, header: TgaHeader) -> (r: Result<Option<Vec<Rgba>>, TgaError>)
    requires
        *old(index) <= data@.len(),
        header.color_map_length <= 0xffff,
    ensures
        match spec_color_map(data@, *old(index) as int, header) {
            Ok((cmap, j)) => r matches Ok(m) && *final(index) == j && match cmap {
                Some(colors) => m matches Some(v) && v@ == colors,
                None => m is None,
            },
            Err(e) => r == Err::<Option<Vec<Rgba>>, TgaError>(e),
        },
        *final(index) <= data@.len(),
{
    if header.color_map_type == 0 {
        if header.image_type == 1 || header.image_type == 9 {
            return Err(TgaError::MissingColorMap);
        }
        return Ok(None);
    }
    if header.color_map_type != 1 {
        return Err(TgaError::UnsupportedColorMapType);
    }
    if !(header.image_type == 1 || header.image_type == 9) {
        return Err(TgaError::UnusedColorMap);
    }
    let bytes_per_entry = match bytes_per_pixel(header.color_map_entry_depth) {
        Some(n) => n,
        None => return Err(TgaError::UnsupportedColorMapDepth),
    };
    let total_bytes = header.color_map_length * bytes_per_entry;
    if total_bytes > data.len() - *index {
        return Err(TgaError::ColorMapTruncated);
    }
    let ghost start = *index as int;
    let mut colors: Vec<Rgba> = Vec::new();
    let mut k: usize = 0;
    while k < header.color_map_length
        invariant
            k <= header.color_map_length,
            *index <= data@.len(),
            spec_read_colors(data@, start, header.color_map_entry_depth, k as nat) == Ok::<(Seq<Rgba>, int), TgaError>((colors@, *index as int)),
        decreases header.color_map_length - k,
    {
        let c = match read_color(data, index, header.color_map_entry_depth) {
            Ok(c) => c,
            Err(e) => {
                proof {
                    assert(spec_read_colors(data@, start, header.color_map_entry_depth, (k + 1) as nat) == Err::<(Seq<Rgba>, int), TgaError>(e));
                    lemma_read_colors_err(data@, start, header.color_map_entry_depth, (k + 1) as nat, header.color_map_length as nat);
                }
                return Err(e);
            },
        };
        colors.push(c);
        k = k + 1;
    }
    Ok(Some(colors))
}

fn read_pixel(data: &[u8], index: &mut usize, header: TgaHeader, color_map: &Option<Vec<Rgba>>) -> (r: Result<Rgba, TgaError>)
    requires
        *old(index) <= data@.len(),
    ensures
        match spec_read_pixel(data@, *old(index) as int, header, match color_map { Some(v) => Some(v@), None => None }) {
            Ok((c, j)) => r == Ok::<Rgba, TgaError>(c) && *final(index) == j,
            Err(e) => r == Err::<Rgba, TgaError>(e),
        },
        *final(index) <= data@.len(),
{
    if header.image_type == 1 || header.image_type == 9 {
        let raw_index: u16 = if header.pixel_depth == 8 {
            read_u8(data, index)? as u16
        } else if header.pixel_depth == 16 {
            read_u16(data, index)?
        } else {
            return Err(TgaError::UnsupportedIndexedDepth);
        };
        if raw_index < header.color_map_first_entry {
            return Err(TgaError::PaletteIndexBeforeFirst);
        }
        let palette_index = (raw_index - header.color_map_first_entry) as usize;
        match color_map {
            Some(colors) => {
                if palette_index < colors.len() {
                    Ok(colors[palette_index])
                } else {
                    Err(TgaError::PaletteIndexOutOfBounds)
                }
            },
            None => Err(TgaError::PaletteIndexOutOfBounds),
        }
    } else if header.image_type == 2 || header.image_type == 10 {
        read_color(data, index, header.pixel_depth)
    } else if header.image_type == 3 || header.image_type == 11 {
        if header.pixel_depth == 8 {
            let value = read_u8(data, index)?;
            Ok(Rgba::from_gray(value))
        } else {
            Err(TgaError::UnsupportedGrayscaleDepth)
        }
    } else {
        Err(TgaError::UnsupportedImageType)
    }
}

/// The colours of an optional colour map, as a sequence.
pub open spec fn cmap_view(color_map: &Option<Vec<Rgba>>) -> Option<Seq<Rgba>> {
    match color_map {
        Some(v) => Some(v@),
        None => None,
    }
}

/// Reads `n` pixels from `*index` and appends them to `out`.
#[verifier::loop_isolation(false)]
fn read_raw_pixels(
    data: &[u8],
    index: &mut usize,
    header: TgaHeader,
    color_map: &Option<Vec<Rgba>>,
    n: usize,
    out: &mut Vec<Rgba>,
) -> (r: Result<(), TgaError>)
    requires
        *old(index) <= data@.len(),
    ensures
        match spec_read_pixels(data@, *old(index) as int, header, cmap_view(color_map), n as nat) {
            Ok((s, j)) => r is Ok && final(out)@ == old(out)@ + s && *final(index) == j,
            Err(e) => r == Err::<(), TgaError>(e),
        },
        *final(index) <= data@.len(),
{
    let ghost i0 = *index as int;
    let ghost have = out@;
    let ghost cmap = cmap_view(color_map);
    let mut k: usize = 0;
    assert(out@.subrange(have.len() as int, out@.len() as int) =~= Seq::<Rgba>::empty());
    while k < n
        invariant
            k <= n,
            *index <= data@.len(),
            out@.len() == have.len() + k,
            out@.subrange(0, have.len() as int) == have,
            spec_read_pixels(data@, i0, header, cmap, k as nat) == Ok::<(Seq<Rgba>, int), TgaError>((out@.subrange(have.len() as int, out@.len() as int), *index as int)),
        decreases n - k,
    {
        let p = match read_pixel(data, index, header, color_map) {
            Ok(p) => p,
            Err(e) => {
                proof {
                    assert(spec_read_pixels(data@, i0, header, cmap, (k + 1) as nat) == Err::<(Seq<Rgba>, int), TgaError>(e));
                    lemma_read_pixels_err(data@, i0, header, cmap, (k + 1) as nat, n as nat);
                }
                return Err(e);
            },
        };
        let ghost before = out@;
        out.push(p);
        k = k + 1;
        assert(out@.subrange(have.len() as int, out@.len() as int) =~= before.subrange(have.len() as int, before.len() as int).push(p));
        assert(out@.subrange(0, have.len() as int) =~= before.subrange(0, have.len() as int));
    }
    assert(out@ =~= have + out@.subrange(have.len() as int, out@.len() as int));
    Ok(())
}

/// Reads run-length packets from `*index` until `pixel_count` pixels are known.
#[verifier::loop_isolation(false)]
fn read_rle_pixels(
    data: &[u8],
    index: &mut usize,
    header: TgaHeader,
    color_map: &Option<Vec<Rgba>>,
    pixel_count: usize,
) -> (r: Result<Vec<Rgba>, TgaError>)
    requires
        *old(index) <= data@.len(),
    ensures
        match spec_read_rle(data@, *old(index) as int, header, cmap_view(color_map), Seq::empty(), pixel_count as nat) {
            Ok(s) => r matches Ok(v) && v@ == s,
            Err(e) => r == Err::<Vec<Rgba>, TgaError>(e),
        },
{
    let ghost i0 = *index as int;
    let ghost cmap = cmap_view(color_map);
    let ghost total = pixel_count as nat;
    let mut source: Vec<Rgba> = Vec::new();
    while source.len() < pixel_count
        invariant
            *index <= data@.len(),
            source@.len() <= pixel_count,
            spec_read_rle(data@, i0, header, cmap, Seq::empty(), total) == spec_read_rle(data@, *index as int, header, cmap, source@, total),
        decreases pixel_count - source.len(),
    {
        let packet = match read_u8(data, index) {
            Ok(p) => p,
            Err(_) => return Err(TgaError::RlePacketTruncated),
        };
        assert(packet & 0x7fu8 <= 0x7fu8) by (bit_vector);
        let count = (packet & 0x7f) as usize + 1;
        if count > pixel_count - source.len() {
            return Err(TgaError::RlePacketExceedsImage);
        }
        if packet & 0x80 != 0 {
            let p = read_pixel(data, index, header, color_map)?;
            let ghost have = source@;
            let mut j: usize = 0;
            while j < count
                invariant
                    j <= count,
                    source@ == have + Seq::new(j as nat, |q: int| p),
                decreases count - j,
            {
                source.push(p);
                j = j + 1;
                assert(source@ =~= have + Seq::new(j as nat, |q: int| p));
            }
        } else {
            let ghost i1 = *index as int;
            read_raw_pixels(data, index, header, color_map, count, &mut source)?;
            proof {
                lemma_read_pixels_len(data@, i1, header, cmap, count as nat);
            }
        }
    }
    Ok(source)
}

/// Re-orders file-order pixels so that the first one is the top-left one.
#[verifier::loop_isolation(false)]
fn orient_pixels(source: &Vec<Rgba>, header: TgaHeader) -> (pixels: Vec<Rgba>)
    requires
        source@.len() == header.width * header.height,
    ensures
        pixels@.len() == header.width * header.height,
        forall|y: int, x: int|
            0 <= y < header.height && 0 <= x < header.width ==> #[trigger] pixels@[row_major(header.width as int, y, x)]
                == spec_oriented_pixel(source@, header, y, x),
{
    let ghost src = source@;
    let source_len = source.len();
    let w = header.width;
    let h = header.height;
    let top_origin = header.image_descriptor & 0x20 != 0;
    let right_origin = header.image_descriptor & 0x10 != 0;
    let mut pixels: Vec<Rgba> = Vec::new();
    let mut y: usize = 0;
    while y < h
        invariant
            y <= h,
            w == header.width,
            h == header.height,
            src == source@,
            src.len() == w * h,
            top_origin == (header.image_descriptor & 0x20u8 != 0),
            right_origin == (header.image_descriptor & 0x10u8 != 0),
            pixels@.len() == y * w,
            forall|yy: int, xx: int|
                0 <= yy < y && 0 <= xx < w ==> #[trigger] pixels@[row_major(w as int, yy, xx)] == spec_oriented_pixel(src, header, yy, xx),
        decreases h - y,
    {
        let mut x: usize = 0;
        while x < w
            invariant
                y < h,
                x <= w,
                w == header.width,
                h == header.height,
                src == source@,
                src.len() == w * h,
                top_origin == (header.image_descriptor & 0x20u8 != 0),
                right_origin == (header.image_descriptor & 0x10u8 != 0),
                pixels@.len() == y * w + x,
                forall|yy: int, xx: int|
                    0 <= yy < y && 0 <= xx < w ==> #[trigger] pixels@[row_major(w as int, yy, xx)] == spec_oriented_pixel(src, header, yy, xx),
                forall|xx: int| 0 <= xx < x ==> #[trigger] pixels@[row_major(w as int, y as int, xx)] == spec_oriented_pixel(src, header, y as int, xx),
            decreases w - x,
        {
            let sy = if top_origin { y } else { h - 1 - y };
            let sx = if right_origin { w - 1 - x } else { x };
            proof {
                lemma_row_major_bound(w as int, h as int, sy as int, sx as int);
                assert(sy * w <= sy * w + sx);
                assert(sy * w + sx < source@.len());
            }
            let ghost before = pixels@;
            pixels.push(source[sy * w + sx]);
            proof {
                assert(pixels@[row_major(w as int, y as int, x as int)] == spec_oriented_pixel(src, header, y as int, x as int));
                assert forall|yy: int, xx: int| 0 <= yy < y && 0 <= xx < w implies #[trigger] pixels@[row_major(w as int, yy, xx)] == spec_oriented_pixel(src, header, yy, xx) by {
                    lemma_row_before(w as int, yy, y as int, xx);
                    assert(before[row_major(w as int, yy, xx)] == spec_oriented_pixel(src, header, yy, xx));
                }
                assert forall|xx: int| 0 <= xx < x + 1 implies #[trigger] pixels@[row_major(w as int, y as int, xx)] == spec_oriented_pixel(src, header, y as int, xx) by {
                    if xx < x {
                        assert(before[row_major(w as int, y as int, xx)] == spec_oriented_pixel(src, header, y as int, xx));
                    }
                }
            }
            x = x + 1;
        }
        assert((y + 1) * w == y * w + w) by (nonlinear_arith);
        y = y + 1;
    }
    assert(h * w == w * h) by (nonlinear_arith);
    pixels
}

/// Decodes a TGA file: indexed, true-colour or grayscale pixels, raw or run-length encoded,
/// re-ordered so that the first pixel is the top-left one.
pub fn decode_tga(data: &[u8]) -> (r: Result<Image, TgaError>)
    ensures
        match tga_error(data@) {
            Some(e) => r == Err::<Image, TgaError>(e),
            None => r matches Ok(img) && tga_decodes_to(data@, img.width as int, img.height as int, img.pixels@),
        },
{
    if data.len() < 18 {
        return Err(TgaError::TooShort);
    }
    let header = TgaHeader {
        id_length: data[0] as usize,
        color_map_type: data[1],
        image_type: data[2],
        color_map_first_entry: data[3] as u16 + (data[4] as u16) * 256,
        color_map_length: data[5] as usize + (data[6] as usize) * 256,
        color_map_entry_depth: data[7],
        width: data[12] as usize + (data[13] as usize) * 256,
        height: data[14] as usize + (data[15] as usize) * 256,
        pixel_depth: data[16],
        image_descriptor: data[17],
    };
    assert(header == spec_header(data@));
    if header.width == 0 || header.height == 0 {
        return Err(TgaError::ZeroDimensions);
    }
    let mut index: usize = 18 + header.id_length;
    if index > data.len() {
        return Err(TgaError::ImageIdTruncated);
    }
    let color_map = read_color_map(data, &mut index, header)?;
    let w = header.width;
    let h = header.height;
    assert(w * h <= 0xffff * 0xffff) by (nonlinear_arith)
        requires
            w <= 0xffff,
            h <= 0xffff,
    ;
    let pixel_count = w * h;
    let ghost pixels_start = index as int;
    let source: Vec<Rgba> = if header.image_type == 1 || header.image_type == 2 || header.image_type == 3 {
        let mut source: Vec<Rgba> = Vec::new();
        read_raw_pixels(data, &mut index, header, &color_map, pixel_count, &mut source)?;
        proof {
            lemma_read_pixels_len(data@, pixels_start, header, cmap_view(&color_map), pixel_count as nat);
        }
        source
    } else if 9 <= header.image_type && header.image_type <= 11 {
        let source = read_rle_pixels(data, &mut index, header, &color_map, pixel_count)?;
        proof {
            lemma_read_rle_len(data@, pixels_start, header, cmap_view(&color_map), Seq::empty(), pixel_count as nat);
        }
        source
    } else {
        return Err(TgaError::UnsupportedImageType);
    };
    let pixels = orient_pixels(&source, header);
    Ok(Image { width: w, height: h, pixels })
}

/// Why a `.pal` palette could not be decoded.
#[derive(Clone, Copy, Debug, PartialEq, Eq, Structural)]
pub enum PaletteError {
    /// Fewer than the four bytes of the colour count.
    TooShort,
    /// The declared size does not fit in memory.
    SizeOverflow,
    /// Fewer colour bytes than the count declares.
    Truncated,
}

/// Little-endian 32-bit value at `i`.
pub open spec fn le32(data: Seq<u8>, i: int) -> int {
    data[i] as int + 256 * (data[i + 1] as int) + 65536 * (data[i + 2] as int) + 16777216 * (data[i + 3] as int)
}

/// The `k`-th palette colour: four bytes, red first, after the 4-byte count.
pub open spec fn spec_palette_color(data: Seq<u8>, k: int) -> Rgba {
    Rgba { r: data[4 + 4 * k], g: data[5 + 4 * k], b: data[6 + 4 * k], a: data[7 + 4 * k] }
}

/// What decoding `data` as a palette gives.
pub open spec fn spec_palette(data: Seq<u8>) -> Result<Seq<Rgba>, PaletteError> {
    if data.len() < 4 {
        Err(PaletteError::TooShort)
    } else if 4 + 4 * le32(data, 0) > usize::MAX {
        Err(PaletteError::SizeOverflow)
    } else if data.len() < 4 + 4 * le32(data, 0) {
        Err(PaletteError::Truncated)
    } else {
        Ok(Seq::new(le32(data, 0) as nat, |k: int| spec_palette_color(data, k)))
    }
}

/// Decodes a palette: a little-endian colour count, then that many RGBA colours.
pub fn decode_palette(data: &[u8]) -> (r: Result<Vec<Rgba>, PaletteError>)
    ensures
        data@.len() < 4 ==> r == Err::<Vec<Rgba>, PaletteError>(PaletteError::TooShort),
        data@.len() >= 4 && 4 + 4 * le32(data@, 0) > usize::MAX ==> r == Err::<Vec<Rgba>, PaletteError>(PaletteError::SizeOverflow),
        data@.len() >= 4 && 4 + 4 * le32(data@, 0) <= usize::MAX && data@.len() < 4 + 4 * le32(data@, 0)
            ==> r == Err::<Vec<Rgba>, PaletteError>(PaletteError::Truncated),
        data@.len() >= 4 && 4 + 4 * le32(data@, 0) <= data@.len() ==> (r matches Ok(colors) && colors@.len() == le32(data@, 0)
            && forall|k: int| 0 <= k < colors@.len() ==> #[trigger] colors@[k] == spec_palette_color(data@, k)),
        match spec_palette(data@) {
            Ok(colors) => r matches Ok(v) && v@ == colors,
            Err(e) => r == Err::<Vec<Rgba>, PaletteError>(e),
        },
{
    if data.len() < 4 {
        return Err(PaletteError::TooShort);
    }
    let count: u64 = data[0] as u64 + (data[1] as u64) * 256 + (data[2] as u64) * 65536 + (data[3] as u64) * 16777216;
    if count > ((usize::MAX - 4) / 4) as u64 {
        return Err(PaletteError::SizeOverflow);
    }
    let count = count as usize;
    let expected_len = 4 + count * 4;
    if data.len() < expected_len {
        return Err(PaletteError::Truncated);
    }
    let mut colors: Vec<Rgba> = Vec::new();
    let mut k: usize = 0;
    while k < count
        invariant
            k <= count,
            4 + count * 4 <= data@.len(),
            4 + count * 4 <= usize::MAX,
            count == le32(data@, 0),
            colors@.len() == k,
            forall|q: int| 0 <= q < k ==> #[trigger] colors@[q] == spec_palette_color(data@, q),
        decreases count - k,
    {
        let base = 4 + k * 4;
        colors.push(Rgba::from_rgba_unmultiplied(data[base], data[base + 1], data[base + 2], data[base + 3]));
        k = k + 1;
    }
    assert(colors@ =~= Seq::new(le32(data@, 0) as nat, |q: int| spec_palette_color(data@, q)));
    Ok(colors)
}

/// One run of palette-indexed pixels: skip `offset` columns, then draw `colors`.
pub struct DrawInstruction {
    pub offset: u8,
    pub colors: Vec<u8>,
}

/// The draw instructions of one pixel row.
pub struct Line {
    pub draw_instructions: Vec<DrawInstruction>,
}

/// One frame of a Zoo Tycoon animation: one `Line` per pixel row.
pub struct Frame {
    pub pixel_height: u16,
    pub pixel_width: u16,
    pub lines: Vec<Line>,
}

/// Why an animation frame could not be turned into an image.
#[derive(Clone, Copy, Debug, PartialEq, Eq, Structural)]
pub enum FrameError {
    /// Width or height is zero.
    ZeroDimensions,
    /// The number of lines is not the frame height.
    LineCountMismatch,
    /// A draw instruction's skip overflows the column counter.
    OffsetOverflow,
    /// A pixel would land past the right edge of the frame.
    ExceedsWidth,
    /// A pixel names a palette entry that does not exist.
    MissingPaletteIndex,
}

/// Draws `colors[c..]` into row `y` from column `x`; the new pixels and the column after them.
pub open spec fn spec_draw_colors(px: Seq<Rgba>, w: int, y: int, x: int, colors: Seq<u8>, c: int, palette: Seq<Rgba>) -> Result<(Seq<Rgba>, int), FrameError>
    decreases colors.len() - c,
{
    if c >= colors.len() || c < 0 {
        Ok((px, x))
    } else if x >= w {
        Err(FrameError::ExceedsWidth)
    } else if colors[c] as int >= palette.len() {
        Err(FrameError::MissingPaletteIndex)
    } else {
        spec_draw_colors(px.update(row_major(w, y, x), palette[colors[c] as int]), w, y, x + 1, colors, c + 1, palette)
    }
}

/// Runs `instrs[k..]` on row `y` from column `x`.
pub open spec fn spec_draw_instructions(px: Seq<Rgba>, w: int, y: int, x: int, instrs: Seq<DrawInstruction>, k: int, palette: Seq<Rgba>) -> Result<Seq<Rgba>, FrameError>
    decreases instrs.len() - k,
{
    if k >= instrs.len() || k < 0 {
        Ok(px)
    } else if x + instrs[k].offset > usize::MAX {
        Err(FrameError::OffsetOverflow)
    } else {
        match spec_draw_colors(px, w, y, x + instrs[k].offset, instrs[k].colors@, 0, palette) {
            Err(e) => Err(e),
            Ok((px2, x2)) => spec_draw_instructions(px2, w, y, x2, instrs, k + 1, palette),
        }
    }
}

/// Runs the lines `lines[y..]`, each from column 0.
pub open spec fn spec_draw_lines(px: Seq<Rgba>, w: int, lines: Seq<Line>, y: int, palette: Seq<Rgba>) -> Result<Seq<Rgba>, FrameError>
    decreases lines.len() - y,
{
    if y >= lines.len() || y < 0 {
        Ok(px)
    } else {
        match spec_draw_instructions(px, w, y, 0, lines[y].draw_instructions@, 0, palette) {
            Err(e) => Err(e),
            Ok(px2) => spec_draw_lines(px2, w, lines, y + 1, palette),
        }
    }
}

/// What rasterising `frame` with `palette` gives: a transparent image with every draw
/// instruction applied, row by row.
pub open spec fn spec_frame_pixels(frame: &Frame, palette: Seq<Rgba>) -> Result<Seq<Rgba>, FrameError> {
    let w = frame.pixel_width as int;
    let h = frame.pixel_height as int;
    if w == 0 || h == 0 {
        Err(FrameError::ZeroDimensions)
    } else if frame.lines@.len() != h {
        Err(FrameError::LineCountMismatch)
    } else {
        spec_draw_lines(Seq::new((w * h) as nat, |i: int| Rgba { r: 0, g: 0, b: 0, a: 0 }), w, frame.lines@, 0, palette)
    }
}

#[verifier::loop_isolation(false)]
fn draw_colors(pixels: &mut Vec<Rgba>, w: usize, h: usize, y: usize, x: usize, colors: &Vec<u8>, palette: &[Rgba]) -> (r: Result<usize, FrameError>)
    requires
        y < h,
        old(pixels)@.len() == w * h,
    ensures
        match spec_draw_colors(old(pixels)@, w as int, y as int, x as int, colors@, 0, palette@) {
            Ok((px, x2)) => r matches Ok(v) && v as int == x2 && final(pixels)@ == px,
            Err(e) => r == Err::<usize, FrameError>(e),
        },
        final(pixels)@.len() == w * h,
{
    let ghost px0 = pixels@;
    let ghost x0 = x as int;
    let pixel_len = pixels.len();
    let mut x = x;
    let mut c: usize = 0;
    while c < colors.len()
        invariant
            c <= colors@.len(),
            pixels@.len() == w * h,
            c > 0 ==> x <= w,
            spec_draw_colors(px0, w as int, y as int, x0, colors@, 0, palette@) == spec_draw_colors(pixels@, w as int, y as int, x as int, colors@, c as int, palette@),
        decreases colors@.len() - c,
    {
        if x >= w {
            return Err(FrameError::ExceedsWidth);
        }
        let palette_index = colors[c] as usize;
        if palette_index >= palette.len() {
            return Err(FrameError::MissingPaletteIndex);
        }
        proof {
            lemma_row_major_bound(w as int, h as int, y as int, x as int);
        }
        pixels.set(y * w + x, palette[palette_index]);
        x = x + 1;
        c = c + 1;
    }
    Ok(x)
}

/// Rasterises one animation frame: every pixel starts transparent, then each line's draw
/// instructions skip columns and paint palette colours left to right.
#[verifier::loop_isolation(false)]
pub fn frame_to_color_image(frame: &Frame, palette: &[Rgba]) -> (r: Result<Image, FrameError>)
    ensures
        match spec_frame_pixels(frame, palette@) {
            Ok(px) => r matches Ok(img) && img.width == frame.pixel_width && img.height == frame.pixel_height
                && img.pixels@ == px,
            Err(e) => r == Err::<Image, FrameError>(e),
        },
{
    let w = frame.pixel_width as usize;
    let h = frame.pixel_height as usize;
    if w == 0 || h == 0 {
        return Err(FrameError::ZeroDimensions);
    }
    if frame.lines.len() != h {
        return Err(FrameError::LineCountMismatch);
    }
    assert(w * h <= 0xffff * 0xffff) by (nonlinear_arith)
        requires
            w <= 0xffff,
            h <= 0xffff,
    ;
    let pixel_count = w * h;
    let mut pixels: Vec<Rgba> = Vec::new();
    let mut i: usize = 0;
    while i < pixel_count
        invariant
            i <= pixel_count,
            pixels@ =~= Seq::new(i as nat, |q: int| Rgba { r: 0, g: 0, b: 0, a: 0 }),
        decreases pixel_count - i,
    {
        pixels.push(Rgba::transparent());
        i = i + 1;
    }
    let ghost px0 = pixels@;
    let mut y: usize = 0;
    while y < h
        invariant
            y <= h,
            pixels@.len() == w * h,
            spec_frame_pixels(frame, palette@) == spec_draw_lines(pixels@, w as int, frame.lines@, y as int, palette@),
        decreases h - y,
    {
        let line = &frame.lines[y];
        let ghost line_start = pixels@;
        let mut x: usize = 0;
        let mut k: usize = 0;
        while k < line.draw_instructions.len()
            invariant
                k <= line.draw_instructions@.len(),
                pixels@.len() == w * h,
                spec_draw_instructions(line_start, w as int, y as int, 0, line.draw_instructions@, 0, palette@)
                    == spec_draw_instructions(pixels@, w as int, y as int, x as int, line.draw_instructions@, k as int, palette@),
            decreases line.draw_instructions@.len() - k,
        {
            let instruction = &line.draw_instructions[k];
            let offset = instruction.offset as usize;
            if x > usize::MAX - offset {
                return Err(FrameError::OffsetOverflow);
            }
            let ghost px_before = pixels@;
            let ghost x_before = x as int;
            x = x + offset;
            let x_after = draw_colors(&mut pixels, w, h, y, x, &instruction.colors, palette)?;
            proof {
                let instrs = line.draw_instructions@;
                assert(instrs[k as int] == *instruction);
                assert(spec_draw_colors(px_before, w as int, y as int, x_before + instrs[k as int].offset, instrs[k as int].colors@, 0, palette@)
                    == Ok::<(Seq<Rgba>, int), FrameError>((pixels@, x_after as int)));
            }
            x = x_after;
            k = k + 1;
        }
        y = y + 1;
    }
    Ok(Image { width: w, height: h, pixels })
}

/// Why an animation's frames could not be decoded.
#[derive(Clone, Copy, Debug, PartialEq, Eq, Structural)]
pub enum AnimationError {
    /// The palette file could not be decoded.
    Palette(PaletteError),
    /// The animation has no frames.
    NoFrames,
    /// The palette has no colours.
    EmptyPalette,
    /// A frame could not be rasterised.
    Frame(FrameError),
}

/// The first `n` frames rasterised, or the first error among them.
pub open spec fn spec_frames(frames: Seq<Frame>, palette: Seq<Rgba>, n: int) -> Result<Seq<Seq<Rgba>>, FrameError>
    decreases n,
{
    if n <= 0 {
        Ok(Seq::empty())
    } else {
        match spec_frames(frames, palette, n - 1) {
            Err(e) => Err(e),
            Ok(images) => match spec_frame_pixels(&frames[n - 1], palette) {
                Err(e) => Err(e),
                Ok(px) => Ok(images.push(px)),
            },
        }
    }
}

/// A failed rasterisation of the first `n` frames stays failed for any larger count.
pub proof fn lemma_frames_err(frames: Seq<Frame>, palette: Seq<Rgba>, n: int, m: int)
    requires
        n <= m,
        spec_frames(frames, palette, n) is Err,
    ensures
        spec_frames(frames, palette, m) == spec_frames(frames, palette, n),
    decreases m,
{
    if m > n {
        lemma_frames_err(frames, palette, n, m - 1);
    }
}

/// What decoding the palette and rasterising every frame with it gives.
pub open spec fn spec_animation(frames: Seq<Frame>, palette_data: Seq<u8>) -> Result<Seq<Seq<Rgba>>, AnimationError> {
    match spec_palette(palette_data) {
        Err(e) => Err(AnimationError::Palette(e)),
        Ok(palette) => {
            if frames.len() == 0 {
                Err(AnimationError::NoFrames)
            } else if palette.len() == 0 {
                Err(AnimationError::EmptyPalette)
            } else {
                match spec_frames(frames, palette, frames.len() as int) {
                    Err(e) => Err(AnimationError::Frame(e)),
                    Ok(images) => Ok(images),
                }
            }
        },
    }
}

/// Decodes the palette, then rasterises every frame of an animation with it.
pub fn decode_animation_frames(frames: &Vec<Frame>, palette_data: &[u8]) -> (r: Result<Vec<Image>, AnimationError>)
    ensures
        match spec_animation(frames@, palette_data@) {
            Err(e) => r == Err::<Vec<Image>, AnimationError>(e),
            Ok(images) => (r matches Ok(v) && v@.len() == images.len() && forall|i: int|
                #![trigger v@[i]]
                0 <= i < images.len() ==> v@[i].pixels@ == images[i] && v@[i].width == frames@[i].pixel_width
                    && v@[i].height == frames@[i].pixel_height),
        },
{
    let palette = match decode_palette(palette_data) {
        Ok(p) => p,
        Err(e) => return Err(AnimationError::Palette(e)),
    };
    if frames.len() == 0 {
        return Err(AnimationError::NoFrames);
    }
    if palette.len() == 0 {
        return Err(AnimationError::EmptyPalette);
    }
    let mut images: Vec<Image> = Vec::new();
    let ghost mut done: Seq<Seq<Rgba>> = Seq::empty();
    let mut k: usize = 0;
    while k < frames.len()
        invariant
            k <= frames@.len(),
            frames@.len() > 0,
            palette@.len() > 0,
            spec_palette(palette_data@) == Ok::<Seq<Rgba>, PaletteError>(palette@),
            spec_frames(frames@, palette@, k as int) == Ok::<Seq<Seq<Rgba>>, FrameError>(done),
            images@.len() == k,
            done.len() == k,
            forall|i: int|
                #![trigger images@[i]]
                0 <= i < k ==> images@[i].pixels@ == done[i] && images@[i].width == frames@[i].pixel_width
                    && images@[i].height == frames@[i].pixel_height,
        decreases frames@.len() - k,
    {
        let image = match frame_to_color_image(&frames[k], palette.as_slice()) {
            Ok(image) => image,
            Err(e) => {
                proof {
                    assert(spec_frames(frames@, palette@, (k + 1) as int) == Err::<Seq<Seq<Rgba>>, FrameError>(e));
                    lemma_frames_err(frames@, palette@, (k + 1) as int, frames@.len() as int);
                }
                return Err(AnimationError::Frame(e));
            },
        };
        proof {
            done = done.push(image.pixels@);
        }
        images.push(image);
        k = k + 1;
    }
    assert(spec_animation(frames@, palette_data@) == Ok::<Seq<Seq<Rgba>>, AnimationError>(done));
    Ok(images)
}

} // verus!
