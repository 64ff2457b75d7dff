//! Where a picture goes in a terminal area when it is drawn with one cell for
//! every two pixel rows.
use vstd::prelude::*;

verus! {

/// How a picture is aligned across the width of its area.
#[derive(Debug, Clone, Copy, PartialEq, Eq, Structural)]
pub enum ImageAlignment {
    Left,
    Center,
    Right,
}

/// The cells that a picture covers: columns `ox` up to `x_end` and lines `oy`
/// up to `y_end` (ends excluded), relative to the area. The cell at `(x, y)`
/// shows the pixel at `(x - ox, 2 * (y - oy))`.
pub struct Placement {
    pub ox: u16,
    pub oy: u16,
    pub x_end: u16,
    pub y_end: u16,
}

/// Whether a picture must be scaled down to the area first: it is wider than
/// the area, or has more than twice as many rows as the area has lines.
pub fn needs_scaling(img_width: u32, img_height: u32, area_width: u16, area_height: u16) -> (r: bool)
    ensures
        r == (img_width > area_width || img_height / 2 > area_height),
{
    img_width > area_width as u32 || img_height / 2 > area_height as u32
}

/// What `image::imageops::resize` with `FilterType::Nearest` makes of the
/// RGBA picture of the given size whose pixels are the first
/// `4 * width * height` bytes of `raw`, scaled to the new size: the raw bytes
/// of the result.
pub uninterp spec fn nearest_resized(raw: Seq<u8>, width: u32, height: u32, new_width: u32, new_height: u32) -> Seq<u8>;

/// Scales an RGBA picture given by its raw bytes with `image`
/// (`ImageBuffer::from_raw`, `imageops::resize` with `FilterType::Nearest`,
/// `into_raw`). The result is named by `nearest_resized`; it is a new buffer
/// of the new size, four bytes per pixel. `from_raw` accepts the bytes as the
/// `requires` gives them; that the resampler never panics on pictures and
/// sizes of at least one pixel each way is not shown here.
#[verifier::external_body]
fn resize_rgba(raw: &Vec<u8>, width: u32, height: u32, new_width: u32, new_height: u32) -> (r: Vec<u8>)
    requires
        width >= 1,
        height >= 1,
        new_width >= 1,
        new_height >= 1,
        raw@.len() >= 4 * width * height,
        4 * new_width * new_height <= usize::MAX,
    ensures
        r@ == nearest_resized(raw@, width, height, new_width, new_height),
        r@.len() == 4 * new_width * new_height,
{
    let picture = image::RgbaImage::from_raw(width, height, raw.clone()).unwrap();
    image::imageops::resize(&picture, new_width, new_height, image::imageops::FilterType::Nearest).into_raw()
}

/// The picture to draw in an area: scaled to the area's width and twice its
/// height (`nearest_resized`) where it must be scaled down first
/// (`needs_scaling`), else the picture itself; with its width and height.
pub fn fit_to_area(raw: Vec<u8>, width: u32, height: u32, area_width: u16, area_height: u16) -> (r: (
    u32,
    u32,
    Vec<u8>,
))
    requires
        width >= 1,
        height >= 1,
        area_width >= 1,
        area_height >= 1,
        raw@.len() >= 4 * width * height,
        4 * area_width * (2 * area_height) <= usize::MAX,
    ensures
        if width > area_width || height / 2 > area_height {
            r.0 == area_width && r.1 == 2 * area_height && r.2@ == nearest_resized(
                raw@,
                width,
                height,
                area_width as u32,
                (2 * area_height) as u32,
            )
        } else {
            r.0 == width && r.1 == height && r.2@ == raw@
        },
{
    if needs_scaling(width, height, area_width, area_height) {
        let new_width = area_width as u32;
        let new_height = 2 * (area_height as u32);
        let scaled = resize_rgba(&raw, width, height, new_width, new_height);
        (new_width, new_height, scaled)
    } else {
        (width, height, raw)
    }
}

/// Integer division rounded toward zero, as Rust's `/` on `i32` does.
pub open spec fn div_toward_zero(a: int, b: int) -> int {
    if a >= 0 { a / b } else { -((-a) / b) }
}

pub open spec fn clamp_low(v: int, lo: int) -> int {
    if v < lo { lo } else { v }
}

pub open spec fn clamp_high(v: int, hi: int) -> int {
    if v > hi { hi } else { v }
}

/// The first column: the aligned offset, kept between 0 and the last column.
pub open spec fn spec_ox(area_width: u16, img_width: u32, alignment: ImageAlignment) -> int {
    let c = match alignment {
        ImageAlignment::Center => div_toward_zero(area_width - img_width, 2),
        ImageAlignment::Left => 0,
        ImageAlignment::Right => area_width - img_width,
    };
    clamp_low(clamp_high(c, area_width - 1), 0)
}

/// The number of lines the picture needs, cut to 16 bits.
pub open spec fn half_rows(img_height: u32) -> int {
    ((img_height / 2) % 0x10000) as int
}

/// Whether the placement's arithmetic stays in range, as drawing needs: the
/// area is not empty, the picture has no more lines than the area, and its
/// last column fits in 16 bits.
pub open spec fn placement_in_range(
    area_width: u16,
    area_height: u16,
    img_width: u32,
    img_height: u32,
    alignment: ImageAlignment,
) -> bool {
    &&& area_width >= 1
    &&& area_height >= 1
    &&& half_rows(img_height) <= area_height
    &&& spec_ox(area_width, img_width, alignment) + img_width % 0x10000 <= u16::MAX
}

/// The first column of a picture in an area (`spec_ox`).
fn first_column(area_width: u16, img_width: u32, alignment: ImageAlignment) -> (r: u16)
    requires
        area_width >= 1,
    ensures
        r == spec_ox(area_width, img_width, alignment),
{
    let aw = area_width as u32;
    let c: u32 = match alignment {
        ImageAlignment::Center => if aw >= img_width {
            (aw - img_width) / 2
        } else {
            0
        },
        ImageAlignment::Left => 0,
        ImageAlignment::Right => if aw >= img_width {
            aw - img_width
        } else {
            0
        },
    };
    let ox: u16 = if c > aw - 1 {
        area_width - 1
    } else {
        c as u16
    };
    ox
}

/// Whether `placement` can be asked to place such a picture in such an area.
pub fn placement_fits(
    area_width: u16,
    area_height: u16,
    img_width: u32,
    img_height: u32,
    alignment: ImageAlignment,
) -> (r: bool)
    ensures
        r == placement_in_range(area_width, area_height, img_width, img_height, alignment),
{
    if area_width == 0 || area_height == 0 {
        return false;
    }
    if (img_height / 2) % 0x10000 > area_height as u32 {
        return false;
    }
    let ox = first_column(area_width, img_width, alignment);
    ox as u32 + img_width % 0x10000 <= 0xFFFF
}

/// Where a picture goes in an area: centred, or at the left or right edge,
/// across the width (never starting left of the area or past its last
/// column), and centred down the height; at most up to the last column and
/// line but one.
pub fn placement(
    area_width: u16,
    area_height: u16,
    img_width: u32,
    img_height: u32,
    alignment: ImageAlignment,
) -> (r: Placement)
    requires
        placement_in_range(area_width, area_height, img_width, img_height, alignment),
    ensures
        r.ox == spec_ox(area_width, img_width, alignment),
        r.oy == clamp_high((area_height - half_rows(img_height)) / 2, area_height - 1),
        r.x_end == clamp_high(r.ox + img_width % 0x10000, area_width - 1),
        r.y_end == r.oy + clamp_high(half_rows(img_height), area_height - 1),
{
    let ox = first_column(area_width, img_width, alignment);
    let half: u32 = img_height / 2;
    let hr = #[verifier::truncate] (half as u16);
    assert(hr as u32 == half % 0x10000u32) by (bit_vector)
        requires
            hr == half as u16,
    ;
    let lines = (area_height - hr) / 2;
    let oy = if lines > area_height - 1 {
        area_height - 1
    } else {
        lines
    };
    let iw = #[verifier::truncate] (img_width as u16);
    assert(iw as u32 == img_width % 0x10000u32) by (bit_vector)
        requires
            iw == img_width as u16,
    ;
    let x_end = if ox + iw > area_width - 1 {
        area_width - 1
    } else {
        ox + iw
    };
    let tall = if hr > area_height - 1 {
        area_height - 1
    } else {
        hr
    };
    Placement { ox, oy, x_end, y_end: oy + tall }
}

} // verus!
