use vstd::prelude::*;

use crate::shape::CommonCursorType;

verus! {

/// A set of pixel positions that a pattern test counts opaque pixels in.
#[derive(Debug, Clone, Copy, PartialEq, Eq, Structural)]
pub enum PixelRegion {
    /// Every position.
    All,
    /// `x <= width / 3` and `y <= height / 3`.
    TopLeftThird,
    /// Within two columns of `width / 2`.
    CenterColumn,
    /// Within two columns of `width / 2` or two rows of `height / 2`.
    CenterCross,
    /// `y < height / 2`.
    TopHalf,
    /// `y >= height / 2`.
    BottomHalf,
    /// The quarter-width by quarter-height zone at any of the four corners.
    Corners,
    /// Within two pixels of an outer edge.
    EdgeBand,
}

/// The distance between two integers.
pub open spec fn abs_diff(a: int, b: int) -> int {
    if a >= b { a - b } else { b - a }
}

/// Whether position (`x`, `y`) of a `w` by `h` image lies in `region`.
pub open spec fn in_region_spec(region: PixelRegion, w: int, h: int, x: int, y: int) -> bool {
    match region {
        PixelRegion::All => true,
        PixelRegion::TopLeftThird => x <= w / 3 && y <= h / 3,
        PixelRegion::CenterColumn => abs_diff(x, w / 2) <= 2,
        PixelRegion::CenterCross => abs_diff(x, w / 2) <= 2 || abs_diff(y, h / 2) <= 2,
        PixelRegion::TopHalf => y < h / 2,
        PixelRegion::BottomHalf => y >= h / 2,
        PixelRegion::Corners => (x < w / 4 && y < h / 4) || (x > 3 * w / 4 && y > 3 * h / 4) || (
        x < w / 4 && y > 3 * h / 4) || (x > 3 * w / 4 && y < h / 4),
        PixelRegion::EdgeBand => x < 2 || x > w - 3 || y < 2 || y > h - 3,
    }
}

/// Whether the pixel at column `x`, row `y` of a row-major RGBA buffer of
/// row length `w` lies inside `data` and has an alpha value above 128.
pub open spec fn is_opaque(data: Seq<u8>, w: int, x: int, y: int) -> bool {
    let idx = (y * w + x) * 4;
    idx + 3 < data.len() && data[idx + 3] > 128
}

/// Opaque pixels in `region` among the first `n` columns of row `y`.
pub open spec fn row_count(
    data: Seq<u8>,
    w: int,
    h: int,
    region: PixelRegion,
    y: int,
    n: int,
) -> int
    decreases n,
{
    if n <= 0 {
        0
    } else {
        row_count(data, w, h, region, y, n - 1) + if is_opaque(data, w, n - 1, y) && in_region_spec(
            region,
            w,
            h,
            n - 1,
            y,
        ) {
            1int
        } else {
            0int
        }
    }
}

/// Opaque pixels in `region` among the first `m` rows.
pub open spec fn rows_count(data: Seq<u8>, w: int, h: int, region: PixelRegion, m: int) -> int
    decreases m,
{
    if m <= 0 {
        0
    } else {
        rows_count(data, w, h, region, m - 1) + row_count(data, w, h, region, m - 1, w)
    }
}

/// Opaque pixels in `region` of a `w` by `h` image.
pub open spec fn opaque_count(data: Seq<u8>, w: int, h: int, region: PixelRegion) -> int {
    rows_count(data, w, h, region, h)
}

/// Whether `data` holds at least the `w * h * 4` bytes of a `w` by `h` image.
pub open spec fn full_buffer(data: Seq<u8>, w: int, h: int) -> bool {
    data.len() >= w * h * 4
}

fn in_region(region: PixelRegion, w: u32, h: u32, x: u32, y: u32) -> (r: bool)
    ensures
        r == in_region_spec(region, w as int, h as int, x as int, y as int),
{
    let (x, y, w, h) = (x as i64, y as i64, w as i64, h as i64);
    match region {
        PixelRegion::All => true,
        PixelRegion::TopLeftThird => x <= w / 3 && y <= h / 3,
        PixelRegion::CenterColumn => -2 <= x - w / 2 && x - w / 2 <= 2,
        PixelRegion::CenterCross => (-2 <= x - w / 2 && x - w / 2 <= 2) || (-2 <= y - h / 2 && y - h
            / 2 <= 2),
        PixelRegion::TopHalf => y < h / 2,
        PixelRegion::BottomHalf => y >= h / 2,
        PixelRegion::Corners => (x < w / 4 && y < h / 4) || (x > 3 * w / 4 && y > 3 * h / 4) || (x
            < w / 4 && y > 3 * h / 4) || (x > 3 * w / 4 && y < h / 4),
        PixelRegion::EdgeBand => x < 2 || x > w - 3 || y < 2 || y > h - 3,
    }
}

/// Whether `data` is shorter than `w * h * 4` bytes, computed without overflow.
fn is_short(data: &[u8], w: u32, h: u32) -> (r: bool)
    ensures
        r == !full_buffer(data@, w as int, h as int),
{
    proof {
        assert((w as int) * (h as int) <= 0xffff_ffffint * 0xffff_ffffint) by (nonlinear_arith)
            requires
                0 <= w <= 0xffff_ffff,
                0 <= h <= 0xffff_ffff,
        ;
    }
    let pixels: u64 = (w as u64) * (h as u64);
    let len: u64 = data.len() as u64;
    proof {
        assert(len / 4 < pixels <==> len < pixels * 4) by (nonlinear_arith);
    }
    len / 4 < pixels
}

/// Counts the opaque pixels of `region`; a pixel whose bytes lie past the end
/// of `data` is skipped.
fn count_opaque(data: &[u8], w: u32, h: u32, region: PixelRegion) -> (r: u64)
    requires
        full_buffer(data@, w as int, h as int),
    ensures
        r == opaque_count(data@, w as int, h as int, region),
{
    let ghost wi = w as int;
    let ghost hi = h as int;
    let len: usize = data.len();
    let mut count: u64 = 0;
    let mut y: u32 = 0;
    while y < h
        invariant
            full_buffer(data@, wi, hi),
            len == data@.len(),
            wi == w,
            hi == h,
            y <= h,
            count == rows_count(data@, wi, hi, region, y as int),
            count <= (y as int) * wi,
        decreases h - y,
    {
        let mut x: u32 = 0;
        while x < w
            invariant
                full_buffer(data@, wi, hi),
                len == data@.len(),
                wi == w,
                hi == h,
                y < h,
                x <= w,
                count == rows_count(data@, wi, hi, region, y as int) + row_count(
                    data@,
                    wi,
                    hi,
                    region,
                    y as int,
                    x as int,
                ),
                count <= (y as int) * wi + x,
            decreases w - x,
        {
            let ghost yi = y as int;
            let ghost xi = x as int;
            proof {
                assert(yi * wi + xi < wi * hi) by (nonlinear_arith)
                    requires
                        0 <= xi < wi,
                        0 <= yi < hi,
                ;
                assert((yi * wi + xi) * 4 + 3 < wi * hi * 4) by (nonlinear_arith)
                    requires
                        yi * wi + xi < wi * hi,
                ;
                assert(0 <= yi * wi) by (nonlinear_arith)
                    requires
                        0 <= yi,
                        0 <= wi,
                ;
            }
            let idx: usize = ((y as usize) * (w as usize) + (x as usize)) * 4;
            if idx + 3 < len {
                if data[idx + 3] > 128 && in_region(region, w, h, x, y) {
                    count = count + 1;
                }
            }
            x = x + 1;
        }
        proof {
            assert((y as int) * wi + wi == (y as int + 1) * wi) by (nonlinear_arith);
        }
        y = y + 1;
    }
    count
}


/// Arrow: more than 30% of the opaque pixels lie in the top-left third.
pub open spec fn arrow_pattern(data: Seq<u8>, w: int, h: int) -> bool {
    let total = opaque_count(data, w, h, PixelRegion::All);
    let top_left = opaque_count(data, w, h, PixelRegion::TopLeftThird);
    full_buffer(data, w, h) && total > 0 && 10 * top_left > 3 * total
}

/// I-beam: more than 60% of the opaque pixels lie within two columns of the center.
pub open spec fn ibeam_pattern(data: Seq<u8>, w: int, h: int) -> bool {
    let total = opaque_count(data, w, h, PixelRegion::All);
    let column = opaque_count(data, w, h, PixelRegion::CenterColumn);
    full_buffer(data, w, h) && total > 0 && 10 * column > 6 * total
}

/// Crosshair: more than 50% of the opaque pixels lie on the center cross.
pub open spec fn crosshair_pattern(data: Seq<u8>, w: int, h: int) -> bool {
    let total = opaque_count(data, w, h, PixelRegion::All);
    let cross = opaque_count(data, w, h, PixelRegion::CenterCross);
    full_buffer(data, w, h) && total > 0 && 2 * cross > total
}

/// Pointing hand: the bottom half holds more opaque pixels than the top half,
/// and more than 50.
pub open spec fn hand_pattern(data: Seq<u8>, w: int, h: int) -> bool {
    let top = opaque_count(data, w, h, PixelRegion::TopHalf);
    let bottom = opaque_count(data, w, h, PixelRegion::BottomHalf);
    full_buffer(data, w, h) && bottom > top && bottom > 50
}

/// Resize: more than 20 opaque pixels, of which more than 30% lie in the
/// corner zones or more than 60% in the edge band.
pub open spec fn resize_pattern(data: Seq<u8>, w: int, h: int) -> bool {
    let total = opaque_count(data, w, h, PixelRegion::All);
    let corner = opaque_count(data, w, h, PixelRegion::Corners);
    let edge = opaque_count(data, w, h, PixelRegion::EdgeBand);
    full_buffer(data, w, h) && total > 20 && (10 * corner > 3 * total || 10 * edge > 6 * total)
}

/// Size gate of the arrow test.
pub open spec fn arrow_gate(w: int, h: int) -> bool {
    w <= 40 && h <= 40
}

/// Size gate of the I-beam test: thin and tall.
pub open spec fn ibeam_gate(w: int, h: int) -> bool {
    w < h && w <= 20 && h >= 20
}

/// Size gate of the crosshair test: nearly square.
pub open spec fn crosshair_gate(w: int, h: int) -> bool {
    abs_diff(w, h) <= 5 && 20 <= w <= 40
}

/// Size gate of the pointing-hand test.
pub open spec fn hand_gate(w: int, h: int) -> bool {
    20 <= w <= 40 && 20 <= h <= 40
}

/// Size gate of the resize test.
pub open spec fn resize_gate(w: int, h: int) -> bool {
    16 <= w <= 40 && 16 <= h <= 40
}

/// The shape of the first test, in the order arrow, I-beam, crosshair,
/// pointing hand, resize, whose size gate and pattern both hold.
pub open spec fn detect_spec(data: Seq<u8>, w: int, h: int) -> Option<CommonCursorType> {
    if arrow_gate(w, h) && arrow_pattern(data, w, h) {
        Some(CommonCursorType::Arrow)
    } else if ibeam_gate(w, h) && ibeam_pattern(data, w, h) {
        Some(CommonCursorType::IBeam)
    } else if crosshair_gate(w, h) && crosshair_pattern(data, w, h) {
        Some(CommonCursorType::Crosshair)
    } else if hand_gate(w, h) && hand_pattern(data, w, h) {
        Some(CommonCursorType::PointingHand)
    } else if resize_gate(w, h) && resize_pattern(data, w, h) {
        Some(CommonCursorType::ResizeNWSE)
    } else {
        None
    }
}

impl CommonCursorType {
    /// Classifies an RGBA image of `width` by `height` pixels, stored row by
    /// row from the top-left, as one of the common cursor shapes.
    pub fn detect_from_image(image_data: &[u8], width: u32, height: u32) -> (r: Option<Self>)
        ensures
            r == detect_spec(image_data@, width as int, height as int),
    {
        if width <= 40 && height <= 40 {
            if Self::matches_arrow_pattern(image_data, width, height) {
                return Some(CommonCursorType::Arrow);
            }
        }
        if width < height && width <= 20 && height >= 20 {
            if Self::matches_ibeam_pattern(image_data, width, height) {
                return Some(CommonCursorType::IBeam);
            }
        }
        if width >= 20 && width <= 40 && (width as i64 - height as i64 <= 5) && (height as i64
            - width as i64 <= 5) {
            if Self::matches_crosshair_pattern(image_data, width, height) {
                return Some(CommonCursorType::Crosshair);
            }
        }
        if width >= 20 && height >= 20 && width <= 40 && height <= 40 {
            if Self::matches_hand_pattern(image_data, width, height) {
                return Some(CommonCursorType::PointingHand);
            }
        }
        if width >= 16 && height >= 16 && width <= 40 && height <= 40 {
            if Self::matches_resize_pattern(image_data, width, height) {
                return Some(CommonCursorType::ResizeNWSE);
            }
        }
        None
    }

    fn matches_arrow_pattern(image_data: &[u8], width: u32, height: u32) -> (r: bool)
        ensures
            r == arrow_pattern(image_data@, width as int, height as int),
    {
        if is_short(image_data, width, height) {
            return false;
        }
        let total = count_opaque(image_data, width, height, PixelRegion::All);
        let top_left = count_opaque(image_data, width, height, PixelRegion::TopLeftThird);
        total > 0 && (top_left as u128) * 10 > (total as u128) * 3
    }

    fn matches_ibeam_pattern(image_data: &[u8], width: u32, height: u32) -> (r: bool)
        ensures
            r == ibeam_pattern(image_data@, width as int, height as int),
    {
        if is_short(image_data, width, height) {
            return false;
        }
        let total = count_opaque(image_data, width, height, PixelRegion::All);
        let column = count_opaque(image_data, width, height, PixelRegion::CenterColumn);
        total > 0 && (column as u128) * 10 > (total as u128) * 6
    }

    fn matches_crosshair_pattern(image_data: &[u8], width: u32, height: u32) -> (r: bool)
        ensures
            r == crosshair_pattern(image_data@, width as int, height as int),
    {
        if is_short(image_data, width, height) {
            return false;
        }
        let total = count_opaque(image_data, width, height, PixelRegion::All);
        let cross = count_opaque(image_data, width, height, PixelRegion::CenterCross);
        total > 0 && (cross as u128) * 2 > total as u128
    }

    fn matches_hand_pattern(image_data: &[u8], width: u32, height: u32) -> (r: bool)
        ensures
            r == hand_pattern(image_data@, width as int, height as int),
    {
        if is_short(image_data, width, height) {
            return false;
        }
        let top = count_opaque(image_data, width, height, PixelRegion::TopHalf);
        let bottom = count_opaque(image_data, width, height, PixelRegion::BottomHalf);
        bottom > top && bottom > 50
    }

    fn matches_resize_pattern(image_data: &[u8], width: u32, height: u32) -> (r: bool)
        ensures
            r == resize_pattern(image_data@, width as int, height as int),
    {
        if is_short(image_data, width, height) {
            return false;
        }
        let total = count_opaque(image_data, width, height, PixelRegion::All);
        let corner = count_opaque(image_data, width, height, PixelRegion::Corners);
        let edge = count_opaque(image_data, width, height, PixelRegion::EdgeBand);
        total > 20 && ((corner as u128) * 10 > (total as u128) * 3 || (edge as u128) * 10 > (
        total as u128) * 6)
    }
}

/// Every alpha byte of `data` is zero.
pub open spec fn all_transparent(data: Seq<u8>) -> bool {
    forall|i: int| 0 <= i < data.len() && i % 4 == 3 ==> data[i] == 0
}

proof fn lemma_row_count_zero(
    data: Seq<u8>,
    w: int,
    h: int,
    region: PixelRegion,
    y: int,
    n: int,
)
    requires
        all_transparent(data),
        w >= 0,
        y >= 0,
    ensures
        row_count(data, w, h, region, y, n) == 0,
    decreases n,
{
    if n > 0 {
        lemma_row_count_zero(data, w, h, region, y, n - 1);
        let k = y * w + (n - 1);
        assert(k >= 0) by (nonlinear_arith)
            requires
                y >= 0,
                w >= 0,
                n >= 1,
                k == y * w + (n - 1),
        ;
        assert((k * 4 + 3) % 4 == 3) by (nonlinear_arith)
            requires
                k >= 0,
        ;
        assert(!is_opaque(data, w, n - 1, y));
    }
}

proof fn lemma_opaque_count_zero(data: Seq<u8>, w: int, h: int, region: PixelRegion, m: int)
    requires
        all_transparent(data),
        w >= 0,
    ensures
        rows_count(data, w, h, region, m) == 0,
    decreases m,
{
    if m > 0 {
        lemma_opaque_count_zero(data, w, h, region, m - 1);
        lemma_row_count_zero(data, w, h, region, m - 1, w);
    }
}

/// An image whose every alpha value is zero is never classified: each
/// pattern test needs at least one opaque pixel.
pub proof fn lemma_transparent_is_undetected(data: Seq<u8>, width: u32, height: u32)
    requires
        all_transparent(data),
    ensures
        detect_spec(data, width as int, height as int) is None,
{
    let (w, h) = (width as int, height as int);
    lemma_opaque_count_zero(data, w, h, PixelRegion::All, h);
    lemma_opaque_count_zero(data, w, h, PixelRegion::BottomHalf, h);
}

/// A buffer shorter than `width * height * 4` bytes is never classified.
pub proof fn lemma_short_buffer_is_undetected(data: Seq<u8>, width: u32, height: u32)
    requires
        data.len() < (width as int) * (height as int) * 4,
    ensures
        detect_spec(data, width as int, height as int) is None,
{
}

/// The arrow test comes first: where its size gate and pattern hold, the
/// image is an arrow, whatever the later tests would say of it.
pub proof fn lemma_arrow_takes_priority(data: Seq<u8>, width: u32, height: u32)
    requires
        arrow_gate(width as int, height as int),
        arrow_pattern(data, width as int, height as int),
    ensures
        detect_spec(data, width as int, height as int) == Some(CommonCursorType::Arrow),
{
}

/// Detection reports every resize shape as the diagonal one: the horizontal
/// resize shape is never its result.
pub proof fn lemma_detect_never_horizontal_resize(data: Seq<u8>, width: u32, height: u32)
    ensures
        detect_spec(data, width as int, height as int) != Some(CommonCursorType::ResizeEW),
{
}

} // verus!
