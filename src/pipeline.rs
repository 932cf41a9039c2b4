use vstd::prelude::*;
use crate::color::RGB;
use image::imageops::FilterType;
use image::metadata::Orientation;
use image::{DynamicImage, RgbImage};

verus! {

/// Why an image could not be turned into panel pixels.
#[derive(Debug, Clone, Copy, PartialEq, Eq, Structural)]
pub enum ConvertError {
    /// The source image has no pixels.
    EmptySource,
    /// Resizing did not give a 1200×1600 image.
    Geometry { width: u32, height: u32 },
}

/// Pixel `(x, y)` of a row-major image of width `w`.
pub open spec fn pixel_at(s: Seq<RGB<u8>>, w: int, x: int, y: int) -> RGB<u8> {
    s[y * w + x]
}

/// A `w`×`h` row-major image turned 90° clockwise: an `h`×`w` image whose
/// pixel `(h - 1 - y, x)` is the source's pixel `(x, y)`.
pub open spec fn rotated90(s: Seq<RGB<u8>>, w: int, h: int) -> Seq<RGB<u8>> {
    Seq::new((w * h) as nat, |i: int| pixel_at(s, w, i / h, h - 1 - i % h))
}

proof fn lemma_rotate_index(w: int, h: int, x: int, y: int)
    requires
        0 <= x < w,
        0 <= y < h,
    ensures
        0 <= (h - 1 - y) * w + x < w * h,
        0 <= x * h + y < w * h,
        (x * h + y) / h == x,
        (x * h + y) % h == y,
{
    vstd::arithmetic::div_mod::lemma_fundamental_div_mod_converse(x * h + y, h, x, y);
    assert(0 <= (h - 1 - y) * w + x < w * h) by (nonlinear_arith)
        requires
            0 <= x < w,
            0 <= y < h,
    ;
    assert(0 <= x * h + y < w * h) by (nonlinear_arith)
        requires
            0 <= x < w,
            0 <= y < h,
    ;
}

/// Turns a `w`×`h` row-major image 90° clockwise.
pub fn rotate90(pixels: &[RGB<u8>], w: usize, h: usize) -> (r: Vec<RGB<u8>>)
    requires
        pixels@.len() == w * h,
    ensures
        r@ == rotated90(pixels@, w as int, h as int),
{
    let n = pixels.len();
    let mut r: Vec<RGB<u8>> = Vec::with_capacity(n);
    let mut x: usize = 0;
    while x < w
        invariant
            pixels@.len() == w * h,
            w * h <= usize::MAX,
            x <= w,
            r@.len() == x * h,
            forall|i: int| 0 <= i < x * h ==> #[trigger] r@[i] == rotated90(pixels@, w as int, h as int)[i],
        decreases w - x,
    {
        let mut y: usize = 0;
        while y < h
            invariant
                pixels@.len() == w * h,
                w * h <= usize::MAX,
                x < w,
                y <= h,
                r@.len() == x * h + y,
                forall|i: int| 0 <= i < x * h + y ==> #[trigger] r@[i] == rotated90(pixels@, w as int, h as int)[i],
            decreases h - y,
        {
            proof {
                lemma_rotate_index(w as int, h as int, x as int, y as int);
            }
            let src = (h - 1 - y) * w + x;
            r.push(pixels[src]);
            y += 1;
        }
        assert((x + 1) * h == x * h + h) by (nonlinear_arith);
        x += 1;
    }
    assert(r@ =~= rotated90(pixels@, w as int, h as int));
    r
}

/// Relies on image: `ImageBuffer::from_raw` (which accepts a buffer of
/// exactly three bytes per pixel), `DynamicImage::resize_to_fill` with
/// `FilterType::Lanczos3`, and `into_rgb8`, `dimensions` and `pixels`,
/// which give `width * height` pixels in row-major order.
/// `resize_to_fill` scales by the larger of `nw / w` and `nh / h`, rounding
/// each side (`resize_dimensions`), and crops the centre `nw`×`nh`; while
/// both scaled sides stay below `u32::MAX` the result is exactly `nw`×`nh`.
/// At the source's own size the scale is 1 and `resize` copies the pixels.
/// Other pixel values come from the Lanczos3 kernel, which uses `f32::sin`
/// and so is not stated. An empty source would make the crop offset underflow, so it is excluded.
#[verifier::external_body]
fn resize_to_fill(pixels: &[RGB<u8>], w: u32, h: u32, nw: u32, nh: u32) -> (r: (Vec<RGB<u8>>, u32, u32))
    requires
        pixels@.len() == w * h,
        w > 0,
        h > 0,
        nw > 0,
        nh > 0,
    ensures
        r.0@.len() == r.1 * r.2,
        w * nh <= 4_000_000_000 * h && h * nw <= 4_000_000_000 * w ==> r.1 == nw && r.2 == nh,
        w == nw && h == nh ==> r.0@ == pixels@,
{
    let raw: Vec<u8> = pixels.iter().flat_map(|p| [p.red, p.green, p.blue]).collect();
    let image = DynamicImage::ImageRgb8(RgbImage::from_raw(w, h, raw).unwrap());
    let out = image.resize_to_fill(nw, nh, FilterType::Lanczos3).into_rgb8();
    let (ow, oh) = out.dimensions();
    (out.pixels().map(|p| RGB { red: p.0[0], green: p.0[1], blue: p.0[2] }).collect(), ow, oh)
}

/// Accepts resized pixels only at the panel's size.
pub fn check_geometry(pixels: Vec<RGB<u8>>, width: u32, height: u32) -> (r: Result<Vec<RGB<u8>>, ConvertError>)
    ensures
        (width == 1200 && height == 1600) ==> r == Ok::<Vec<RGB<u8>>, ConvertError>(pixels),
        !(width == 1200 && height == 1600) ==> r == Err::<Vec<RGB<u8>>, ConvertError>(ConvertError::Geometry { width, height }),
{
    if width == 1200 && height == 1600 {
        Ok(pixels)
    } else {
        Err(ConvertError::Geometry { width, height })
    }
}

/// Turns an oriented `w`×`h` source 90° clockwise and resizes it to cover
/// the 1200×1600 panel.
pub fn fit_to_panel(pixels: &[RGB<u8>], w: u32, h: u32) -> (r: Result<Vec<RGB<u8>>, ConvertError>)
    requires
        pixels@.len() == w * h,
    ensures
        (w == 0 || h == 0) ==> r == Err::<Vec<RGB<u8>>, ConvertError>(ConvertError::EmptySource),
        w > 0 && h > 0 && h * 1600 <= 4_000_000_000 * w && w * 1200 <= 4_000_000_000 * h ==> r is Ok,
        r matches Ok(p) ==> p@.len() == 1200 * 1600,
        w == 1600 && h == 1200 ==> (r matches Ok(p) && p@ == rotated90(pixels@, w as int, h as int)),
        r matches Err(e) ==> e is Geometry || e is EmptySource,
{
    if w == 0 || h == 0 {
        return Err(ConvertError::EmptySource);
    }
    let turned = rotate90(pixels, w as usize, h as usize);
    assert(h as int * w as int == w as int * h as int) by (nonlinear_arith);
    let (fitted, fw, fh) = resize_to_fill(turned.as_slice(), h, w, 1200, 1600);
    check_geometry(fitted, fw, fh)
}

/// The EXIF orientation to apply: the given code when it is one of 1 to 8,
/// otherwise 1 (no change).
pub open spec fn orientation_code(exif: u8) -> u8 {
    if 1 <= exif <= 8 {
        exif
    } else {
        1
    }
}

/// Width after applying EXIF orientation `code`: codes 5 to 8 turn the
/// image by a quarter, swapping its sides.
pub open spec fn oriented_width(w: u32, h: u32, code: u8) -> u32 {
    if code >= 5 {
        h
    } else {
        w
    }
}

/// Height after applying EXIF orientation `code`.
pub open spec fn oriented_height(w: u32, h: u32, code: u8) -> u32 {
    if code >= 5 {
        w
    } else {
        h
    }
}

/// The source pixel that lands at `(x, y)` when EXIF orientation `code` is
/// applied to a `w`×`h` image: 2 mirrors left-right, 3 turns by a half, 4
/// mirrors top-bottom, 5 transposes, 6 turns a quarter clockwise, 7 turns a
/// quarter anticlockwise and mirrors, 8 turns a quarter anticlockwise.
pub open spec fn oriented_source(w: int, h: int, code: u8, x: int, y: int) -> (int, int) {
    if code == 2 {
        (w - 1 - x, y)
    } else if code == 3 {
        (w - 1 - x, h - 1 - y)
    } else if code == 4 {
        (x, h - 1 - y)
    } else if code == 5 {
        (y, x)
    } else if code == 6 {
        (y, h - 1 - x)
    } else if code == 7 {
        (w - 1 - y, h - 1 - x)
    } else if code == 8 {
        (w - 1 - y, x)
    } else {
        (x, y)
    }
}

/// A `w`×`h` row-major image with EXIF orientation `code` applied.
pub open spec fn oriented(s: Seq<RGB<u8>>, w: u32, h: u32, code: u8) -> Seq<RGB<u8>> {
    let ow = oriented_width(w, h, code) as int;
    Seq::new(
        (w * h) as nat,
        |i: int|
            {
                let src = oriented_source(w as int, h as int, code, i % ow, i / ow);
                pixel_at(s, w as int, src.0, src.1)
            },
    )
}

/// Relies on image: `Orientation::from_exif` (defined for 1 to 8) and
/// `DynamicImage::apply_orientation`, which does nothing for 1 and
/// otherwise applies `fliph_in_place` (2), `rotate180_in_place` (3),
/// `flipv_in_place` (4), `rotate90` then `fliph_in_place` (5), `rotate90`
/// (6), `rotate270` then `fliph_in_place` (7) or `rotate270` (8), each
/// moving pixel `(x, y)` as `oriented_source` states; then `into_rgb8`,
/// `dimensions` and `pixels` as for resizing.
#[verifier::external_body]
fn apply_orientation(pixels: &[RGB<u8>], w: u32, h: u32, code: u8) -> (r: (Vec<RGB<u8>>, u32, u32))
    requires
        pixels@.len() == w * h,
        1 <= code <= 8,
    ensures
        r.0@ == oriented(pixels@, w, h, code),
        r.1 == oriented_width(w, h, code),
        r.2 == oriented_height(w, h, code),
{
    let raw: Vec<u8> = pixels.iter().flat_map(|p| [p.red, p.green, p.blue]).collect();
    let mut image = DynamicImage::ImageRgb8(RgbImage::from_raw(w, h, raw).unwrap());
    image.apply_orientation(Orientation::from_exif(code).unwrap());
    let out = image.into_rgb8();
    let (ow, oh) = out.dimensions();
    (out.pixels().map(|p| RGB { red: p.0[0], green: p.0[1], blue: p.0[2] }).collect(), ow, oh)
}

/// EXIF orientation 1 leaves an image as it is.
pub proof fn lemma_orientation_one_is_identity(s: Seq<RGB<u8>>, w: u32, h: u32)
    requires
        s.len() == w * h,
    ensures
        oriented(s, w, h, 1) == s,
{
    assert forall|i: int| 0 <= i < w * h implies #[trigger] oriented(s, w, h, 1)[i] == s[i] by {
        assert(w > 0) by (nonlinear_arith)
            requires
                0 <= i < w * h,
        ;
        vstd::arithmetic::div_mod::lemma_fundamental_div_mod(i, w as int);
        assert((i / w as int) * w as int == w as int * (i / w as int)) by (nonlinear_arith);
    }
    assert(oriented(s, w, h, 1) =~= s);
}

/// The whole preparation of a decoded `w`×`h` source for the panel: apply
/// its EXIF orientation (none when the code is not 1 to 8), turn it 90°
/// clockwise, and resize it to cover 1200×1600.
pub fn prepare_for_panel(pixels: &[RGB<u8>], w: u32, h: u32, exif: u8) -> (r: Result<Vec<RGB<u8>>, ConvertError>)
    requires
        pixels@.len() == w * h,
    ensures
        (w == 0 || h == 0) ==> r == Err::<Vec<RGB<u8>>, ConvertError>(ConvertError::EmptySource),
        w > 0 && h > 0 && h * 1600 <= 4_000_000_000 * w && w * 1600 <= 4_000_000_000 * h ==> r is Ok,
        r matches Ok(p) ==> p@.len() == 1200 * 1600,
        ({
            let c = orientation_code(exif);
            oriented_width(w, h, c) == 1600 && oriented_height(w, h, c) == 1200
        }) ==> (r matches Ok(p) && p@ == ({
            let c = orientation_code(exif);
            rotated90(oriented(pixels@, w, h, c), 1600, 1200)
        })),
        orientation_code(exif) == 1 && w == 1600 && h == 1200 ==> (r matches Ok(p) && p@ == rotated90(
            pixels@,
            1600,
            1200,
        )),
        r matches Err(e) ==> e is Geometry || e is EmptySource,
{
    let code: u8 = if 1 <= exif && exif <= 8 {
        exif
    } else {
        1
    };
    let (turned, ow, oh) = apply_orientation(pixels, w, h, code);
    assert(ow as int * oh as int == w as int * h as int) by (nonlinear_arith)
        requires
            (ow == w && oh == h) || (ow == h && oh == w),
    ;
    proof {
        if code == 1 {
            lemma_orientation_one_is_identity(pixels@, w, h);
        }
    }
    fit_to_panel(turned.as_slice(), ow, oh)
}

} // verus!
