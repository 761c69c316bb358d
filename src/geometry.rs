use vstd::prelude::*;
use crate::raster::{Image, RgbModel};

verus! {

/// A clockwise rotation by a whole number of quarter turns.
#[derive(Clone, Copy, Debug, PartialEq, Eq, Structural)]
pub enum Rotation {
    Quarter,
    Half,
    ThreeQuarters,
}

/// The rotation named by an angle in degrees; only 90, 180 and 270 name one.
pub open spec fn rotation_of(degrees: u32) -> Option<Rotation> {
    if degrees == 90 {
        Some(Rotation::Quarter)
    } else if degrees == 180 {
        Some(Rotation::Half)
    } else if degrees == 270 {
        Some(Rotation::ThreeQuarters)
    } else {
        None
    }
}

pub open spec fn min(a: int, b: int) -> int {
    if a <= b {
        a
    } else {
        b
    }
}

/// Column of the first pixel that a crop at `x` keeps: the corner is pulled
/// inside the image.
pub open spec fn crop_left(m: RgbModel, x: int) -> int {
    min(x, m.width as int)
}

pub open spec fn crop_top(m: RgbModel, y: int) -> int {
    min(y, m.height as int)
}

/// Width of a crop: what is asked for, cut at the right edge.
pub open spec fn crop_width(m: RgbModel, x: int, width: int) -> int {
    min(width, m.width - crop_left(m, x))
}

pub open spec fn crop_height(m: RgbModel, y: int, height: int) -> int {
    min(height, m.height - crop_top(m, y))
}

/// The part of `m` whose top-left corner is at (`x`, `y`) and whose size is
/// `width` by `height`, cut down to what lies inside `m`.
pub open spec fn cropped(m: RgbModel, x: int, y: int, width: int, height: int) -> RgbModel {
    let left = crop_left(m, x);
    let top = crop_top(m, y);
    let w = crop_width(m, x, width);
    let h = crop_height(m, y, height);
    RgbModel {
        width: w as nat,
        height: h as nat,
        samples: Seq::new(
            (3 * (w * h)) as nat,
            |i: int| m.at(left + (i / 3) % w, top + (i / 3) / w, i % 3),
        ),
    }
}

/// `m` turned clockwise by `rot`. Pixel (`X`, `Y`) of the result comes from
/// (`Y`, `h-1-X`) after a quarter turn, (`w-1-X`, `h-1-Y`) after a half turn
/// and (`w-1-Y`, `X`) after three quarters.
pub open spec fn rotated(m: RgbModel, rot: Rotation) -> RgbModel {
    let w = m.width as int;
    let h = m.height as int;
    match rot {
        Rotation::Quarter => RgbModel {
            width: m.height,
            height: m.width,
            samples: Seq::new(
                3 * (m.height * m.width),
                |i: int| m.at((i / 3) / h, h - 1 - (i / 3) % h, i % 3),
            ),
        },
        Rotation::Half => RgbModel {
            width: m.width,
            height: m.height,
            samples: Seq::new(
                3 * (m.width * m.height),
                |i: int| m.at(w - 1 - (i / 3) % w, h - 1 - (i / 3) / w, i % 3),
            ),
        },
        Rotation::ThreeQuarters => RgbModel {
            width: m.height,
            height: m.width,
            samples: Seq::new(
                3 * (m.height * m.width),
                |i: int| m.at(w - 1 - (i / 3) / h, (i / 3) % h, i % 3),
            ),
        },
    }
}

impl Rotation {
    /// The rotation for `degrees`; `None` for any angle but 90, 180 and 270.
    pub fn from_degrees(degrees: u32) -> (r: Option<Rotation>)
        ensures
            r == rotation_of(degrees),
            r is Some <==> (degrees == 90 || degrees == 180 || degrees == 270),
    {
        if degrees == 90 {
            Some(Rotation::Quarter)
        } else if degrees == 180 {
            Some(Rotation::Half)
        } else if degrees == 270 {
            Some(Rotation::ThreeQuarters)
        } else {
            None
        }
    }
}

/// Relies on `image::DynamicImage::crop`, which clamps the rectangle to the
/// image (`image::imageops::crop_dimms`) and copies the pixels inside it.
#[verifier::external_body]
fn crop_rgb(img: &Image, x: u32, y: u32, width: u32, height: u32) -> (r: Image)
    requires
        img.wf(),
    ensures
        r@ == cropped(img@, x as int, y as int, width as int, height as int),
{
    let buf = image::RgbImage::from_raw(img.width, img.height, img.samples.clone()).unwrap();
    let out = image::DynamicImage::ImageRgb8(buf).crop(x, y, width, height).into_rgb8();
    Image { width: out.width(), height: out.height(), samples: out.into_raw() }
}

/// Relies on `image::DynamicImage::rotate90`: `image::imageops::rotate90_in`
/// moves pixel (x, y) to (h-1-y, x) of a `h` by `w` image.
#[verifier::external_body]
fn rotate90_rgb(img: &Image) -> (r: Image)
    requires
        img.wf(),
    ensures
        r@ == rotated(img@, Rotation::Quarter),
{
    let buf = image::RgbImage::from_raw(img.width, img.height, img.samples.clone()).unwrap();
    let out = image::DynamicImage::ImageRgb8(buf).rotate90().into_rgb8();
    Image { width: out.width(), height: out.height(), samples: out.into_raw() }
}

/// Relies on `image::DynamicImage::rotate180`: `image::imageops::rotate180_in`
/// moves pixel (x, y) to (w-1-x, h-1-y).
#[verifier::external_body]
fn rotate180_rgb(img: &Image) -> (r: Image)
    requires
        img.wf(),
    ensures
        r@ == rotated(img@, Rotation::Half),
{
    let buf = image::RgbImage::from_raw(img.width, img.height, img.samples.clone()).unwrap();
    let out = image::DynamicImage::ImageRgb8(buf).rotate180().into_rgb8();
    Image { width: out.width(), height: out.height(), samples: out.into_raw() }
}

/// Relies on `image::DynamicImage::rotate270`: `image::imageops::rotate270_in`
/// moves pixel (x, y) to (y, w-1-x) of a `h` by `w` image.
#[verifier::external_body]
fn rotate270_rgb(img: &Image) -> (r: Image)
    requires
        img.wf(),
    ensures
        r@ == rotated(img@, Rotation::ThreeQuarters),
{
    let buf = image::RgbImage::from_raw(img.width, img.height, img.samples.clone()).unwrap();
    let out = image::DynamicImage::ImageRgb8(buf).rotate270().into_rgb8();
    Image { width: out.width(), height: out.height(), samples: out.into_raw() }
}

/// The `width` by `height` rectangle of `img` whose top-left corner is at
/// (`x`, `y`), cut down to what lies inside `img`; it is empty where the
/// corner lies outside.
pub fn crop(img: &Image, x: u32, y: u32, width: u32, height: u32) -> (r: Image)
    requires
        img.wf(),
    ensures
        r.wf(),
        r@ == cropped(img@, x as int, y as int, width as int, height as int),
        r@.width <= width,
        r@.height <= height,
        crop_left(img@, x as int) + r@.width <= img@.width,
        crop_top(img@, y as int) + r@.height <= img@.height,
{
    crop_rgb(img, x, y, width, height)
}

/// `img` turned clockwise by `rotation`. A quarter or three-quarter turn swaps
/// width and height; a half turn keeps them.
pub fn rotate(img: &Image, rotation: Rotation) -> (r: Image)
    requires
        img.wf(),
    ensures
        r.wf(),
        r@ == rotated(img@, rotation),
        rotation == Rotation::Half ==> r@.width == img@.width && r@.height == img@.height,
        rotation != Rotation::Half ==> r@.width == img@.height && r@.height == img@.width,
{
    match rotation {
        Rotation::Quarter => rotate90_rgb(img),
        Rotation::Half => rotate180_rgb(img),
        Rotation::ThreeQuarters => rotate270_rgb(img),
    }
}

} // verus!
