use vstd::prelude::*;
use crate::raster::{GrayImage, GrayModel, Image, RgbModel};

verus! {

/// Every sample replaced by its distance from full intensity.
pub open spec fn inverted(m: RgbModel) -> RgbModel {
    RgbModel {
        width: m.width,
        height: m.height,
        samples: Seq::new(m.samples.len(), |i: int| (255 - m.samples[i]) as u8),
    }
}

/// `v` limited to the range of an 8-bit sample.
pub open spec fn clamp_sample(v: int) -> u8 {
    if v < 0 {
        0
    } else if v > 255 {
        255
    } else {
        v as u8
    }
}

/// Every sample shifted by `amount`, saturating at 0 and 255.
pub open spec fn brightened(m: RgbModel, amount: int) -> RgbModel {
    RgbModel {
        width: m.width,
        height: m.height,
        samples: Seq::new(m.samples.len(), |i: int| clamp_sample(m.samples[i] + amount)),
    }
}

/// Luminance of an sRGB pixel with the Rec. 709 weights, in integer arithmetic.
pub open spec fn luma(r: u8, g: u8, b: u8) -> u8 {
    ((2126 * r + 7152 * g + 722 * b) / 10000) as u8
}

/// One luma sample for each pixel of `m`.
pub open spec fn grayscaled(m: RgbModel) -> GrayModel {
    GrayModel {
        width: m.width,
        height: m.height,
        samples: Seq::new(
            m.width * m.height,
            |p: int| luma(m.samples[3 * p], m.samples[3 * p + 1], m.samples[3 * p + 2]),
        ),
    }
}

/// Relies on `image::DynamicImage::invert`, which on an RGB image replaces
/// each sample `v` by `255 - v`.
#[verifier::external_body]
fn invert_rgb(img: &Image) -> (r: Image)
    requires
        img.wf(),
    ensures
        r@ == inverted(img@),
{
    let buf = image::RgbImage::from_raw(img.width, img.height, img.samples.clone()).unwrap();
    let mut dynamic = image::DynamicImage::ImageRgb8(buf);
    dynamic.invert();
    let out = dynamic.into_rgb8();
    Image { width: out.width(), height: out.height(), samples: out.into_raw() }
}

/// Relies on `image::DynamicImage::brighten`, which on an RGB image replaces
/// each sample `v` by `v + value` clamped to 0..=255. It adds in `i32`, so
/// `value` stays below `i32::MAX - 255`.
#[verifier::external_body]
fn brighten_rgb(img: &Image, value: i32) -> (r: Image)
    requires
        img.wf(),
        value <= i32::MAX - 255,
    ensures
        r@ == brightened(img@, value as int),
{
    let buf = image::RgbImage::from_raw(img.width, img.height, img.samples.clone()).unwrap();
    let out = image::DynamicImage::ImageRgb8(buf).brighten(value).into_rgb8();
    Image { width: out.width(), height: out.height(), samples: out.into_raw() }
}

/// Relies on `image::DynamicImage::grayscale`, which turns an RGB image into
/// a luma image of the same size, each pixel weighted 2126/7152/722 over 10000.
#[verifier::external_body]
fn grayscale_rgb(img: &Image) -> (r: GrayImage)
    requires
        img.wf(),
    ensures
        r@ == grayscaled(img@),
{
    let buf = image::RgbImage::from_raw(img.width, img.height, img.samples.clone()).unwrap();
    let out = image::DynamicImage::ImageRgb8(buf).grayscale().into_luma8();
    GrayImage { width: out.width(), height: out.height(), samples: out.into_raw() }
}

/// The colour negative of `img`: each sample `v` becomes `255 - v`.
pub fn invert(img: &Image) -> (r: Image)
    requires
        img.wf(),
    ensures
        r.wf(),
        r@ == inverted(img@),
{
    invert_rgb(img)
}

/// `img` with `amount` added to every sample, saturating at 0 and 255; a
/// negative amount darkens.
pub fn brighten(img: &Image, amount: i32) -> (r: Image)
    requires
        img.wf(),
    ensures
        r.wf(),
        r@ == brightened(img@, amount as int),
        amount == 0 ==> r@ == img@,
{
    // A shift beyond the sample range saturates every sample either way.
    let bounded: i32 = if amount > 255 {
        255
    } else if amount < -255 {
        -255
    } else {
        amount
    };
    let r = brighten_rgb(img, bounded);
    assert(r@.samples =~= brightened(img@, amount as int).samples);
    proof {
        if amount == 0 {
            assert(r@.samples =~= img@.samples);
        }
    }
    r
}

/// The luma of each pixel of `img`, as a single-channel image of the same size.
pub fn grayscale(img: &Image) -> (r: GrayImage)
    requires
        img.wf(),
    ensures
        r.wf(),
        r@ == grayscaled(img@),
{
    grayscale_rgb(img)
}

} // verus!
