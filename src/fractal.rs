use vstd::prelude::*;
use crate::raster::{Image, RgbModel};

verus! {

/// Width and height of the fractal picture, in pixels.
pub const FRACTAL_SIZE: u32 = 800;

/// Number of pixels in the fractal picture.
pub const FRACTAL_PIXELS: usize = 640000;

/// The background gradient level at column or row `v`: `floor(0.3 * v)`.
pub open spec fn gradient(v: int) -> u8 {
    (3 * v / 10) as u8
}

/// Sample `i` of the fractal picture, given the escape count of each pixel in
/// row-major order: red follows the column, blue the row, green the count.
pub open spec fn fractal_sample(escape: Seq<u8>, i: int) -> u8 {
    let p = i / 3;
    let x = p % 800;
    let y = p / 800;
    if i % 3 == 0 {
        gradient(x)
    } else if i % 3 == 1 {
        escape[p]
    } else {
        gradient(y)
    }
}

pub open spec fn fractal_model(escape: Seq<u8>) -> RgbModel {
    RgbModel {
        width: 800,
        height: 800,
        samples: Seq::new(3 * 640000, |i: int| fractal_sample(escape, i)),
    }
}

/// The gradient level for column or row `v` of the picture.
pub fn gradient_level(v: u32) -> (r: u8)
    requires
        v < FRACTAL_SIZE,
    ensures
        r == gradient(v as int),
{
    (3 * v / 10) as u8
}

/// The fractal picture, 800 by 800, for the escape counts of its pixels in
/// row-major order (pixel (x, y) at index `y * 800 + x`); `None` unless there
/// is exactly one count per pixel.
pub fn fractal(escape: &Vec<u8>) -> (r: Option<Image>)
    ensures
        r is Some <==> escape@.len() == FRACTAL_PIXELS,
        r matches Some(img) ==> {
            &&& img.wf()
            &&& img@ == fractal_model(escape@)
            &&& img@.width == FRACTAL_SIZE && img@.height == FRACTAL_SIZE
            &&& img@.at(0, 0, 0) == 0 && img@.at(0, 0, 2) == 0
        },
{
    if escape.len() != FRACTAL_PIXELS {
        return None;
    }
    let mut out: Vec<u8> = Vec::with_capacity(3 * FRACTAL_PIXELS);
    let mut p: usize = 0;
    while p < FRACTAL_PIXELS
        invariant
            escape@.len() == FRACTAL_PIXELS,
            p <= FRACTAL_PIXELS,
            out@.len() == 3 * p,
            forall|i: int| 0 <= i < 3 * p ==> #[trigger] out@[i] == fractal_sample(escape@, i),
        decreases FRACTAL_PIXELS - p,
    {
        let x = (p % 800) as u32;
        let y = (p / 800) as u32;
        out.push(gradient_level(x));
        out.push(escape[p]);
        out.push(gradient_level(y));
        p = p + 1;
    }
    assert(out@ =~= fractal_model(escape@).samples);
    assert(out@[0] == fractal_sample(escape@, 0));
    assert(out@[2] == fractal_sample(escape@, 2));
    Image::new(FRACTAL_SIZE, FRACTAL_SIZE, out)
}

} // verus!
