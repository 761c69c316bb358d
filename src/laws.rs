use vstd::prelude::*;
use crate::color::{brightened, inverted};
use crate::fractal::fractal_model;
use crate::geometry::{cropped, rotated, rotation_of};
use crate::raster::RgbModel;

verus! {

/// Inverting an image twice gives back the image, sample for sample.
pub proof fn lemma_invert_involutive(m: RgbModel)
    ensures
        inverted(inverted(m)) == m,
{
    assert(inverted(inverted(m)).samples =~= m.samples);
}

/// Brightening by zero leaves every sample as it was.
pub proof fn lemma_brighten_zero(m: RgbModel)
    ensures
        brightened(m, 0) == m,
{
    assert(brightened(m, 0).samples =~= m.samples);
}

/// Darkening by the full sample range makes every sample 0, without wrapping.
pub proof fn lemma_brighten_floor(m: RgbModel, amount: int)
    requires
        amount <= -255,
    ensures
        forall|i: int| 0 <= i < m.samples.len() ==> #[trigger] brightened(m, amount).samples[i] == 0,
{
}

/// A crop is a well-formed image that never reaches past the input's edges,
/// whatever rectangle is asked for.
pub proof fn lemma_crop_within_bounds(m: RgbModel, x: int, y: int, width: int, height: int)
    requires
        m.wf(),
        x >= 0,
        y >= 0,
        width >= 0,
        height >= 0,
    ensures
        cropped(m, x, y, width, height).wf(),
        cropped(m, x, y, width, height).width <= m.width,
        cropped(m, x, y, width, height).height <= m.height,
{
}

/// Only 90, 180 and 270 degrees name a rotation; a quarter or three-quarter
/// turn swaps the width and height, a half turn keeps them.
pub proof fn lemma_rotation_dimensions(m: RgbModel, degrees: u32)
    requires
        m.wf(),
    ensures
        rotation_of(degrees) is None <==> !(degrees == 90 || degrees == 180 || degrees == 270),
        degrees == 180 ==> rotated(m, rotation_of(degrees)->Some_0).width == m.width
            && rotated(m, rotation_of(degrees)->Some_0).height == m.height,
        (degrees == 90 || degrees == 270) ==> rotated(m, rotation_of(degrees)->Some_0).width == m.height
            && rotated(m, rotation_of(degrees)->Some_0).height == m.width,
        rotation_of(degrees) matches Some(rot) ==> rotated(m, rot).wf(),
{
    assert(m.width * m.height == m.height * m.width) by (nonlinear_arith);
}

/// The fractal picture is 800 by 800, its top-left pixel has no red and no
/// blue, and every green sample is the escape count of its pixel.
pub proof fn lemma_fractal_shape(escape: Seq<u8>)
    requires
        escape.len() == 640000,
    ensures
        fractal_model(escape).wf(),
        fractal_model(escape).width == 800,
        fractal_model(escape).height == 800,
        fractal_model(escape).at(0, 0, 0) == 0,
        fractal_model(escape).at(0, 0, 2) == 0,
        forall|x: int, y: int|
            0 <= x < 800 && 0 <= y < 800 ==> #[trigger] fractal_model(escape).at(x, y, 1) == escape[y * 800 + x],
{
    assert forall|x: int, y: int| 0 <= x < 800 && 0 <= y < 800 implies #[trigger] fractal_model(escape).at(x, y, 1)
        == escape[y * 800 + x] by {
        let i = (y * 800 + x) * 3 + 1;
        assert(i / 3 == y * 800 + x);
        assert(i % 3 == 1);
        assert(0 <= y * 800 + x < 640000);
    }
}

} // verus!
