use vstd::prelude::*;

verus! {

/// Number of samples that make up one RGB pixel.
pub const RGB_CHANNELS: usize = 3;

/// The mathematical value of an RGB raster: row-major samples, three per pixel.
pub ghost struct RgbModel {
    pub width: nat,
    pub height: nat,
    pub samples: Seq<u8>,
}

/// The mathematical value of a grayscale raster: row-major samples, one per pixel.
pub ghost struct GrayModel {
    pub width: nat,
    pub height: nat,
    pub samples: Seq<u8>,
}

impl RgbModel {
    /// The sample buffer holds exactly three samples for each pixel.
    pub open spec fn wf(self) -> bool {
        self.samples.len() == 3 * (self.width * self.height)
    }

    /// Channel `c` of the pixel in column `x` and row `y`.
    pub open spec fn at(self, x: int, y: int, c: int) -> u8 {
        self.samples[(y * self.width + x) * 3 + c]
    }
}

impl GrayModel {
    /// The sample buffer holds exactly one sample for each pixel.
    pub open spec fn wf(self) -> bool {
        self.samples.len() == self.width * self.height
    }
}

/// An 8-bit RGB image held in memory.
pub struct Image {
    pub(crate) width: u32,
    pub(crate) height: u32,
    pub(crate) samples: Vec<u8>,
}

/// An 8-bit single-channel (luma) image held in memory.
pub struct GrayImage {
    pub(crate) width: u32,
    pub(crate) height: u32,
    pub(crate) samples: Vec<u8>,
}

impl View for Image {
    type V = RgbModel;

    closed spec fn view(&self) -> RgbModel {
        RgbModel { width: self.width as nat, height: self.height as nat, samples: self.samples@ }
    }
}

impl View for GrayImage {
    type V = GrayModel;

    closed spec fn view(&self) -> GrayModel {
        GrayModel { width: self.width as nat, height: self.height as nat, samples: self.samples@ }
    }
}

/// Number of samples that a `width` by `height` raster with `channels` samples
/// per pixel holds, or `None` where that count does not fit in a `usize`.
fn sample_count(width: u32, height: u32, channels: usize) -> (r: Option<usize>)
    requires
        1 <= channels <= 4,
    ensures
        r matches Some(n) ==> n == channels * (width * height),
        r is None ==> channels * (width * height) > usize::MAX,
{
    assert((width as int) * (height as int) <= 0xffff_ffff_ffff_ffff) by (nonlinear_arith)
        requires
            width <= 0xffff_ffffu32,
            height <= 0xffff_ffffu32,
    ;
    let pixels = (width as u64) * (height as u64);
    match (channels as u64).checked_mul(pixels) {
        Some(n) => {
            if n <= usize::MAX as u64 {
                Some(n as usize)
            } else {
                None
            }
        },
        None => None,
    }
}

impl Image {
    pub open spec fn wf(&self) -> bool {
        self@.wf()
    }

    /// Builds an image from row-major RGB samples; `None` unless there are
    /// exactly three samples for each of the `width * height` pixels.
    pub fn new(width: u32, height: u32, samples: Vec<u8>) -> (r: Option<Image>)
        ensures
            r is Some <==> samples@.len() == 3 * (width * height),
            r matches Some(img) ==> img@ == (RgbModel { width: width as nat, height: height as nat, samples: samples@ }),
    {
        let len = samples.len();
        match sample_count(width, height, RGB_CHANNELS) {
            Some(n) => {
                if len == n {
                    Some(Image { width, height, samples })
                } else {
                    None
                }
            },
            None => None,
        }
    }

    pub fn width(&self) -> (r: u32)
        ensures
            r == self@.width,
    {
        self.width
    }

    pub fn height(&self) -> (r: u32)
        ensures
            r == self@.height,
    {
        self.height
    }

    /// The row-major samples, three per pixel.
    pub fn samples(&self) -> (r: &Vec<u8>)
        ensures
            r@ == self@.samples,
    {
        &self.samples
    }

    /// Gives up the image and returns its samples.
    pub fn into_samples(self) -> (r: Vec<u8>)
        ensures
            r@ == self@.samples,
    {
        self.samples
    }

    /// The red, green and blue samples of the pixel in column `x` and row `y`.
    pub fn pixel(&self, x: u32, y: u32) -> (r: (u8, u8, u8))
        requires
            self.wf(),
            x < self@.width,
            y < self@.height,
        ensures
            r == (self@.at(x as int, y as int, 0), self@.at(x as int, y as int, 1), self@.at(x as int, y as int, 2)),
    {
        let len = self.samples.len();
        let w = self.width as usize;
        assert((y as int) * (w as int) + (x as int) < (self.width as int) * (self.height as int)
            && (y as int) * (w as int) <= (y as int) * (w as int) + (x as int)) by (nonlinear_arith)
            requires
                x < self.width,
                y < self.height,
                w == self.width,
        ;
        let i = ((y as usize) * w + x as usize) * 3;
        (self.samples[i], self.samples[i + 1], self.samples[i + 2])
    }
}

/// Each luma sample spread over the three channels of an RGB pixel.
pub open spec fn gray_to_rgb(m: GrayModel) -> RgbModel {
    RgbModel {
        width: m.width,
        height: m.height,
        samples: Seq::new(3 * m.samples.len(), |i: int| m.samples[i / 3]),
    }
}

impl GrayImage {
    pub open spec fn wf(&self) -> bool {
        self@.wf()
    }

    /// Builds an image from row-major luma samples; `None` unless there is
    /// exactly one sample for each of the `width * height` pixels.
    pub fn new(width: u32, height: u32, samples: Vec<u8>) -> (r: Option<GrayImage>)
        ensures
            r is Some <==> samples@.len() == width * height,
            r matches Some(img) ==> img@ == (GrayModel { width: width as nat, height: height as nat, samples: samples@ }),
    {
        let len = samples.len();
        match sample_count(width, height, 1) {
            Some(n) => {
                if len == n {
                    Some(GrayImage { width, height, samples })
                } else {
                    None
                }
            },
            None => None,
        }
    }

    pub fn width(&self) -> (r: u32)
        ensures
            r == self@.width,
    {
        self.width
    }

    pub fn height(&self) -> (r: u32)
        ensures
            r == self@.height,
    {
        self.height
    }

    /// The row-major samples, one per pixel.
    pub fn samples(&self) -> (r: &Vec<u8>)
        ensures
            r@ == self@.samples,
    {
        &self.samples
    }

    /// Gives up the image and returns its samples.
    pub fn into_samples(self) -> (r: Vec<u8>)
        ensures
            r@ == self@.samples,
    {
        self.samples
    }

    /// The same picture as an RGB image whose three channels are equal in
    /// every pixel; `None` where that many samples do not fit in memory.
    pub fn to_rgb(&self) -> (r: Option<Image>)
        requires
            self.wf(),
        ensures
            r is Some <==> 3 * self@.samples.len() <= usize::MAX,
            r matches Some(img) ==> img.wf() && img@ == gray_to_rgb(self@),
    {
        let n = self.samples.len();
        if n > usize::MAX / 3 {
            return None;
        }
        let mut out: Vec<u8> = Vec::with_capacity(3 * n);
        let mut p: usize = 0;
        while p < n
            invariant
                n == self@.samples.len(),
                3 * n <= usize::MAX,
                p <= n,
                out@.len() == 3 * p,
                forall|i: int| 0 <= i < 3 * p ==> #[trigger] out@[i] == self@.samples[i / 3],
            decreases n - p,
        {
            let v = self.samples[p];
            out.push(v);
            out.push(v);
            out.push(v);
            p = p + 1;
        }
        let img = Image { width: self.width, height: self.height, samples: out };
        assert(img@.samples =~= gray_to_rgb(self@).samples);
        Some(img)
    }
}

} // verus!
