use vstd::prelude::*;

use crate::codec::{decode_luma, luma_decoding};
use crate::state::AppError;

verus! {

/// Mathematical view of a decoded luma image: its dimensions and the
/// row-major sequence of 8-bit luma samples.
pub struct LumaView {
    pub width: nat,
    pub height: nat,
    pub pixels: Seq<u8>,
}

/// A decoded single-channel (luma) raster image held as plain values. It
/// exposes the fixed sampling interface (dimensions and per-pixel luma) that
/// the pattern generator is driven through; brightness in [0, 1] is the luma
/// sample divided by 255, a division performed only where the generator runs.
pub struct ImageAdapter {
    width: u32,
    height: u32,
    pixels: Vec<u8>,
}

impl View for ImageAdapter {
    type V = LumaView;

    closed spec fn view(&self) -> LumaView {
        LumaView { width: self.width as nat, height: self.height as nat, pixels: self.pixels@ }
    }
}

impl ImageAdapter {
    /// The sample count always matches the dimensions.
    pub open spec fn wf(&self) -> bool {
        self@.pixels.len() == self@.width * self@.height
    }

    pub fn new(width: u32, height: u32, pixels: Vec<u8>) -> (r: ImageAdapter)
        requires
            pixels@.len() == width as nat * height as nat,
        ensures
            r@ == (LumaView { width: width as nat, height: height as nat, pixels: pixels@ }),
            r.wf(),
    {
        ImageAdapter { width, height, pixels }
    }

    /// Decode raw bytes as an image in luma form; every byte sequence that is
    /// not a decodable image is rejected with `AppError::NotAnImage`.
    pub fn from_bytes(bytes: &Vec<u8>) -> (r: Result<ImageAdapter, AppError>)
        ensures
            match r {
                Ok(img) => {
                    &&& luma_decoding(bytes@) == Some((img@.width, img@.height, img@.pixels))
                    &&& img.wf()
                },
                Err(e) => luma_decoding(bytes@) is None && e == AppError::NotAnImage,
            },
    {
        match decode_luma(bytes) {
            Ok((width, height, pixels)) => Ok(ImageAdapter { width, height, pixels }),
            Err(_) => Err(AppError::NotAnImage),
        }
    }

    /// Width and height of the image, in pixels.
    pub fn size(&self) -> (r: (usize, usize))
        ensures
            r.0 == self@.width,
            r.1 == self@.height,
    {
        (self.width as usize, self.height as usize)
    }

    /// The luma sample under (x, y), row-major; the brightness the generator
    /// samples is this value divided by 255.
    pub fn get_pixel_brightness(&self, x: usize, y: usize) -> (r: u8)
        requires
            self.wf(),
            x < self@.width,
            y < self@.height,
        ensures
            r == self@.pixels[y * self@.width + x],
    {
        let w = self.width as usize;
        let n = self.pixels.len();
        proof {
            let iw = self@.width as int;
            let ih = self@.height as int;
            assert((y as int) * iw + (x as int) < iw * ih) by (nonlinear_arith)
                requires
                    (x as int) < iw,
                    (y as int) < ih,
                    0 <= x as int,
                    0 <= y as int,
            ;
            assert(iw * ih == n as int);
            assert((y as int) * (w as int) + (x as int) < n as int);
        }
        self.pixels[y * w + x]
    }
}

} // verus!
