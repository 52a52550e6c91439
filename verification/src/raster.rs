//! Pixel rasters: captured RGBA frames and the luminance grids the
//! matcher works on.
//!
//! An `RgbaRaster` is a row-major grid of 4-byte RGBA pixels, exactly
//! as a capture or a decoded image hands it over. A `LumaRaster` is the
//! same grid reduced to one scaled-integer luminance sample per pixel
//! (see the `luma` module); frames and templates both take this form,
//! which is what makes them comparable.

use vstd::prelude::*;

use crate::luma::{luma_value, rgba_to_luma, LUMA_SCALE};

verus! {

/// A row-major RGBA image: pixel (x, y) occupies bytes
/// `4*(y*width + x) .. 4*(y*width + x) + 4` in `pixels`, in the order
/// red, green, blue, alpha.
pub struct RgbaRaster {
    pub width: u32,
    pub height: u32,
    pub pixels: Vec<u8>,
}

impl RgbaRaster {
    /// The byte buffer holds exactly one 4-byte pixel per grid cell.
    pub open spec fn wf(&self) -> bool {
        self.pixels@.len() == 4 * self.width * self.height
    }

    /// Scaled luminance of the i-th pixel in row-major order.
    pub open spec fn pixel_luma(&self, i: int) -> int {
        luma_value(
            self.pixels@[4 * i],
            self.pixels@[4 * i + 1],
            self.pixels@[4 * i + 2],
            self.pixels@[4 * i + 3],
        )
    }
}

/// A row-major grid of scaled luminance samples: sample (x, y) is
/// `data[y*width + x]`.
pub struct LumaRaster {
    pub width: u32,
    pub height: u32,
    pub data: Vec<u32>,
}

impl LumaRaster {
    /// One sample per grid cell, every sample within luminance scale.
    pub open spec fn wf(&self) -> bool {
        &&& self.data@.len() == self.width * self.height
        &&& forall|i: int| 0 <= i < self.data@.len() ==> self.data@[i] <= LUMA_SCALE
    }

    /// The sample at column x, row y.
    pub open spec fn at(&self, x: int, y: int) -> int {
        self.data@[y * self.width + x] as int
    }
}

/// The luminance samples an RGBA pixel buffer of the given dimensions
/// converts to, in row-major order.
pub open spec fn luma_plane(width: u32, height: u32, pixels: Seq<u8>) -> Seq<u32> {
    Seq::new(
        (width * height) as nat,
        |i: int|
            luma_value(
                pixels[4 * i],
                pixels[4 * i + 1],
                pixels[4 * i + 2],
                pixels[4 * i + 3],
            ) as u32,
    )
}

/// A valid grid coordinate indexes within the backing vector.
pub proof fn lemma_grid_index(w: int, h: int, x: int, y: int)
    requires
        0 <= x < w,
        0 <= y < h,
    ensures
        0 <= y * w + x < w * h,
{
    assert(0 <= y * w + x < w * h) by (nonlinear_arith)
        requires
            0 <= x < w,
            0 <= y < h,
    ;
}

/// Converts an RGBA raster to the luminance raster of the same
/// dimensions, pixel by pixel. This one conversion serves captured
/// frames and loaded templates alike.
pub fn rgba_to_luma_raster(img: &RgbaRaster) -> (r: LumaRaster)
    requires
        img.wf(),
    ensures
        r.wf(),
        r.width == img.width,
        r.height == img.height,
        forall|i: int| 0 <= i < r.data@.len() ==> r.data@[i] == img.pixel_luma(i),
        r.data@ == luma_plane(img.width, img.height, img.pixels@),
{
    proof {
        assert(4 * img.width * img.height == 4 * (img.width * img.height))
            by (nonlinear_arith);
    }
    let len: usize = img.pixels.len();
    let n: usize = len / 4;
    assert(n == img.width * img.height);
    assert(4 * n <= usize::MAX);
    let mut data: Vec<u32> = Vec::new();
    let mut i: usize = 0;
    while i < n
        invariant
            img.wf(),
            n == img.width * img.height,
            4 * n == img.pixels@.len(),
            4 * n <= usize::MAX,
            i <= n,
            data@.len() == i,
            forall|j: int| 0 <= j < i ==> #[trigger] data@[j] == img.pixel_luma(j),
            forall|j: int| 0 <= j < i ==> #[trigger] data@[j] <= LUMA_SCALE,
        decreases n - i,
    {
        let l: u32 = rgba_to_luma(
            img.pixels[4 * i],
            img.pixels[4 * i + 1],
            img.pixels[4 * i + 2],
            img.pixels[4 * i + 3],
        );
        data.push(l);
        i = i + 1;
    }
    proof {
        assert(data@ =~= luma_plane(img.width, img.height, img.pixels@));
    }
    LumaRaster { width: img.width, height: img.height, data }
}

} // verus!
