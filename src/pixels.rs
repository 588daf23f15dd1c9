//! The pixel source: a single-channel grid of brightness samples, and its
//! resampling through the image crate.

use vstd::prelude::*;

verus! {

/// The resampling strategy used whenever the grid is resized.
#[derive(Clone, Copy, Debug, PartialEq, Eq)]
pub enum Filter {
    Nearest,
    Triangle,
    CatmullRom,
    Gaussian,
    Lanczos3,
}

/// A row-major grid of one brightness sample per pixel.
#[derive(Debug)]
pub struct Pixels {
    width: u32,
    height: u32,
    data: Vec<u8>,
}

/// What a grid holds, as mathematical values.
pub struct PixelsView {
    pub width: nat,
    pub height: nat,
    pub data: Seq<u8>,
}

impl View for Pixels {
    type V = PixelsView;

    closed spec fn view(&self) -> PixelsView {
        PixelsView { width: self.width as nat, height: self.height as nat, data: self.data@ }
    }
}

impl PixelsView {
    /// One sample per pixel.
    pub open spec fn wf(self) -> bool {
        self.data.len() == self.width * self.height
    }

    /// The sample at `(x, y)`, and 0 for any coordinate outside the grid.
    pub open spec fn at(self, x: int, y: int) -> u8 {
        if 0 <= x < self.width && 0 <= y < self.height {
            self.data[y * self.width + x]
        } else {
            0
        }
    }
}

/// Whether resizing a `width` x `height` grid to `nwidth` x `nheight` keeps
/// every buffer the resampler allocates within the address space: the
/// intermediate one holds four floats per pixel of `width` x `nheight`.
pub open spec fn resize_fits(width: int, nwidth: int, nheight: int) -> bool {
    4 * width * nheight <= usize::MAX && nwidth * nheight <= usize::MAX
}

/// The samples that resampling a grid with a filter yields.
pub uninterp spec fn resampled(
    width: nat,
    height: nat,
    data: Seq<u8>,
    filter: Filter,
    nwidth: u32,
    nheight: u32,
) -> Seq<u8>;

/// Relies on image::imageops::resize on a `GrayImage`: the result is a grid of
/// exactly `nwidth` x `nheight` samples, a plain copy when the size is unchanged.
#[verifier::external_body]
fn resample(width: u32, height: u32, data: &Vec<u8>, filter: Filter, nwidth: u32, nheight: u32) -> (r: Vec<u8>)
    requires
        data@.len() == width * height,
        resize_fits(width as int, nwidth as int, nheight as int),
    ensures
        r@ == resampled(width as nat, height as nat, data@, filter, nwidth, nheight),
        r@.len() == nwidth * nheight,
        nwidth == width && nheight == height ==> r@ == data@,
{
    let filter = match filter {
        Filter::Nearest => image::imageops::FilterType::Nearest,
        Filter::Triangle => image::imageops::FilterType::Triangle,
        Filter::CatmullRom => image::imageops::FilterType::CatmullRom,
        Filter::Gaussian => image::imageops::FilterType::Gaussian,
        Filter::Lanczos3 => image::imageops::FilterType::Lanczos3,
    };
    match image::GrayImage::from_raw(width, height, data.clone()) {
        Some(img) => image::imageops::resize(&img, nwidth, nheight, filter).into_raw(),
        None => Vec::new(),
    }
}

impl Pixels {
    /// A grid from row-major samples; `None` unless there is exactly one
    /// sample per pixel.
    pub fn new(width: u32, height: u32, data: Vec<u8>) -> (r: Option<Pixels>)
        ensures
            r is Some <==> data@.len() == width * height,
            r matches Some(p) ==> p@ == (PixelsView {
                width: width as nat,
                height: height as nat,
                data: data@,
            }),
    {
        proof {
            assert((width as int) * (height as int) <= 0xffff_ffff * 0xffff_ffff) by (nonlinear_arith)
                requires width <= 0xffff_ffffu32, height <= 0xffff_ffffu32;
        }
        if (width as u64) * (height as u64) == data.len() as u64 {
            Some(Pixels { width, height, data })
        } else {
            None
        }
    }

    #[verifier::type_invariant]
    spec fn inv(&self) -> bool {
        self.data@.len() == self.width * self.height
    }

    pub fn width(&self) -> (r: u32)
        ensures
            r == self@.width,
    {
        self.width
    }

    pub fn height(&self) -> (r: u32)
        ensures
            r == self@.height,
    {
        self.height
    }

    /// The sample at `(x, y)`, 0 outside the grid.
    pub fn get(&self, x: u32, y: u32) -> (r: u8)
        ensures
            r == self@.at(x as int, y as int),
    {
        proof {
            use_type_invariant(self);
        }
        if x < self.width && y < self.height {
            let n = self.data.len();
            proof {
                assert((y as int) * self.width + x < self.width * self.height) by (nonlinear_arith)
                    requires x < self.width, y < self.height;
                assert((y as int) * self.width <= (y as int) * self.width + x);
                assert((y as usize) as int == y as int);
                assert((self.width as usize) as int == self.width as int);
            }
            self.data[(y as usize) * (self.width as usize) + x as usize]
        } else {
            0
        }
    }

    /// This grid resampled with `filter` to `nwidth` x `nheight`.
    pub fn resize(&self, nwidth: u32, nheight: u32, filter: Filter) -> (r: Pixels)
        requires
            resize_fits(self@.width as int, nwidth as int, nheight as int),
        ensures
            r@.wf(),
            r@.width == nwidth,
            r@.height == nheight,
            r@.data == resampled(self@.width, self@.height, self@.data, filter, nwidth, nheight),
    {
        proof {
            use_type_invariant(self);
        }
        let data = resample(self.width, self.height, &self.data, filter, nwidth, nheight);
        Pixels { width: nwidth, height: nheight, data }
    }
}

} // verus!
