//! The layout of a processed image buffer as the SDK hands it over.

use vstd::prelude::*;

use crate::format::ResourceFormat;

verus! {

/// `width * height * bytes_per_pixel` of a format, saturated at
/// `usize::MAX`.
pub open spec fn pixel_bytes(width: int, height: int, format: ResourceFormat) -> int {
    let n = width * height * format.spec_bytes_per_pixel();
    if n <= usize::MAX {
        n
    } else {
        usize::MAX as int
    }
}

/// What the SDK reports about a fully decoded image: its dimensions, its
/// pixel format and the size of its buffer, which the SDK rounds up to a
/// 2048-byte boundary.
#[derive(Debug, Clone, Copy, PartialEq, Eq, Structural)]
pub struct ImageLayout {
    pub width: u32,
    pub height: u32,
    pub format: ResourceFormat,
    pub size_bytes: u32,
}

/// `a * b`, or `usize::MAX` where the product does not fit.
fn saturating_product(a: usize, b: usize) -> (r: usize)
    ensures
        r == (if a * b <= usize::MAX { a * b } else { usize::MAX as int }),
{
    match a.checked_mul(b) {
        Some(p) => p,
        None => usize::MAX,
    }
}

impl ImageLayout {
    /// The number of bytes that hold pixels.
    pub open spec fn spec_pixel_len(self) -> int {
        pixel_bytes(self.width as int, self.height as int, self.format)
    }

    /// How many bytes of a buffer of `full_len` bytes are pixel data.
    pub open spec fn spec_data_len(self, full_len: int) -> int {
        if self.spec_pixel_len() <= full_len {
            self.spec_pixel_len()
        } else {
            full_len
        }
    }

    /// The layout of an image whose SDK-reported format tag is
    /// `raw_format`, or `None` where the tag names no format this crate
    /// knows (the runtime is then ahead of [`ResourceFormat`]).
    pub fn from_sdk(width: u32, height: u32, raw_format: u32, size_bytes: u32) -> (r: Option<
        ImageLayout,
    >)
        ensures
            r is None <==> ResourceFormat::from_tag(raw_format as int) is None,
            r matches Some(l) ==> {
                &&& l.width == width
                &&& l.height == height
                &&& Some(l.format) == ResourceFormat::from_tag(raw_format as int)
                &&& l.size_bytes == size_bytes
            },
    {
        match ResourceFormat::from_raw(raw_format) {
            Some(format) => Some(ImageLayout { width, height, format, size_bytes }),
            None => None,
        }
    }

    /// Exactly `width * height * format.bytes_per_pixel()`: the number of
    /// bytes that hold pixels (saturated at `usize::MAX`).
    pub fn pixel_len(&self) -> (r: usize)
        ensures
            r == self.spec_pixel_len(),
            (self.width as int) * (self.height as int) * self.format.spec_bytes_per_pixel() <= usize::MAX ==> r == (self.width as int) * (self.height as int) * self.format.spec_bytes_per_pixel(),
            (self.width as int) * (self.height as int) * self.format.spec_bytes_per_pixel() > usize::MAX ==> r == usize::MAX,
    {
        let wh = saturating_product(self.width as usize, self.height as usize);
        let bpp = self.format.bytes_per_pixel() as usize;
        let r = saturating_product(wh, bpp);
        proof {
            let w = self.width as int;
            let h = self.height as int;
            let b = self.format.spec_bytes_per_pixel();
            assert(w * h >= 0) by (nonlinear_arith)
                requires
                    w >= 0,
                    h >= 0,
            ;
            if w * h > usize::MAX {
                assert(w * h * b >= w * h) by (nonlinear_arith)
                    requires
                        w * h >= 0,
                        b >= 1,
                ;
                assert(usize::MAX * b >= usize::MAX as int) by (nonlinear_arith)
                    requires
                        b >= 1,
                ;
            }
        }
        r
    }

    /// How many bytes of an SDK buffer of `full_len` bytes are pixel data:
    /// the pixel extent, cut short where the buffer is shorter.
    pub fn data_len(&self, full_len: usize) -> (r: usize)
        ensures
            r == self.spec_data_len(full_len as int),
            (self.width as int) * (self.height as int) * self.format.spec_bytes_per_pixel() <= full_len ==> r == (self.width as int) * (self.height as int) * self.format.spec_bytes_per_pixel(),
            (self.width as int) * (self.height as int) * self.format.spec_bytes_per_pixel() > full_len ==> r == full_len,
    {
        let p = self.pixel_len();
        if p <= full_len {
            p
        } else {
            full_len
        }
    }

    /// The pixel data of the SDK buffer `full`: its first
    /// [`data_len`](Self::data_len) bytes, without the tail padding.
    pub fn pixel_data<'a>(&self, full: &'a [u8]) -> (r: &'a [u8])
        ensures
            r@ == full@.subrange(0, self.spec_data_len(full@.len() as int)),
            (self.width as int) * (self.height as int) * self.format.spec_bytes_per_pixel() <= full@.len() ==> r@ == full@.subrange(0, (self.width as int) * (self.height as int) * self.format.spec_bytes_per_pixel()),
            (self.width as int) * (self.height as int) * self.format.spec_bytes_per_pixel() > full@.len() ==> r@ == full@,
    {
        let n = self.data_len(full.len());
        vstd::slice::slice_subrange(full, 0, n)
    }
}

/// Wherever it fits in a `usize`, the pixel extent is the full product of
/// width, height and bytes per pixel, for every format, planar or not.
pub proof fn lemma_pixel_len_is_product(l: ImageLayout)
    ensures
        (l.width as int) * (l.height as int) * l.format.spec_bytes_per_pixel() <= usize::MAX
            ==> l.spec_pixel_len() == (l.width as int) * (l.height as int)
            * l.format.spec_bytes_per_pixel(),
{
}

/// The pixel data is a prefix of the buffer, never longer than the buffer,
/// and exactly the pixel extent whenever the buffer holds that many bytes.
pub proof fn lemma_pixel_data_is_prefix(l: ImageLayout, full: Seq<u8>)
    ensures
        ({
            let n = l.spec_data_len(full.len() as int);
            &&& 0 <= n <= full.len()
            &&& l.spec_pixel_len() <= full.len() ==> n == l.spec_pixel_len()
            &&& full.subrange(0, n).len() == n
            &&& forall|i: int| 0 <= i < n ==> full.subrange(0, n)[i] == full[i]
        }),
{
    let w = l.width as int;
    let h = l.height as int;
    let b = l.format.spec_bytes_per_pixel();
    assert(w * h * b >= 0) by (nonlinear_arith)
        requires
            w >= 0,
            h >= 0,
            b >= 0,
    ;
}

} // verus!
