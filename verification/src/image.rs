//! Packed and planar image descriptors and their geometry arithmetic.
//!
//! Every compress or decompress call is preceded by a validation of the
//! descriptor it was handed: a packed image must have a pitch and buffer
//! large enough for its declared geometry, and a planar YUV image must have a
//! buffer that holds all three (or, for grayscale, one) planes. Getting this
//! arithmetic wrong is how a native codec call turns into an out-of-bounds
//! write, so it is stated and proved exactly here.

use vstd::prelude::*;
use crate::arith::{
    div_ceil, div_ceil_u128, is_power_of_two, lemma_small_products_fit,
    lemma_u64_products_fit_u128, next_multiple_of, next_multiple_of_u128, power_of_two,
    spec_div_ceil, spec_next_multiple_of,
};
use crate::common::{Error, PixelFormat, Subsamp};

verus! {

/// A packed image with pixels of type `T` (typically `Vec<u8>`).
///
/// Data for the pixel in column `x` and row `y` is stored in `pixels` at
/// offset `y * pitch + x * format.size()`.
#[derive(Debug, Copy, Clone)]
pub struct Image<T> {
    /// Pixel data of the image.
    pub pixels: T,
    /// Width of the image in pixels (number of columns).
    pub width: usize,
    /// Pitch (stride): the size of one image row in bytes. Rows must not
    /// overlap, so `pitch >= width * format.size()`.
    pub pitch: usize,
    /// Height of the image in pixels (number of rows).
    pub height: usize,
    /// Format of the pixels in memory.
    pub format: PixelFormat,
}

impl<T> Image<T> {
    /// The geometry is consistent with a pixel buffer of `pixels_len` bytes:
    /// the pitch holds a full row, and the last row ends within the buffer.
    pub open spec fn valid_geometry(self, pixels_len: nat) -> bool {
        &&& self.pitch >= self.width * self.format.spec_size()
        &&& (self.height == 0 || self.pitch * (self.height - 1) + self.width
            * self.format.spec_size() <= pixels_len)
    }

    /// Checks the geometry against a pixel buffer of `pixels_len` bytes.
    ///
    /// A descriptor that fails this check is a caller-side memory-safety bug;
    /// every function that would pass the descriptor to the native codec
    /// demands this check as a precondition instead of failing at run time.
    pub fn is_valid(&self, pixels_len: usize) -> (r: bool)
        ensures
            r == self.valid_geometry(pixels_len as nat),
    {
        proof {
            lemma_u64_products_fit_u128(self.width as int, self.format.spec_size());
            if self.height >= 1 {
                lemma_u64_products_fit_u128(self.pitch as int, self.height - 1);
            }
        }
        let row_bytes: u128 = (self.width as u128) * (self.format.size() as u128);
        if (self.pitch as u128) < row_bytes {
            return false;
        }
        if self.height == 0 {
            return true;
        }
        let rows: u128 = (self.pitch as u128) * (((self.height - 1) as usize) as u128);
        if rows > (pixels_len as u128) {
            return false;
        }
        row_bytes <= (pixels_len as u128) - rows
    }
}

impl Image<Vec<u8>> {
    /// Converts from `&Image<Vec<u8>>` to `Image<&[u8]>`, keeping the
    /// geometry and borrowing the pixel bytes.
    pub fn as_deref(&self) -> (r: Image<&[u8]>)
        ensures
            r.pixels@ == self.pixels@,
            r.width == self.width,
            r.pitch == self.pitch,
            r.height == self.height,
            r.format == self.format,
    {
        Image {
            pixels: self.pixels.as_slice(),
            width: self.width,
            pitch: self.pitch,
            height: self.height,
            format: self.format,
        }
    }
}

/// A planar YUV (YCbCr) image with pixels of type `T` (typically `Vec<u8>`).
///
/// The pixel data stores the Y plane, then the U (Cb) plane, then the V (Cr)
/// plane. Plane sizes follow from the width, height, chrominance subsampling
/// and row alignment of the image.
#[derive(Debug, Copy, Clone)]
pub struct YuvImage<T> {
    /// Pixel data of the image.
    pub pixels: T,
    /// Width of the image in pixels (number of columns).
    pub width: usize,
    /// Row alignment in bytes (must be a power of 2). Each row of each plane
    /// is padded to the nearest multiple of `align`.
    pub align: usize,
    /// Height of the image in pixels (number of rows).
    pub height: usize,
    /// The level of chrominance subsampling used in the image.
    pub subsamp: Subsamp,
}

impl<T> YuvImage<T> {
    /// Width in bytes of the luminance (Y) plane: the image width padded to
    /// the horizontal subsampling factor and then to the row alignment.
    pub open spec fn spec_y_width(self) -> int {
        spec_next_multiple_of(
            spec_next_multiple_of(self.width as int, self.subsamp.spec_width()),
            self.align as int,
        )
    }

    /// Height in rows of the luminance (Y) plane: the image height padded to
    /// the vertical subsampling factor.
    pub open spec fn spec_y_height(self) -> int {
        spec_next_multiple_of(self.height as int, self.subsamp.spec_height())
    }

    /// Width in bytes of each chrominance (U, V) plane: the image width
    /// divided (rounding up) by the horizontal subsampling factor and then
    /// padded to the row alignment.
    pub open spec fn spec_uv_width(self) -> int {
        spec_next_multiple_of(
            spec_div_ceil(self.width as int, self.subsamp.spec_width()),
            self.align as int,
        )
    }

    /// Height in rows of each chrominance (U, V) plane: the image height
    /// divided (rounding up) by the vertical subsampling factor.
    pub open spec fn spec_uv_height(self) -> int {
        spec_div_ceil(self.height as int, self.subsamp.spec_height())
    }

    /// The dimensions are small enough for the plane arithmetic to stay within
    /// machine integers. Exceeding this is a caller-side bug, mirrored as a
    /// precondition of the plane-size functions.
    pub open spec fn dims_ok(self) -> bool {
        &&& self.align >= 1
        &&& self.width + 4 + self.align <= usize::MAX
        &&& self.height + 4 <= usize::MAX
    }

    /// Computes the width in bytes of the luminance (Y) plane.
    pub fn y_width(&self) -> (r: usize)
        requires
            self.dims_ok(),
        ensures
            r == self.spec_y_width(),
            self.width <= r <= self.width + 3 + self.align - 1,
    {
        let width = next_multiple_of(self.width, self.subsamp.width());
        next_multiple_of(width, self.align)
    }

    /// Computes the height in rows of the luminance (Y) plane.
    pub fn y_height(&self) -> (r: usize)
        requires
            self.dims_ok(),
        ensures
            r == self.spec_y_height(),
            self.height <= r <= self.height + 3,
    {
        next_multiple_of(self.height, self.subsamp.height())
    }

    /// Computes the size of the luminance (Y) plane as (width, height).
    pub fn y_size(&self) -> (r: (usize, usize))
        requires
            self.dims_ok(),
        ensures
            r.0 == self.spec_y_width(),
            r.1 == self.spec_y_height(),
    {
        (self.y_width(), self.y_height())
    }

    /// Computes the width in bytes of each chrominance (U, V) plane.
    pub fn uv_width(&self) -> (r: usize)
        requires
            self.dims_ok(),
        ensures
            r == self.spec_uv_width(),
            r <= self.width + self.align - 1,
    {
        let width = div_ceil(self.width, self.subsamp.width());
        next_multiple_of(width, self.align)
    }

    /// Computes the height in rows of each chrominance (U, V) plane.
    pub fn uv_height(&self) -> (r: usize)
        requires
            self.dims_ok(),
        ensures
            r == self.spec_uv_height(),
            r <= self.height,
    {
        div_ceil(self.height, self.subsamp.height())
    }

    /// Computes the size of each chrominance (U, V) plane as (width, height).
    pub fn uv_size(&self) -> (r: (usize, usize))
        requires
            self.dims_ok(),
        ensures
            r.0 == self.spec_uv_width(),
            r.1 == self.spec_uv_height(),
    {
        (self.uv_width(), self.uv_height())
    }

    /// The geometry is consistent with a pixel buffer of `pixels_len` bytes:
    /// the row alignment is a power of two, the planes fit in machine
    /// integers, and the buffer holds all of them.
    pub open spec fn valid_geometry(self, pixels_len: nat) -> bool {
        &&& self.width <= 0x7fff_ffff
        &&& self.align <= 0x7fff_ffff
        &&& self.height <= 0x7fff_ffff
        &&& is_power_of_two(self.align as int)
        &&& spec_yuv_pixels_len(
            self.width as int,
            self.align as int,
            self.height as int,
            self.subsamp,
        ) <= pixels_len <= usize::MAX
    }

    /// Checks the geometry against a pixel buffer of `pixels_len` bytes.
    ///
    /// As with packed images, a planar descriptor that fails this check is a
    /// caller-side memory-safety bug; the functions that marshal the
    /// descriptor for the native codec demand the check as a precondition.
    pub fn is_valid(&self, pixels_len: usize) -> (r: bool)
        ensures
            r == self.valid_geometry(pixels_len as nat),
    {
        match yuv_pixels_len(self.width, self.align, self.height, self.subsamp) {
            Ok(min_len) => min_len <= pixels_len,
            Err(_) => false,
        }
    }
}

/// The number of bytes a planar YUV image occupies: the aligned luminance
/// plane plus, unless the image is grayscale, two chrominance planes. An
/// image with unknown subsampling has no planar representation and sizes to
/// zero; so does a non-positive alignment, whose planes are degenerate.
pub open spec fn spec_yuv_pixels_len(width: int, align: int, height: int, subsamp: Subsamp) -> int {
    if align < 1 || subsamp == Subsamp::Unknown {
        0
    } else {
        let img = YuvImage {
            pixels: (),
            width: width as usize,
            align: align as usize,
            height: height as usize,
            subsamp,
        };
        if subsamp == Subsamp::Gray {
            img.spec_y_width() * img.spec_y_height()
        } else {
            img.spec_y_width() * img.spec_y_height() + 2 * (img.spec_uv_width()
                * img.spec_uv_height())
        }
    }
}

impl YuvImage<Vec<u8>> {
    /// Converts from `&YuvImage<Vec<u8>>` to `YuvImage<&[u8]>`, keeping the
    /// geometry and borrowing the pixel bytes.
    pub fn as_deref(&self) -> (r: YuvImage<&[u8]>)
        ensures
            r.pixels@ == self.pixels@,
            r.width == self.width,
            r.align == self.align,
            r.height == self.height,
            r.subsamp == self.subsamp,
    {
        YuvImage {
            pixels: self.pixels.as_slice(),
            width: self.width,
            align: self.align,
            height: self.height,
            subsamp: self.subsamp,
        }
    }
}

/// The planar size of an image is exactly the sum of its plane sizes: the
/// aligned luminance plane plus, unless the image is grayscale, two
/// chrominance planes.
pub proof fn lemma_yuv_pixels_len_is_plane_sum<T>(img: YuvImage<T>)
    requires
        img.align >= 1,
        img.subsamp != Subsamp::Unknown,
    ensures
        img.subsamp != Subsamp::Gray ==> spec_yuv_pixels_len(
            img.width as int,
            img.align as int,
            img.height as int,
            img.subsamp,
        ) == img.spec_y_width() * img.spec_y_height() + 2 * (img.spec_uv_width()
            * img.spec_uv_height()),
        img.subsamp == Subsamp::Gray ==> spec_yuv_pixels_len(
            img.width as int,
            img.align as int,
            img.height as int,
            img.subsamp,
        ) == img.spec_y_width() * img.spec_y_height(),
{
}

/// Determines the size in bytes of a planar YUV image with the given width,
/// height, chrominance subsampling and row alignment.
///
/// The row alignment must be a power of two, since the native codec lays its
/// plane rows out that way; any other alignment is refused here so that no
/// buffer can be sized for a layout the codec will never produce. A dimension
/// that does not fit in the native integer width, or a total that does not
/// fit in `usize`, is an `IntegerOverflow` error.
pub fn yuv_pixels_len(width: usize, align: usize, height: usize, subsamp: Subsamp) -> (r: Result<
    usize,
    Error,
>)
    ensures
        width > 0x7fff_ffff ==> r == Err::<usize, Error>(Error::IntegerOverflow("width")),
        width <= 0x7fff_ffff && align > 0x7fff_ffff ==> r == Err::<usize, Error>(
            Error::IntegerOverflow("align"),
        ),
        width <= 0x7fff_ffff && align <= 0x7fff_ffff && height > 0x7fff_ffff ==> r == Err::<
            usize,
            Error,
        >(Error::IntegerOverflow("height")),
        width <= 0x7fff_ffff && align <= 0x7fff_ffff && height <= 0x7fff_ffff
            && !is_power_of_two(align as int) ==> (r matches Err(Error::TurboJpegError(m))
            && m@ == "row alignment must be a power of 2"@),
        r matches Ok(n) ==> n == spec_yuv_pixels_len(
            width as int,
            align as int,
            height as int,
            subsamp,
        ),
        r is Ok ==> width <= 0x7fff_ffff && align <= 0x7fff_ffff && height <= 0x7fff_ffff
            && is_power_of_two(align as int),
        width <= 0x7fff_ffff && align <= 0x7fff_ffff && height <= 0x7fff_ffff && is_power_of_two(
            align as int,
        ) ==> {
            let total = spec_yuv_pixels_len(width as int, align as int, height as int, subsamp);
            &&& (r is Ok <==> total <= usize::MAX)
            &&& (total > usize::MAX ==> r == Err::<usize, Error>(Error::IntegerOverflow(
                "yuv size",
            )))
        },
{
    if width > 0x7fff_ffff {
        return Err(Error::IntegerOverflow("width"));
    }
    if align > 0x7fff_ffff {
        return Err(Error::IntegerOverflow("align"));
    }
    if height > 0x7fff_ffff {
        return Err(Error::IntegerOverflow("height"));
    }
    if !power_of_two(align) {
        return Err(
            Error::TurboJpegError(String::from_str("row alignment must be a power of 2")),
        );
    }
    if matches!(subsamp, Subsamp::Unknown) {
        return Ok(0);
    }
    let y_w: u128 = next_multiple_of_u128(
        next_multiple_of_u128(width as u128, subsamp.width() as u128),
        align as u128,
    );
    let y_h: u128 = next_multiple_of_u128(height as u128, subsamp.height() as u128);
    let uv_w: u128 = next_multiple_of_u128(
        div_ceil_u128(width as u128, subsamp.width() as u128),
        align as u128,
    );
    let uv_h: u128 = div_ceil_u128(height as u128, subsamp.height() as u128);
    proof {
        lemma_small_products_fit(y_w as int, y_h as int);
        lemma_small_products_fit(uv_w as int, uv_h as int);
    }
    let total: u128 = if matches!(subsamp, Subsamp::Gray) {
        y_w * y_h
    } else {
        y_w * y_h + 2 * (uv_w * uv_h)
    };
    if total > (usize::MAX as u128) {
        return Err(Error::IntegerOverflow("yuv size"));
    }
    Ok(total as usize)
}

} // verus!
