//! The compression session and compressed-size bounds.
//!
//! A compressor holds the parameters that persist across native compress
//! calls on one handle: quality, chrominance subsampling and optimized
//! entropy coding. A compress call is prepared here — the image descriptor is
//! validated and marshalled to the native call shape, and the no-realloc flag
//! follows the ownership of the output buffer — and its outcome is committed
//! to the output buffer with `commit_codec_reply`.

use vstd::prelude::*;
use vstd::arithmetic::div_mod::lemma_div_is_ordered_by_denominator;
use vstd::string::StringExecFns;
use crate::arith::{
    lemma_small_products_fit, next_multiple_of_u128, spec_next_multiple_of,
};
use crate::buf::OutputBuf;
use crate::common::{Error, Subsamp};
use crate::image::{Image, YuvImage};

verus! {

/// The arguments of one native packed-pixel compress call, as the ABI
/// expects them.
#[derive(Debug, Copy, Clone, PartialEq, Eq, Structural)]
pub struct CompressRequest {
    /// Input image width in pixels.
    pub width: i32,
    /// Input row pitch in bytes.
    pub pitch: i32,
    /// Input image height in pixels.
    pub height: i32,
    /// Raw code of the input pixel format.
    pub format_code: i32,
    /// Whether the codec must not reallocate the output buffer; set exactly
    /// when the output buffer is borrowed.
    pub no_realloc: bool,
}

/// The arguments of one native planar-YUV compress call, as the ABI
/// expects them.
#[derive(Debug, Copy, Clone, PartialEq, Eq, Structural)]
pub struct CompressYuvRequest {
    /// Input image width in pixels.
    pub width: i32,
    /// Row alignment of the input planes in bytes.
    pub align: i32,
    /// Input image height in pixels.
    pub height: i32,
    /// Raw code of the input chrominance subsampling.
    pub subsamp_code: i32,
    /// Whether the codec must not reallocate the output buffer; set exactly
    /// when the output buffer is borrowed.
    pub no_realloc: bool,
}

/// A compression session: the parameters that persist across native compress
/// calls on one handle.
#[derive(Debug)]
pub struct Compressor {
    quality: i32,
    subsamp: Subsamp,
    optimize: bool,
}

impl Compressor {
    /// The quality of the compressed images, from 1 (worst) to 100 (best).
    pub closed spec fn spec_quality(self) -> int {
        self.quality as int
    }

    /// The chrominance subsampling of the compressed images.
    pub closed spec fn spec_subsamp(self) -> Subsamp {
        self.subsamp
    }

    /// Whether optimized baseline entropy coding is enabled.
    pub closed spec fn spec_optimize(self) -> bool {
        self.optimize
    }

    /// Creates a new compression session with the default parameters:
    /// quality 95, no subsampling, no optimized entropy coding.
    pub fn new() -> (r: Compressor)
        ensures
            r.spec_quality() == 95,
            r.spec_subsamp() == Subsamp::Sub1x1,
            !r.spec_optimize(),
    {
        Compressor { quality: 95, subsamp: Subsamp::Sub1x1, optimize: false }
    }

    /// The quality set by `set_quality`.
    pub fn quality(&self) -> (r: i32)
        ensures
            r == self.spec_quality(),
    {
        self.quality
    }

    /// The subsampling set by `set_subsamp`.
    pub fn subsamp(&self) -> (r: Subsamp)
        ensures
            r == self.spec_subsamp(),
    {
        self.subsamp
    }

    /// Whether optimized entropy coding was enabled by `set_optimize`.
    pub fn optimize(&self) -> (r: bool)
        ensures
            r == self.spec_optimize(),
    {
        self.optimize
    }

    /// Sets the quality of the compressed images.
    ///
    /// The native parameter range is 1 (worst) to 100 (best); a value outside
    /// it is refused, as the native parameter setter refuses it, and the
    /// session keeps its previous quality.
    pub fn set_quality(&mut self, quality: i32) -> (r: Result<(), Error>)
        ensures
            r is Ok <==> 1 <= quality <= 100,
            r is Ok ==> final(self).spec_quality() == quality,
            r is Err ==> final(self).spec_quality() == old(self).spec_quality() && r matches Err(
                Error::TurboJpegError(_),
            ),
            final(self).spec_subsamp() == old(self).spec_subsamp(),
            final(self).spec_optimize() == old(self).spec_optimize(),
    {
        if quality < 1 || quality > 100 {
            return Err(Error::TurboJpegError(String::from_str("parameter value out of range")));
        }
        self.quality = quality;
        Ok(())
    }

    /// Sets the level of chrominance subsampling of the compressed images.
    ///
    /// The unknown-subsampling sentinel has no valid native code and is
    /// refused, as the native parameter setter refuses it.
    pub fn set_subsamp(&mut self, subsamp: Subsamp) -> (r: Result<(), Error>)
        ensures
            r is Ok <==> subsamp != Subsamp::Unknown,
            r is Ok ==> final(self).spec_subsamp() == subsamp,
            r is Err ==> final(self).spec_subsamp() == old(self).spec_subsamp() && r matches Err(
                Error::TurboJpegError(_),
            ),
            final(self).spec_quality() == old(self).spec_quality(),
            final(self).spec_optimize() == old(self).spec_optimize(),
    {
        if matches!(subsamp, Subsamp::Unknown) {
            return Err(Error::TurboJpegError(String::from_str("parameter value out of range")));
        }
        self.subsamp = subsamp;
        Ok(())
    }

    /// Enables or disables optimized baseline entropy coding, which improves
    /// compression slightly at a considerable cost in speed.
    pub fn set_optimize(&mut self, optimize: bool) -> (r: Result<(), Error>)
        ensures
            r is Ok,
            final(self).spec_optimize() == optimize,
            final(self).spec_quality() == old(self).spec_quality(),
            final(self).spec_subsamp() == old(self).spec_subsamp(),
    {
        self.optimize = optimize;
        Ok(())
    }

    /// The maximum size of an image of the given dimensions compressed with
    /// this session's current subsampling; see `compressed_buf_len`.
    pub fn buf_len(&self, width: usize, height: usize) -> (r: Result<usize, Error>)
        ensures
            width > 0x7fff_ffff ==> r == Err::<usize, Error>(Error::IntegerOverflow("width")),
            width <= 0x7fff_ffff && height > 0x7fff_ffff ==> r == Err::<usize, Error>(
                Error::IntegerOverflow("height"),
            ),
            r matches Ok(n) ==> n == spec_compressed_buf_len(
                width as int,
                height as int,
                self.spec_subsamp(),
            ),
            width <= 0x7fff_ffff && height <= 0x7fff_ffff ==> (r is Ok
                <==> spec_compressed_buf_len(width as int, height as int, self.spec_subsamp())
                <= usize::MAX),
    {
        compressed_buf_len(width, height, self.subsamp)
    }

    /// Validates and marshals a packed-pixel compress call. The caller must
    /// have established the image geometry against its pixel buffer; a
    /// dimension beyond the native integer width is a recoverable overflow
    /// error. The request tells the codec not to reallocate exactly when the
    /// output buffer is borrowed.
    pub fn prepare_compress<T>(
        &self,
        image: &Image<T>,
        pixels_len: usize,
        output: &OutputBuf,
    ) -> (r: Result<CompressRequest, Error>)
        requires
            image.valid_geometry(pixels_len as nat),
        ensures
            image.width > 0x7fff_ffff ==> r == Err::<CompressRequest, Error>(
                Error::IntegerOverflow("width"),
            ),
            image.width <= 0x7fff_ffff && image.pitch > 0x7fff_ffff ==> r == Err::<
                CompressRequest,
                Error,
            >(Error::IntegerOverflow("pitch")),
            image.width <= 0x7fff_ffff && image.pitch <= 0x7fff_ffff && image.height > 0x7fff_ffff
                ==> r == Err::<CompressRequest, Error>(Error::IntegerOverflow("height")),
            r is Ok <==> image.width <= 0x7fff_ffff && image.pitch <= 0x7fff_ffff && image.height
                <= 0x7fff_ffff,
            r matches Ok(req) ==> req.width == image.width && req.pitch == image.pitch
                && req.height == image.height && req.format_code == image.format.spec_code()
                && req.no_realloc == !output.spec_is_owned(),
    {
        if image.width > 0x7fff_ffff {
            return Err(Error::IntegerOverflow("width"));
        }
        if image.pitch > 0x7fff_ffff {
            return Err(Error::IntegerOverflow("pitch"));
        }
        if image.height > 0x7fff_ffff {
            return Err(Error::IntegerOverflow("height"));
        }
        Ok(
            CompressRequest {
                width: image.width as i32,
                pitch: image.pitch as i32,
                height: image.height as i32,
                format_code: image.format.code(),
                no_realloc: !output.is_owned(),
            },
        )
    }

    /// Validates and marshals a planar-YUV compress call. Compression from
    /// YUV derives its chrominance ratio from the input image rather than a
    /// separately configured value, so the session's subsampling is re-set
    /// from the descriptor; an image with unknown subsampling is refused, as
    /// the native parameter setter refuses its code.
    pub fn prepare_compress_yuv<T>(
        &mut self,
        image: &YuvImage<T>,
        pixels_len: usize,
        output: &OutputBuf,
    ) -> (r: Result<CompressYuvRequest, Error>)
        requires
            image.valid_geometry(pixels_len as nat),
        ensures
            r is Ok <==> image.subsamp != Subsamp::Unknown,
            r is Err ==> (r matches Err(Error::TurboJpegError(_))) && final(self).spec_subsamp()
                == old(self).spec_subsamp(),
            r matches Ok(req) ==> req.width == image.width && req.align == image.align
                && req.height == image.height && req.subsamp_code == image.subsamp.spec_code()
                && req.no_realloc == !output.spec_is_owned() && final(self).spec_subsamp()
                == image.subsamp,
            final(self).spec_quality() == old(self).spec_quality(),
            final(self).spec_optimize() == old(self).spec_optimize(),
    {
        match self.set_subsamp(image.subsamp) {
            Ok(_) => {},
            Err(e) => {
                return Err(e);
            },
        }
        Ok(
            CompressYuvRequest {
                width: image.width as i32,
                align: image.align as i32,
                height: image.height as i32,
                subsamp_code: image.subsamp.code(),
                no_realloc: !output.is_owned(),
            },
        )
    }
}

/// The worst-case size of a JPEG image of `width` by `height` pixels at the
/// given subsampling: every MCU fully coded plus header room. Grayscale
/// images carry no chrominance blocks; an unknown subsampling is sized like
/// 4:4:4, the largest case. Dimensions less than one have no JPEG form and
/// size to zero, as the native size query reports them.
pub open spec fn spec_compressed_buf_len(width: int, height: int, subsamp: Subsamp) -> int {
    if width < 1 || height < 1 {
        0
    } else {
        let mcu_w = 8 * subsamp.spec_width();
        let mcu_h = 8 * subsamp.spec_height();
        let chroma_sf = if subsamp == Subsamp::Gray {
            0int
        } else {
            256int / (mcu_w * mcu_h)
        };
        spec_next_multiple_of(width, mcu_w) * spec_next_multiple_of(height, mcu_h) * (2 + chroma_sf)
            + 2048
    }
}

/// Computes the maximum size of a compressed image of `width` by `height`
/// pixels at the given subsampling: a buffer this large always holds the
/// compressed image, whatever the pixel content.
///
/// Returns an `IntegerOverflow` error when a dimension does not fit in the
/// native integer width or the total does not fit in `usize`.
pub fn compressed_buf_len(width: usize, height: usize, subsamp: Subsamp) -> (r: Result<
    usize,
    Error,
>)
    ensures
        width > 0x7fff_ffff ==> r == Err::<usize, Error>(Error::IntegerOverflow("width")),
        width <= 0x7fff_ffff && height > 0x7fff_ffff ==> r == Err::<usize, Error>(
            Error::IntegerOverflow("height"),
        ),
        r matches Ok(n) ==> n == spec_compressed_buf_len(width as int, height as int, subsamp),
        width <= 0x7fff_ffff && height <= 0x7fff_ffff ==> {
            let total = spec_compressed_buf_len(width as int, height as int, subsamp);
            &&& (r is Ok <==> total <= usize::MAX)
            &&& (total > usize::MAX ==> r == Err::<usize, Error>(Error::IntegerOverflow(
                "buf len",
            )))
        },
{
    if width > 0x7fff_ffff {
        return Err(Error::IntegerOverflow("width"));
    }
    if height > 0x7fff_ffff {
        return Err(Error::IntegerOverflow("height"));
    }
    if width < 1 || height < 1 {
        return Ok(0);
    }
    let (sub_w, sub_h) = subsamp.size();
    let mcu_w: u128 = 8 * (sub_w as u128);
    let mcu_h: u128 = 8 * (sub_h as u128);
    proof {
        assert(64 <= (mcu_w as int) * (mcu_h as int) <= 1024) by (nonlinear_arith)
            requires
                8 <= mcu_w <= 32,
                8 <= mcu_h <= 32,
        ;
        lemma_div_is_ordered_by_denominator(256, 64, (mcu_w as int) * (mcu_h as int));
    }
    let chroma_sf: u128 = if matches!(subsamp, Subsamp::Gray) {
        0
    } else {
        256 / (mcu_w * mcu_h)
    };
    let padded_w: u128 = next_multiple_of_u128(width as u128, mcu_w);
    let padded_h: u128 = next_multiple_of_u128(height as u128, mcu_h);
    proof {
        lemma_small_products_fit(padded_w as int, padded_h as int);
        assert(padded_w * padded_h * (2 + chroma_sf) <= 0x6_0000_0000_0000_0000) by (
        nonlinear_arith)
            requires
                0 <= padded_w * padded_h <= 0x1_0000_0000_0000_0000,
                0 <= chroma_sf <= 4,
        ;
    }
    let blocks: u128 = padded_w * padded_h;
    let total: u128 = blocks * (2 + chroma_sf) + 2048;
    if total > (usize::MAX as u128) {
        return Err(Error::IntegerOverflow("buf len"));
    }
    Ok(total as usize)
}

} // verus!
