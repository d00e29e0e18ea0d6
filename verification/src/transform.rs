//! Lossless transformations of JPEG-coded data.
//!
//! The codec can flip, rotate and transpose an already-encoded image without
//! a decode/encode cycle. The constraint that matters here: entropy-coded
//! data is manipulated one MCU block at a time, so a crop region must start
//! on an MCU boundary unless the caller asked for partial blocks to be
//! trimmed. That validation, and the marshalling of the transform descriptor
//! to the native call shape, is done (and proved) before any native call.

use vstd::prelude::*;
use vstd::string::StringExecFns;
use crate::buf::OutputBuf;
use crate::common::{Error, Subsamp};
use crate::decompress::DecompressHeader;

verus! {

/// A geometric transform operation on JPEG-coded data.
#[derive(Debug, Copy, Clone, PartialEq, Eq, Structural)]
pub enum TransformOp {
    /// No geometric transformation.
    Identity,
    /// Flip horizontally (left-right).
    Hflip,
    /// Flip vertically (top-bottom).
    Vflip,
    /// Transpose (flip across the upper-left to lower-right axis).
    Transpose,
    /// Transverse transpose (flip across the upper-right to lower-left axis).
    Transverse,
    /// Rotate 90 degrees clockwise.
    Rot90,
    /// Rotate 180 degrees.
    Rot180,
    /// Rotate 270 degrees clockwise.
    Rot270,
}

impl TransformOp {
    /// The raw integer code of this operation in the native ABI.
    pub open spec fn spec_code(self) -> int {
        match self {
            TransformOp::Identity => 0,
            TransformOp::Hflip => 1,
            TransformOp::Vflip => 2,
            TransformOp::Transpose => 3,
            TransformOp::Transverse => 4,
            TransformOp::Rot90 => 5,
            TransformOp::Rot180 => 6,
            TransformOp::Rot270 => 7,
        }
    }

    /// The raw integer code of this operation in the native ABI.
    pub fn code(self) -> (r: i32)
        ensures
            r == self.spec_code(),
    {
        match self {
            TransformOp::Identity => 0,
            TransformOp::Hflip => 1,
            TransformOp::Vflip => 2,
            TransformOp::Transpose => 3,
            TransformOp::Transverse => 4,
            TransformOp::Rot90 => 5,
            TransformOp::Rot180 => 6,
            TransformOp::Rot270 => 7,
        }
    }
}

/// A crop region applied before the transform operation. A missing width or
/// height extends the region to the image edge.
#[derive(Debug, Copy, Clone, PartialEq, Eq, Structural)]
pub struct TransformCrop {
    /// Left edge of the region in pixels.
    pub x: usize,
    /// Top edge of the region in pixels.
    pub y: usize,
    /// Width of the region in pixels, or to the right edge when absent.
    pub width: Option<usize>,
    /// Height of the region in pixels, or to the bottom edge when absent.
    pub height: Option<usize>,
}

/// A lossless transform descriptor: the operation, its flags and an optional
/// crop region. Consumed once per transform call.
#[derive(Debug, Copy, Clone, PartialEq, Eq, Structural)]
pub struct Transform {
    /// The geometric operation to apply.
    pub op: TransformOp,
    /// Fail rather than transform when the transform would not be perfectly
    /// lossless (an image whose size is no multiple of the MCU size cannot be
    /// flipped or rotated losslessly without trimming).
    pub perfect: bool,
    /// Discard any partial MCU blocks that the transform cannot process.
    pub trim: bool,
    /// Crop to this region before transforming, when present.
    pub crop: Option<TransformCrop>,
    /// Discard color data, producing a grayscale image.
    pub gray: bool,
    /// Force progressive entropy coding in the output.
    pub progressive: bool,
    /// Force optimized baseline entropy coding in the output.
    pub optimize: bool,
    /// Strip metadata (markers other than the image data) from the output.
    pub copy_none: bool,
}

/// The arguments of one native transform call, as the ABI expects them: the
/// operation code, its flags, and the crop region with zero standing for "to
/// the image edge", as the native region struct encodes it.
#[derive(Debug, Copy, Clone, PartialEq, Eq, Structural)]
pub struct TransformRequest {
    /// Raw code of the transform operation.
    pub op_code: i32,
    /// Whether an imperfect transform must fail.
    pub perfect: bool,
    /// Whether partial MCU blocks are trimmed.
    pub trim: bool,
    /// Whether the output is reduced to grayscale.
    pub gray: bool,
    /// Whether progressive entropy coding is forced.
    pub progressive: bool,
    /// Whether optimized entropy coding is forced.
    pub optimize: bool,
    /// Whether metadata is stripped.
    pub copy_none: bool,
    /// Whether a crop region is applied at all.
    pub crop: bool,
    /// Left edge of the crop region.
    pub crop_x: i32,
    /// Top edge of the crop region.
    pub crop_y: i32,
    /// Width of the crop region; zero extends to the right edge.
    pub crop_w: i32,
    /// Height of the crop region; zero extends to the bottom edge.
    pub crop_h: i32,
    /// Whether the codec must not reallocate the output buffer; set exactly
    /// when the output buffer is borrowed.
    pub no_realloc: bool,
}

/// A lossless-transformation session. It has no parameters of its own; it
/// exists to drive transform calls on one handle, with output buffer
/// semantics identical to compression.
#[derive(Debug)]
pub struct Transformer {}

impl Transformer {
    /// Creates a new transformation session.
    pub fn new() -> Transformer {
        Transformer {  }
    }

    /// Validates and marshals a transform call against the header of the
    /// source image.
    ///
    /// A crop region must start on an MCU boundary of the source's
    /// subsampling unless `trim` is set, and a source with unknown
    /// subsampling can only be cropped when it is reduced to grayscale;
    /// either violation is refused before the native call, as the native
    /// layer would refuse it. Crop coordinates beyond the native integer
    /// width are recoverable overflow errors.
    pub fn prepare_transform(
        &self,
        transform: &Transform,
        header: &DecompressHeader,
        output: &OutputBuf,
    ) -> (r: Result<TransformRequest, Error>)
        ensures
            transform.crop is None ==> (r matches Ok(req) && req == TransformRequest {
                op_code: transform.op.spec_code() as i32,
                perfect: transform.perfect,
                trim: transform.trim,
                gray: transform.gray,
                progressive: transform.progressive,
                optimize: transform.optimize,
                copy_none: transform.copy_none,
                crop: false,
                crop_x: 0,
                crop_y: 0,
                crop_w: 0,
                crop_h: 0,
                no_realloc: !output.spec_is_owned(),
            }),
            transform.crop matches Some(c) ==> {
                let mcu_w = 8 * header.subsamp.spec_width();
                let mcu_h = 8 * header.subsamp.spec_height();
                &&& (c.x > 0x7fff_ffff ==> r == Err::<TransformRequest, Error>(
                    Error::IntegerOverflow("x"),
                ))
                &&& (c.x <= 0x7fff_ffff && c.y > 0x7fff_ffff ==> r == Err::<
                    TransformRequest,
                    Error,
                >(Error::IntegerOverflow("y")))
                &&& (c.x <= 0x7fff_ffff && c.y <= 0x7fff_ffff && (c.width matches Some(w) && w
                    > 0x7fff_ffff) ==> r == Err::<TransformRequest, Error>(
                    Error::IntegerOverflow("width"),
                ))
                &&& (c.x <= 0x7fff_ffff && c.y <= 0x7fff_ffff && !(c.width matches Some(w) && w
                    > 0x7fff_ffff) && (c.height matches Some(h) && h > 0x7fff_ffff) ==> r == Err::<
                    TransformRequest,
                    Error,
                >(Error::IntegerOverflow("height")))
                &&& (c.x <= 0x7fff_ffff && c.y <= 0x7fff_ffff && !(c.width matches Some(w) && w
                    > 0x7fff_ffff) && !(c.height matches Some(h) && h > 0x7fff_ffff) ==> {
                    &&& (header.subsamp == Subsamp::Unknown && !transform.gray ==> (r matches Err(
                        Error::TurboJpegError(_),
                    )))
                    &&& (header.subsamp != Subsamp::Unknown && !transform.trim && ((c.x as int) % mcu_w != 0 || (c.y as int) % mcu_h != 0) ==> (r matches Err(
                        Error::TurboJpegError(_),
                    )))
                    &&& ((header.subsamp != Subsamp::Unknown || transform.gray) && (transform.trim
                        || ((c.x as int) % mcu_w == 0 && (c.y as int) % mcu_h == 0)) ==> (r
                        matches Ok(req) && req == TransformRequest {
                        op_code: transform.op.spec_code() as i32,
                        perfect: transform.perfect,
                        trim: transform.trim,
                        gray: transform.gray,
                        progressive: transform.progressive,
                        optimize: transform.optimize,
                        copy_none: transform.copy_none,
                        crop: true,
                        crop_x: c.x as i32,
                        crop_y: c.y as i32,
                        crop_w: (match c.width {
                            Some(w) => w as i32,
                            None => 0,
                        }),
                        crop_h: (match c.height {
                            Some(h) => h as i32,
                            None => 0,
                        }),
                        no_realloc: !output.spec_is_owned(),
                    }))
                })
            },
    {
        let no_realloc = !output.is_owned();
        let base = TransformRequest {
            op_code: transform.op.code(),
            perfect: transform.perfect,
            trim: transform.trim,
            gray: transform.gray,
            progressive: transform.progressive,
            optimize: transform.optimize,
            copy_none: transform.copy_none,
            crop: false,
            crop_x: 0,
            crop_y: 0,
            crop_w: 0,
            crop_h: 0,
            no_realloc,
        };
        match transform.crop {
            Option::None => Ok(base),
            Option::Some(c) => {
                if c.x > 0x7fff_ffff {
                    return Err(Error::IntegerOverflow("x"));
                }
                if c.y > 0x7fff_ffff {
                    return Err(Error::IntegerOverflow("y"));
                }
                let crop_w: i32 = match c.width {
                    Option::Some(w) => {
                        if w > 0x7fff_ffff {
                            return Err(Error::IntegerOverflow("width"));
                        }
                        w as i32
                    },
                    Option::None => 0,
                };
                let crop_h: i32 = match c.height {
                    Option::Some(h) => {
                        if h > 0x7fff_ffff {
                            return Err(Error::IntegerOverflow("height"));
                        }
                        h as i32
                    },
                    Option::None => 0,
                };
                if matches!(header.subsamp, Subsamp::Unknown) && !transform.gray {
                    return Err(
                        Error::TurboJpegError(
                            String::from_str(
                                "cannot crop an image with unknown subsampling without converting to grayscale",
                            ),
                        ),
                    );
                }
                let mcu_w = header.subsamp.mcu_width();
                let mcu_h = header.subsamp.mcu_height();
                if !transform.trim && (c.x % mcu_w != 0 || c.y % mcu_h != 0) {
                    return Err(
                        Error::TurboJpegError(
                            String::from_str("crop region is not aligned to the MCU block size"),
                        ),
                    );
                }
                Ok(
                    TransformRequest {
                        crop: true,
                        crop_x: c.x as i32,
                        crop_y: c.y as i32,
                        crop_w,
                        crop_h,
                        ..base
                    },
                )
            },
        }
    }
}

} // verus!
