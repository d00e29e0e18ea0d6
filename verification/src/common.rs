//! Pixel formats, chrominance subsampling, colorspaces and the error type.
//!
//! The enums mirror the integer enumerants of the native codec ABI; each one
//! converts to and from its raw code through a checked function rather than a
//! cast, so an enumerant added by a newer native library surfaces as a typed
//! error instead of undefined behaviour.

use vstd::prelude::*;
use vstd::string::StringExecFns;

verus! {

/// Pixel format: the layout of packed pixels in memory.
#[derive(Debug, Copy, Clone, PartialEq, Eq, PartialOrd, Ord, Hash, Structural)]
pub enum PixelFormat {
    /// 3-byte pixels, bytes R, G, B from lowest address.
    RGB,
    /// 3-byte pixels, bytes B, G, R from lowest address.
    BGR,
    /// 4-byte pixels, bytes R, G, B, X from lowest address; X is ignored.
    RGBX,
    /// 4-byte pixels, bytes B, G, R, X from lowest address; X is ignored.
    BGRX,
    /// 4-byte pixels, bytes X, B, G, R from lowest address; X is ignored.
    XBGR,
    /// 4-byte pixels, bytes X, R, G, B from lowest address; X is ignored.
    XRGB,
    /// 1-byte grayscale pixels: a luminance level from 0 to 255.
    GRAY,
    /// Like `RGBX`, but the X byte is an opaque alpha channel when decompressing.
    RGBA,
    /// Like `BGRX`, but the X byte is an opaque alpha channel when decompressing.
    BGRA,
    /// Like `XBGR`, but the X byte is an opaque alpha channel when decompressing.
    ABGR,
    /// Like `XRGB`, but the X byte is an opaque alpha channel when decompressing.
    ARGB,
    /// 4-byte CMYK pixels: cyan, magenta, yellow, key (black).
    CMYK,
}

impl PixelFormat {
    /// The size of a pixel in bytes.
    pub open spec fn spec_size(self) -> int {
        match self {
            PixelFormat::RGB => 3,
            PixelFormat::BGR => 3,
            PixelFormat::GRAY => 1,
            _ => 4,
        }
    }

    /// The raw integer code of this format in the native ABI.
    pub open spec fn spec_code(self) -> int {
        match self {
            PixelFormat::RGB => 0,
            PixelFormat::BGR => 1,
            PixelFormat::RGBX => 2,
            PixelFormat::BGRX => 3,
            PixelFormat::XBGR => 4,
            PixelFormat::XRGB => 5,
            PixelFormat::GRAY => 6,
            PixelFormat::RGBA => 7,
            PixelFormat::BGRA => 8,
            PixelFormat::ABGR => 9,
            PixelFormat::ARGB => 10,
            PixelFormat::CMYK => 11,
        }
    }

    /// The size of a pixel in bytes.
    pub fn size(&self) -> (r: usize)
        ensures
            r == self.spec_size(),
            1 <= r <= 4,
    {
        match self {
            PixelFormat::RGB => 3,
            PixelFormat::BGR => 3,
            PixelFormat::RGBX => 4,
            PixelFormat::BGRX => 4,
            PixelFormat::XBGR => 4,
            PixelFormat::XRGB => 4,
            PixelFormat::GRAY => 1,
            PixelFormat::RGBA => 4,
            PixelFormat::BGRA => 4,
            PixelFormat::ABGR => 4,
            PixelFormat::ARGB => 4,
            PixelFormat::CMYK => 4,
        }
    }

    /// The raw integer code of this format in the native ABI.
    pub fn code(self) -> (r: i32)
        ensures
            r == self.spec_code(),
    {
        match self {
            PixelFormat::RGB => 0,
            PixelFormat::BGR => 1,
            PixelFormat::RGBX => 2,
            PixelFormat::BGRX => 3,
            PixelFormat::XBGR => 4,
            PixelFormat::XRGB => 5,
            PixelFormat::GRAY => 6,
            PixelFormat::RGBA => 7,
            PixelFormat::BGRA => 8,
            PixelFormat::ABGR => 9,
            PixelFormat::ARGB => 10,
            PixelFormat::CMYK => 11,
        }
    }
}

/// Chrominance subsampling: how many luminance pixels share one pair of
/// chrominance samples in a JPEG or planar YUV image.
#[derive(Debug, Copy, Clone, PartialEq, Eq, PartialOrd, Ord, Hash, Structural)]
pub enum Subsamp {
    /// No chrominance subsampling (4:4:4): one chrominance sample per pixel.
    Sub1x1,
    /// 2x1 chrominance subsampling (4:2:2).
    Sub2x1,
    /// 2x2 chrominance subsampling (4:2:0).
    Sub2x2,
    /// Grayscale: no chrominance components at all.
    Gray,
    /// 1x2 chrominance subsampling (4:4:0).
    Sub1x2,
    /// 4x1 chrominance subsampling (4:1:1).
    Sub4x1,
    /// 1x4 chrominance subsampling (4:4:1).
    Sub1x4,
    /// An unusual subsampling the native library reports but cannot classify.
    /// For buffer sizing it is treated like 4:4:4, the least subsampled case.
    Unknown,
}

impl Subsamp {
    /// The raw integer code of this subsampling option in the native ABI.
    pub open spec fn spec_code(self) -> int {
        match self {
            Subsamp::Sub1x1 => 0,
            Subsamp::Sub2x1 => 1,
            Subsamp::Sub2x2 => 2,
            Subsamp::Gray => 3,
            Subsamp::Sub1x2 => 4,
            Subsamp::Sub4x1 => 5,
            Subsamp::Sub1x4 => 6,
            Subsamp::Unknown => -1,
        }
    }

    /// Horizontal subsampling factor.
    pub open spec fn spec_width(self) -> int {
        match self {
            Subsamp::Sub2x1 => 2,
            Subsamp::Sub2x2 => 2,
            Subsamp::Sub4x1 => 4,
            _ => 1,
        }
    }

    /// Vertical subsampling factor.
    pub open spec fn spec_height(self) -> int {
        match self {
            Subsamp::Sub2x2 => 2,
            Subsamp::Sub1x2 => 2,
            Subsamp::Sub1x4 => 4,
            _ => 1,
        }
    }

    /// The subsampling option denoted by the raw code `subsamp`, or the code
    /// itself as a `BadSubsamp` error when this library does not know it.
    pub fn from_int(subsamp: i32) -> (r: Result<Self, Error>)
        ensures
            r == Self::spec_from_int(subsamp),
            (0 <= subsamp <= 6 || subsamp == -1) <==> r is Ok,
            r matches Ok(s) ==> s.spec_code() == subsamp,
    {
        proof {
            lemma_subsamp_from_int_inverts_code(subsamp);
        }
        match subsamp {
            0 => Ok(Subsamp::Sub1x1),
            1 => Ok(Subsamp::Sub2x1),
            2 => Ok(Subsamp::Sub2x2),
            3 => Ok(Subsamp::Gray),
            4 => Ok(Subsamp::Sub1x2),
            5 => Ok(Subsamp::Sub4x1),
            6 => Ok(Subsamp::Sub1x4),
            -1 => Ok(Subsamp::Unknown),
            other => Err(Error::BadSubsamp(other)),
        }
    }

    /// What `from_int` returns for each raw code.
    pub open spec fn spec_from_int(subsamp: i32) -> Result<Self, Error> {
        match subsamp {
            0 => Ok(Subsamp::Sub1x1),
            1 => Ok(Subsamp::Sub2x1),
            2 => Ok(Subsamp::Sub2x2),
            3 => Ok(Subsamp::Gray),
            4 => Ok(Subsamp::Sub1x2),
            5 => Ok(Subsamp::Sub4x1),
            6 => Ok(Subsamp::Sub1x4),
            -1i32 => Ok(Subsamp::Unknown),
            _ => Err(Error::BadSubsamp(subsamp)),
        }
    }

    /// The raw integer code of this subsampling option in the native ABI.
    pub fn code(self) -> (r: i32)
        ensures
            r == self.spec_code(),
    {
        match self {
            Subsamp::Sub1x1 => 0,
            Subsamp::Sub2x1 => 1,
            Subsamp::Sub2x2 => 2,
            Subsamp::Gray => 3,
            Subsamp::Sub1x2 => 4,
            Subsamp::Sub4x1 => 5,
            Subsamp::Sub1x4 => 6,
            Subsamp::Unknown => -1,
        }
    }

    /// Width of the MCU block for this level of subsampling: `8 * self.width()`.
    pub fn mcu_width(self) -> (r: usize)
        ensures
            r == 8 * self.spec_width(),
    {
        8 * self.width()
    }

    /// Height of the MCU block for this level of subsampling: `8 * self.height()`.
    pub fn mcu_height(self) -> (r: usize)
        ensures
            r == 8 * self.spec_height(),
    {
        8 * self.height()
    }

    /// Size of the MCU block as (width, height).
    pub fn mcu_size(self) -> (r: (usize, usize))
        ensures
            r.0 == 8 * self.spec_width(),
            r.1 == 8 * self.spec_height(),
    {
        let (width, height) = self.size();
        (8 * width, 8 * height)
    }

    /// Horizontal subsampling factor.
    pub fn width(self) -> (r: usize)
        ensures
            r == self.spec_width(),
            1 <= r <= 4,
    {
        self.size().0
    }

    /// Vertical subsampling factor.
    pub fn height(self) -> (r: usize)
        ensures
            r == self.spec_height(),
            1 <= r <= 4,
    {
        self.size().1
    }

    /// Horizontal and vertical subsampling factors.
    pub fn size(self) -> (r: (usize, usize))
        ensures
            r.0 == self.spec_width(),
            r.1 == self.spec_height(),
            1 <= r.0 <= 4,
            1 <= r.1 <= 4,
    {
        match self {
            Self::Sub1x1 => (1, 1),
            Self::Sub2x1 => (2, 1),
            Self::Sub2x2 => (2, 2),
            Self::Gray => (1, 1),
            Self::Sub1x2 => (1, 2),
            Self::Sub4x1 => (4, 1),
            Self::Sub1x4 => (1, 4),
            // An image with unknown subsampling is sized like one with no
            // subsampling, which is the largest any subsampled image can be.
            Self::Unknown => (1, 1),
        }
    }
}

/// Decoding the raw code of a subsampling option and re-encoding it round-trips.
pub proof fn lemma_subsamp_from_int_inverts_code(subsamp: i32)
    ensures
        Subsamp::spec_from_int(subsamp) matches Ok(s) ==> s.spec_code() == subsamp,
        forall|s: Subsamp|
            s != Subsamp::Unknown ==> #[trigger] Subsamp::spec_from_int(s.spec_code() as i32)
                == Ok::<Subsamp, Error>(s),
{
}

/// JPEG colorspaces.
#[derive(Debug, Copy, Clone, PartialEq, Eq, PartialOrd, Ord, Hash, Structural)]
pub enum Colorspace {
    /// RGB: component planes in R, G, B order, no colorspace conversion.
    RGB,
    /// YCbCr: luminance plus two chrominance components; the common case.
    YCbCr,
    /// Grayscale: luminance only.
    Gray,
    /// CMYK: component planes in C, M, Y, K order, no colorspace conversion.
    CMYK,
    /// YCCK: the YCbCr-style transformation of CMYK.
    YCCK,
}

impl Colorspace {
    /// The raw integer code of this colorspace in the native ABI.
    pub open spec fn spec_code(self) -> int {
        match self {
            Colorspace::RGB => 0,
            Colorspace::YCbCr => 1,
            Colorspace::Gray => 2,
            Colorspace::CMYK => 3,
            Colorspace::YCCK => 4,
        }
    }

    /// What `from_int` returns for each raw code.
    pub open spec fn spec_from_int(colorspace: i32) -> Result<Self, Error> {
        match colorspace {
            0 => Ok(Colorspace::RGB),
            1 => Ok(Colorspace::YCbCr),
            2 => Ok(Colorspace::Gray),
            3 => Ok(Colorspace::CMYK),
            4 => Ok(Colorspace::YCCK),
            _ => Err(Error::BadColorspace(colorspace as u32)),
        }
    }

    /// The colorspace denoted by the raw code `colorspace`, or the code itself
    /// (reinterpreted as unsigned, as the native ABI declares it) as a
    /// `BadColorspace` error when this library does not know it.
    pub fn from_int(colorspace: i32) -> (r: Result<Colorspace, Error>)
        ensures
            r == Self::spec_from_int(colorspace),
            (0 <= colorspace <= 4) <==> r is Ok,
            r matches Ok(c) ==> c.spec_code() == colorspace,
    {
        match colorspace {
            0 => Ok(Colorspace::RGB),
            1 => Ok(Colorspace::YCbCr),
            2 => Ok(Colorspace::Gray),
            3 => Ok(Colorspace::CMYK),
            4 => Ok(Colorspace::YCCK),
            other => Err(Error::BadColorspace(#[verifier::truncate] (other as u32))),
        }
    }

    /// The raw integer code of this colorspace in the native ABI.
    pub fn code(self) -> (r: i32)
        ensures
            r == self.spec_code(),
    {
        match self {
            Colorspace::RGB => 0,
            Colorspace::YCbCr => 1,
            Colorspace::Gray => 2,
            Colorspace::CMYK => 3,
            Colorspace::YCCK => 4,
        }
    }
}

/// An error of the codec wrapper layer.
#[derive(Debug, Clone)]
pub enum Error {
    /// The native library reported a failure; carries its diagnostic string.
    TurboJpegError(String),
    /// The native library signalled success but returned a null output
    /// pointer, which is an out-of-memory class condition.
    Null,
    /// The native library reported a chrominance subsampling code that this
    /// library does not recognize.
    BadSubsamp(i32),
    /// The native library reported a colorspace code that this library does
    /// not recognize.
    BadColorspace(u32),
    /// The named dimension or length does not fit in the integer width the
    /// native ABI expects.
    IntegerOverflow(&'static str),
    /// The output image is too small for the (possibly scaled) decompressed
    /// image of the given width and height.
    OutputTooSmall(i32, i32),
    /// A non-unity scaling factor was requested for a losslessly coded source,
    /// which the DCT-domain scaler cannot process.
    CannotScaleLossless,
}

impl Error {
    /// A human-readable description of the error. The exact diagnostic text of
    /// a `TurboJpegError` is preserved as its suffix.
    pub fn message(&self) -> (r: String)
        ensures
            self matches Error::TurboJpegError(m) ==> r@ == "TurboJPEG error: "@ + m@,
            self is Null ==> r@ == "TurboJPEG returned null pointer"@,
            self matches Error::BadSubsamp(_) ==> r@
                == "TurboJPEG returned unknown subsampling option"@,
            self matches Error::BadColorspace(_) ==> r@ == "TurboJPEG returned unknown colorspace"@,
            self matches Error::IntegerOverflow(field) ==> r@ == "integer value overflowed: "@
                + field@,
            self matches Error::OutputTooSmall(_, _) ==> r@
                == "output image is too small for the decompressed image"@,
            self is CannotScaleLossless ==> r@
                == "cannot scale when decompressing a lossless JPEG image"@,
    {
        match self {
            Error::TurboJpegError(m) => String::from_str("TurboJPEG error: ").concat(m.as_str()),
            Error::Null => String::from_str("TurboJPEG returned null pointer"),
            Error::BadSubsamp(_) => String::from_str(
                "TurboJPEG returned unknown subsampling option",
            ),
            Error::BadColorspace(_) => String::from_str("TurboJPEG returned unknown colorspace"),
            Error::IntegerOverflow(field) => String::from_str("integer value overflowed: ").concat(
                field,
            ),
            Error::OutputTooSmall(_, _) => String::from_str(
                "output image is too small for the decompressed image",
            ),
            Error::CannotScaleLossless => String::from_str(
                "cannot scale when decompressing a lossless JPEG image",
            ),
        }
    }
}

/// Interprets the status code of a native call that produces no output of its
/// own: a non-zero status carries the native diagnostic string as an error.
pub fn map_status(status: i32, error_message: String) -> (r: Result<(), Error>)
    ensures
        status == 0 <==> r is Ok,
        status != 0 ==> r == Err::<(), Error>(Error::TurboJpegError(error_message)),
{
    if status != 0 {
        Err(Error::TurboJpegError(error_message))
    } else {
        Ok(())
    }
}

} // verus!
