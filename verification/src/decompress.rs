//! Scaling factors, JPEG header snapshots and the decompression session.
//!
//! The native codec parses the JPEG stream and produces pixels; this module
//! holds everything decided around those calls: reducing and applying
//! fractional scaling factors, turning raw header fields into a typed
//! snapshot, and the pre-call validation that an output buffer really holds
//! the (possibly scaled) decompressed image — the check that keeps a native
//! decompress call from writing out of bounds.

use vstd::prelude::*;
use vstd::arithmetic::div_mod::lemma_div_multiples_vanish;
use crate::arith::divides;
use crate::common::{Colorspace, Error, Subsamp};
use crate::image::{Image, YuvImage};

verus! {

/// Relies on `gcd::binary_usize`: the greatest common divisor of the two
/// arguments, computed with the binary GCD algorithm. When the arguments are
/// not both zero it is positive, divides both, and every common divisor of
/// the arguments divides it.
#[verifier::external_body]
fn gcd_usize(a: usize, b: usize) -> (g: usize)
    requires
        a >= 1 || b >= 1,
    ensures
        g >= 1,
        divides(g as nat, a as nat),
        divides(g as nat, b as nat),
        forall|d: nat|
            d >= 1 && #[trigger] divides(d, a as nat) && #[trigger] divides(d, b as nat)
                ==> divides(d, g as nat),
{
    gcd::binary_usize(a, b)
}

/// Fractional scaling factor.
///
/// The codec can scale a JPEG image while decompressing; the scaling happens
/// inside the DCT, so the supported factors are small fractions (multiples of
/// 1/8 up to 2x).
#[derive(Debug, Copy, Clone, PartialEq, Eq, Structural)]
pub struct ScalingFactor {
    num: usize,
    denom: usize,
}

impl ScalingFactor {
    /// The numerator.
    pub closed spec fn spec_num(self) -> int {
        self.num as int
    }

    /// The denominator.
    pub closed spec fn spec_denom(self) -> int {
        self.denom as int
    }

    /// Whether this is the identity factor 1/1.
    pub open spec fn is_one(self) -> bool {
        self.spec_num() == 1 && self.spec_denom() == 1
    }

    /// A dimension scaled by this factor, rounding up.
    pub open spec fn spec_scale(self, dimension: int) -> int {
        (dimension * self.spec_num() + self.spec_denom() - 1) / self.spec_denom()
    }

    /// 1x scaling (no effect).
    pub fn one() -> (r: Self)
        ensures
            r.spec_num() == 1,
            r.spec_denom() == 1,
    {
        ScalingFactor { num: 1, denom: 1 }
    }

    /// 1/2x scaling factor.
    pub fn one_half() -> (r: Self)
        ensures
            r.spec_num() == 1,
            r.spec_denom() == 2,
    {
        ScalingFactor { num: 1, denom: 2 }
    }

    /// 1/4x scaling factor.
    pub fn one_quarter() -> (r: Self)
        ensures
            r.spec_num() == 1,
            r.spec_denom() == 4,
    {
        ScalingFactor { num: 1, denom: 4 }
    }

    /// 1/8x scaling factor.
    pub fn one_eighth() -> (r: Self)
        ensures
            r.spec_num() == 1,
            r.spec_denom() == 8,
    {
        ScalingFactor { num: 1, denom: 8 }
    }

    /// 2x scaling factor.
    pub fn two() -> (r: Self)
        ensures
            r.spec_num() == 2,
            r.spec_denom() == 1,
    {
        ScalingFactor { num: 2, denom: 1 }
    }

    /// Creates a scaling factor from a numerator and denominator, reducing
    /// the fraction: the result denotes the same ratio and no integer greater
    /// than one divides both of its parts.
    pub fn new(num: usize, denom: usize) -> (r: Self)
        requires
            num >= 1 || denom >= 1,
        ensures
            r.spec_num() * denom == r.spec_denom() * num,
            num >= 1 ==> r.spec_num() >= 1,
            denom >= 1 ==> r.spec_denom() >= 1,
            r.spec_num() <= num,
            r.spec_denom() <= denom,
            forall|d: nat|
                d > 1 ==> !(#[trigger] divides(d, r.spec_num() as nat) && #[trigger] divides(
                    d,
                    r.spec_denom() as nat,
                )),
    {
        let g = gcd_usize(num, denom);
        proof {
            lemma_reduced_fraction(num as int, denom as int, g as int);
        }
        ScalingFactor { num: num / g, denom: denom / g }
    }

    /// The numerator (the "3" in "3/4").
    pub fn num(&self) -> (r: usize)
        ensures
            r == self.spec_num(),
    {
        self.num
    }

    /// The denominator (the "4" in "3/4").
    pub fn denom(&self) -> (r: usize)
        ensures
            r == self.spec_denom(),
    {
        self.denom
    }

    /// Computes `dimension` scaled by this factor, rounding up.
    pub fn scale(&self, dimension: usize) -> (r: usize)
        requires
            self.spec_denom() >= 1,
            dimension * self.spec_num() + self.spec_denom() - 1 <= usize::MAX,
        ensures
            r == self.spec_scale(dimension as int),
    {
        (dimension * self.num + (self.denom - 1)) / self.denom
    }
}

/// Scaling by the identity factor leaves a dimension unchanged, so with 1/1
/// scaling an output is large enough exactly when it holds the unscaled
/// source dimensions.
pub proof fn lemma_scale_by_one(factor: ScalingFactor, dimension: int)
    requires
        factor.is_one(),
        dimension >= 0,
    ensures
        factor.spec_scale(dimension) == dimension,
{
}

/// Dividing a pair by its greatest common divisor keeps the ratio and leaves
/// the parts coprime.
proof fn lemma_reduced_fraction(a: int, b: int, g: int)
    requires
        a >= 0,
        b >= 0,
        g >= 1,
        divides(g as nat, a as nat),
        divides(g as nat, b as nat),
        forall|d: nat|
            d >= 1 && #[trigger] divides(d, a as nat) && #[trigger] divides(d, b as nat)
                ==> divides(d, g as nat),
    ensures
        (a / g) * b == (b / g) * a,
        a >= 1 ==> a / g >= 1,
        b >= 1 ==> b / g >= 1,
        a / g <= a,
        b / g <= b,
        forall|d: nat|
            d > 1 ==> !(#[trigger] divides(d, (a / g) as nat) && #[trigger] divides(
                d,
                (b / g) as nat,
            )),
{
    let ka = (choose|k: nat| a as nat == #[trigger] ((g as nat) * k)) as int;
    let kb = (choose|k: nat| b as nat == #[trigger] ((g as nat) * k)) as int;
    assert(a == g * ka && b == g * kb);
    lemma_div_multiples_vanish(ka, g);
    lemma_div_multiples_vanish(kb, g);
    assert(a / g == ka && b / g == kb);
    assert(ka * (g * kb) == kb * (g * ka)) by (nonlinear_arith);
    assert(ka <= g * ka && kb <= g * kb) by (nonlinear_arith)
        requires
            g >= 1,
            ka >= 0,
            kb >= 0,
    ;
    assert((a >= 1 ==> ka >= 1) && (b >= 1 ==> kb >= 1)) by (nonlinear_arith)
        requires
            a == g * ka,
            b == g * kb,
            ka >= 0,
            kb >= 0,
    ;
    assert forall|d: nat| d > 1 implies !(#[trigger] divides(d, ka as nat) && #[trigger] divides(d, kb as nat)) by {
        if divides(d, ka as nat) && divides(d, kb as nat) {
            let xa = (choose|k: nat| ka as nat == #[trigger] (d * k)) as int;
            let xb = (choose|k: nat| kb as nat == #[trigger] (d * k)) as int;
            let di = d as int;
            assert(a == (g * di) * xa && b == (g * di) * xb) by (nonlinear_arith)
                requires
                    a == g * ka,
                    b == g * kb,
                    ka == di * xa,
                    kb == di * xb,
            ;
            assert((a as nat) == ((g * di) as nat) * (xa as nat));
            assert((b as nat) == ((g * di) as nat) * (xb as nat));
            assert(g * di >= 2) by (nonlinear_arith)
                requires
                    g >= 1,
                    di >= 2,
            ;
            assert(divides((g * di) as nat, a as nat));
            assert(divides((g * di) as nat, b as nat));
            assert(divides((g * di) as nat, g as nat));
            let c = (choose|k: nat| g as nat == #[trigger] (((g * di) as nat) * k)) as int;
            assert(g == (g * di) * c);
            assert(false) by (nonlinear_arith)
                requires
                    g >= 1,
                    di >= 2,
                    c >= 0,
                    g == (g * di) * c,
            ;
        }
    }
}

/// JPEG header snapshot describing a compressed image.
///
/// Produced from the raw fields a native header-parse call reports, consumed
/// by the caller to size output buffers.
#[derive(Debug, Copy, Clone, PartialEq, Eq, Structural)]
pub struct DecompressHeader {
    /// Width of the image in pixels (number of columns).
    pub width: usize,
    /// Height of the image in pixels (number of rows).
    pub height: usize,
    /// Chrominance subsampling used in the compressed image.
    pub subsamp: Subsamp,
    /// Colorspace of the compressed image.
    pub colorspace: Colorspace,
    /// Whether the image is losslessly coded.
    pub is_lossless: bool,
}

/// The raw header fields a native header-parse call reports, as the ABI hands
/// them over: plain integers, to be decoded into a typed snapshot.
#[derive(Debug, Copy, Clone, PartialEq, Eq, Structural)]
pub struct RawHeader {
    /// Reported image width.
    pub width: i32,
    /// Reported image height.
    pub height: i32,
    /// Reported chrominance subsampling code.
    pub subsamp: i32,
    /// Reported colorspace code.
    pub colorspace: i32,
    /// Reported losslessness flag; non-zero means lossless.
    pub lossless: i32,
}

impl DecompressHeader {
    /// What `from_raw` returns for each set of raw fields.
    pub open spec fn spec_from_raw(raw: RawHeader) -> Result<DecompressHeader, Error> {
        if raw.width < 0 {
            Err(Error::IntegerOverflow("width"))
        } else if raw.height < 0 {
            Err(Error::IntegerOverflow("height"))
        } else {
            match (Subsamp::spec_from_int(raw.subsamp), Colorspace::spec_from_int(raw.colorspace)) {
                (Ok(subsamp), Ok(colorspace)) => Ok(
                    DecompressHeader {
                        width: raw.width as usize,
                        height: raw.height as usize,
                        subsamp,
                        colorspace,
                        is_lossless: raw.lossless != 0,
                    },
                ),
                (Err(e), _) => Err(e),
                (Ok(_), Err(e)) => Err(e),
            }
        }
    }

    /// Decodes the raw fields of a native header parse into a typed snapshot.
    ///
    /// A negative dimension cannot come from a well-formed JPEG stream and is
    /// reported as overflow; an unrecognized subsampling or colorspace code
    /// fails the whole read (rather than being deferred into the snapshot),
    /// so a returned header is fully usable.
    pub fn from_raw(raw: RawHeader) -> (r: Result<DecompressHeader, Error>)
        ensures
            r == Self::spec_from_raw(raw),
            r matches Ok(h) ==> h.width <= 0x7fff_ffff && h.height <= 0x7fff_ffff,
    {
        if raw.width < 0 {
            return Err(Error::IntegerOverflow("width"));
        }
        if raw.height < 0 {
            return Err(Error::IntegerOverflow("height"));
        }
        let subsamp = match Subsamp::from_int(raw.subsamp) {
            Ok(s) => s,
            Err(e) => return Err(e),
        };
        let colorspace = match Colorspace::from_int(raw.colorspace) {
            Ok(c) => c,
            Err(e) => return Err(e),
        };
        Ok(
            DecompressHeader {
                width: raw.width as usize,
                height: raw.height as usize,
                subsamp,
                colorspace,
                is_lossless: raw.lossless != 0,
            },
        )
    }

    /// The image size in the header scaled by `factor`, rounding up.
    pub fn scaled(&self, factor: ScalingFactor) -> (r: Self)
        requires
            factor.spec_denom() >= 1,
            self.width * factor.spec_num() + factor.spec_denom() - 1 <= usize::MAX,
            self.height * factor.spec_num() + factor.spec_denom() - 1 <= usize::MAX,
        ensures
            r.width == factor.spec_scale(self.width as int),
            r.height == factor.spec_scale(self.height as int),
            r.subsamp == self.subsamp,
            r.colorspace == self.colorspace,
            r.is_lossless == self.is_lossless,
    {
        DecompressHeader {
            width: factor.scale(self.width),
            height: factor.scale(self.height),
            ..*self
        }
    }
}

/// Reading a header is deterministic: two reads of the same raw fields give
/// the same snapshot, so a header may be re-read before every decompress call
/// without changing the outcome.
pub proof fn lemma_header_read_deterministic(
    raw: RawHeader,
    r1: Result<DecompressHeader, Error>,
    r2: Result<DecompressHeader, Error>,
)
    requires
        r1 == DecompressHeader::spec_from_raw(raw),
        r2 == DecompressHeader::spec_from_raw(raw),
    ensures
        r1 == r2,
{
}

/// The arguments of one native packed-pixel decompress call, as the ABI
/// expects them.
#[derive(Debug, Copy, Clone, PartialEq, Eq, Structural)]
pub struct DecompressRequest {
    /// Output image width in pixels.
    pub width: i32,
    /// Output row pitch in bytes.
    pub pitch: i32,
    /// Output image height in pixels.
    pub height: i32,
    /// Raw code of the output pixel format.
    pub format_code: i32,
}

/// The arguments of one native planar-YUV decompress call, as the ABI
/// expects them.
#[derive(Debug, Copy, Clone, PartialEq, Eq, Structural)]
pub struct DecompressYuvRequest {
    /// Output image width in pixels.
    pub width: i32,
    /// Row alignment of the output planes in bytes.
    pub align: i32,
    /// Output image height in pixels.
    pub height: i32,
}

/// A decompression session: the state that persists across native decompress
/// calls on one handle. The scaling factor, once set, applies to every
/// following call until changed.
#[derive(Debug)]
pub struct Decompressor {
    scaling_factor: ScalingFactor,
}

impl Decompressor {
    /// The scaling factor that applies to the next decompress call.
    pub closed spec fn spec_scaling_factor(self) -> ScalingFactor {
        self.scaling_factor
    }

    /// The stored scaling factor stays positive and within the native integer
    /// width; every constructor establishes this and every method keeps it.
    pub open spec fn wf(self) -> bool {
        &&& 1 <= self.spec_scaling_factor().spec_num() <= 0x7fff_ffff
        &&& 1 <= self.spec_scaling_factor().spec_denom() <= 0x7fff_ffff
    }

    /// Creates a new decompression session with 1/1 scaling.
    pub fn new() -> (r: Decompressor)
        ensures
            r.spec_scaling_factor().is_one(),
            r.wf(),
    {
        Decompressor { scaling_factor: ScalingFactor::one() }
    }

    /// The scaling factor set by `set_scaling_factor`.
    pub fn scaling_factor(&self) -> (r: ScalingFactor)
        ensures
            r == self.spec_scaling_factor(),
    {
        self.scaling_factor
    }

    /// Stores `factor` as the scaling for subsequent decompress calls.
    ///
    /// `accepted` is the verdict of the native call that forwards the factor
    /// to the codec: only factors in the codec's supported list are accepted,
    /// and `error_message` is the diagnostic fetched when it refused. A part
    /// of a factor that does not fit the native integer width is overflow; no
    /// factor of the supported list has a zero part, so zero is refused here
    /// outright. The session keeps its previous factor on any error.
    pub fn set_scaling_factor(
        &mut self,
        factor: ScalingFactor,
        accepted: bool,
        error_message: String,
    ) -> (r: Result<(), Error>)
        ensures
            factor.spec_num() > 0x7fff_ffff ==> r == Err::<(), Error>(
                Error::IntegerOverflow("num"),
            ),
            factor.spec_num() <= 0x7fff_ffff && factor.spec_denom() > 0x7fff_ffff ==> r == Err::<
                (),
                Error,
            >(Error::IntegerOverflow("denom")),
            factor.spec_num() <= 0x7fff_ffff && factor.spec_denom() <= 0x7fff_ffff && (
            factor.spec_num() < 1 || factor.spec_denom() < 1 || !accepted) ==> r == Err::<
                (),
                Error,
            >(Error::TurboJpegError(error_message)),
            r is Ok <==> (factor.spec_num() >= 1 && factor.spec_denom() >= 1 && factor.spec_num()
                <= 0x7fff_ffff && factor.spec_denom() <= 0x7fff_ffff && accepted),
            r is Ok ==> final(self).spec_scaling_factor() == factor,
            r is Err ==> final(self).spec_scaling_factor() == old(self).spec_scaling_factor(),
            old(self).wf() ==> final(self).wf(),
    {
        if factor.num > 0x7fff_ffff {
            return Err(Error::IntegerOverflow("num"));
        }
        if factor.denom > 0x7fff_ffff {
            return Err(Error::IntegerOverflow("denom"));
        }
        if factor.num < 1 || factor.denom < 1 || !accepted {
            return Err(Error::TurboJpegError(error_message));
        }
        self.scaling_factor = factor;
        Ok(())
    }

    /// Validates that an output image of `output_width` by `output_height`
    /// pixels matches the decompressed form of the image `header` describes.
    ///
    /// A non-unity scaling factor combined with a lossless source is refused
    /// (the DCT-domain scaler cannot run on lossless data). With unity
    /// scaling, any output at least as large as the source is accepted. With
    /// a non-unity factor the output must be sized for exactly the scaled
    /// dimensions: an output still sized for the unscaled source means the
    /// caller set the factor and forgot to shrink the buffer, and is refused
    /// before any native call, as is an output that is too small.
    pub fn check_output_size(
        &self,
        header: &DecompressHeader,
        output_width: usize,
        output_height: usize,
    ) -> (r: Result<(), Error>)
        requires
            self.wf(),
            header.width <= 0x7fff_ffff,
            header.height <= 0x7fff_ffff,
        ensures
            header.is_lossless && !self.spec_scaling_factor().is_one() ==> r == Err::<(), Error>(
                Error::CannotScaleLossless,
            ),
            !(header.is_lossless && !self.spec_scaling_factor().is_one()) ==> {
                let sw = self.spec_scaling_factor().spec_scale(header.width as int);
                let sh = self.spec_scaling_factor().spec_scale(header.height as int);
                &&& (self.spec_scaling_factor().is_one() ==> (r is Ok <==> output_width >= sw
                    && output_height >= sh))
                &&& (!self.spec_scaling_factor().is_one() ==> (r is Ok <==> output_width == sw
                    && output_height == sh))
                &&& (r matches Err(e) ==> e matches Error::OutputTooSmall(ew, eh) && (sw
                    <= 0x7fff_ffff ==> ew == sw) && (sh <= 0x7fff_ffff ==> eh == sh))
            },
    {
        let is_one = self.scaling_factor.num == 1 && self.scaling_factor.denom == 1;
        if header.is_lossless && !is_one {
            return Err(Error::CannotScaleLossless);
        }
        proof {
            let w = header.width as int;
            let h = header.height as int;
            let n = self.scaling_factor.num as int;
            assert(w * n <= 0x7fff_ffff * 0x7fff_ffff && h * n <= 0x7fff_ffff * 0x7fff_ffff)
                by (nonlinear_arith)
                requires
                    0 <= w <= 0x7fff_ffff,
                    0 <= h <= 0x7fff_ffff,
                    0 <= n <= 0x7fff_ffff,
            ;
        }
        let num = self.scaling_factor.num as u128;
        let denom = self.scaling_factor.denom as u128;
        let scaled_width: u128 = ((header.width as u128) * num + (denom - 1)) / denom;
        let scaled_height: u128 = ((header.height as u128) * num + (denom - 1)) / denom;
        let fits = if is_one {
            (output_width as u128) >= scaled_width && (output_height as u128) >= scaled_height
        } else {
            (output_width as u128) == scaled_width && (output_height as u128) == scaled_height
        };
        if !fits {
            // Dimensions beyond the native integer width are reported saturated.
            let ew: i32 = if scaled_width > 0x7fff_ffff {
                0x7fff_ffff
            } else {
                scaled_width as i32
            };
            let eh: i32 = if scaled_height > 0x7fff_ffff {
                0x7fff_ffff
            } else {
                scaled_height as i32
            };
            return Err(Error::OutputTooSmall(ew, eh));
        }
        Ok(())
    }

    /// Validates and marshals a packed-pixel decompress call: the output
    /// descriptor's dimensions are converted to the native integer width and
    /// the output is checked against the decompressed image before any native
    /// call could overrun it — at least the source dimensions under unity
    /// scaling, exactly the scaled dimensions under any other factor (see
    /// `check_output_size`).
    ///
    /// `header` is the snapshot read from the same JPEG data immediately
    /// before; re-reading it for every call keeps a stale header from sizing
    /// the check.
    pub fn prepare_decompress<T>(
        &self,
        header: &DecompressHeader,
        output: &Image<T>,
        pixels_len: usize,
    ) -> (r: Result<DecompressRequest, Error>)
        requires
            self.wf(),
            output.valid_geometry(pixels_len as nat),
            header.width <= 0x7fff_ffff,
            header.height <= 0x7fff_ffff,
        ensures
            output.width > 0x7fff_ffff ==> r == Err::<DecompressRequest, Error>(
                Error::IntegerOverflow("width"),
            ),
            output.width <= 0x7fff_ffff && output.pitch > 0x7fff_ffff ==> r == Err::<
                DecompressRequest,
                Error,
            >(Error::IntegerOverflow("pitch")),
            output.width <= 0x7fff_ffff && output.pitch <= 0x7fff_ffff && output.height
                > 0x7fff_ffff ==> r == Err::<DecompressRequest, Error>(
                Error::IntegerOverflow("height"),
            ),
            output.width <= 0x7fff_ffff && output.pitch <= 0x7fff_ffff && output.height
                <= 0x7fff_ffff ==> {
                let sw = self.spec_scaling_factor().spec_scale(header.width as int);
                let sh = self.spec_scaling_factor().spec_scale(header.height as int);
                &&& (header.is_lossless && !self.spec_scaling_factor().is_one() ==> r == Err::<
                    DecompressRequest,
                    Error,
                >(Error::CannotScaleLossless))
                &&& (!(header.is_lossless && !self.spec_scaling_factor().is_one()) ==> {
                    &&& (self.spec_scaling_factor().is_one() ==> (r is Ok <==> output.width >= sw
                        && output.height >= sh))
                    &&& (!self.spec_scaling_factor().is_one() ==> (r is Ok <==> output.width == sw
                        && output.height == sh))
                    &&& (r matches Err(e) ==> e matches Error::OutputTooSmall(ew, eh) && (sw
                        <= 0x7fff_ffff ==> ew == sw) && (sh <= 0x7fff_ffff ==> eh == sh))
                    &&& (r matches Ok(req) ==> req.width == output.width && req.pitch
                        == output.pitch && req.height == output.height && req.format_code
                        == output.format.spec_code())
                })
            },
    {
        if output.width > 0x7fff_ffff {
            return Err(Error::IntegerOverflow("width"));
        }
        if output.pitch > 0x7fff_ffff {
            return Err(Error::IntegerOverflow("pitch"));
        }
        if output.height > 0x7fff_ffff {
            return Err(Error::IntegerOverflow("height"));
        }
        match self.check_output_size(header, output.width, output.height) {
            Ok(_) => Ok(
                DecompressRequest {
                    width: output.width as i32,
                    pitch: output.pitch as i32,
                    height: output.height as i32,
                    format_code: output.format.code(),
                },
            ),
            Err(e) => Err(e),
        }
    }

    /// Validates and marshals a planar-YUV decompress call, with the same
    /// size rules as `prepare_decompress`. The geometry precondition already
    /// bounds every dimension by the native integer width, so only the size
    /// check can refuse the call.
    pub fn prepare_decompress_to_yuv<T>(
        &self,
        header: &DecompressHeader,
        output: &YuvImage<T>,
        pixels_len: usize,
    ) -> (r: Result<DecompressYuvRequest, Error>)
        requires
            self.wf(),
            output.valid_geometry(pixels_len as nat),
            header.width <= 0x7fff_ffff,
            header.height <= 0x7fff_ffff,
        ensures
            ({
                let sw = self.spec_scaling_factor().spec_scale(header.width as int);
                let sh = self.spec_scaling_factor().spec_scale(header.height as int);
                &&& (header.is_lossless && !self.spec_scaling_factor().is_one() ==> r == Err::<
                    DecompressYuvRequest,
                    Error,
                >(Error::CannotScaleLossless))
                &&& (!(header.is_lossless && !self.spec_scaling_factor().is_one()) ==> {
                    &&& (self.spec_scaling_factor().is_one() ==> (r is Ok <==> output.width >= sw
                        && output.height >= sh))
                    &&& (!self.spec_scaling_factor().is_one() ==> (r is Ok <==> output.width == sw
                        && output.height == sh))
                    &&& (r matches Err(e) ==> e matches Error::OutputTooSmall(ew, eh) && (sw
                        <= 0x7fff_ffff ==> ew == sw) && (sh <= 0x7fff_ffff ==> eh == sh))
                    &&& (r matches Ok(req) ==> req.width == output.width && req.align
                        == output.align && req.height == output.height)
                })
            }),
    {
        match self.check_output_size(header, output.width, output.height) {
            Ok(_) => Ok(
                DecompressYuvRequest {
                    width: output.width as i32,
                    align: output.align as i32,
                    height: output.height as i32,
                },
            ),
            Err(e) => Err(e),
        }
    }
}

/// Converts the raw (numerator, denominator) pairs of the native supported
/// scaling factor list into typed scaling factors, in order.
pub fn scaling_factors_from_raw(raw: &Vec<(i32, i32)>) -> (r: Vec<ScalingFactor>)
    requires
        forall|i: int| 0 <= i < raw@.len() ==> (#[trigger] raw@[i]).0 >= 0 && raw@[i].1 >= 0,
    ensures
        r@.len() == raw@.len(),
        forall|i: int|
            0 <= i < raw@.len() ==> (#[trigger] r@[i]).spec_num() == raw@[i].0
                && r@[i].spec_denom() == raw@[i].1,
{
    let mut list: Vec<ScalingFactor> = Vec::new();
    let mut i: usize = 0;
    while i < raw.len()
        invariant
            i <= raw@.len(),
            list@.len() == i,
            forall|j: int|
                0 <= j < i ==> (#[trigger] list@[j]).spec_num() == raw@[j].0
                    && list@[j].spec_denom() == raw@[j].1,
            forall|j: int| 0 <= j < raw@.len() ==> (#[trigger] raw@[j]).0 >= 0 && raw@[j].1 >= 0,
        decreases raw@.len() - i,
    {
        let pair = raw[i];
        list.push(ScalingFactor { num: pair.0 as usize, denom: pair.1 as usize });
        i = i + 1;
    }
    list
}

} // verus!
