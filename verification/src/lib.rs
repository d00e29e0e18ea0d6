//! Safe, verified wrapper logic for a TurboJPEG-style native codec.
//!
//! The native codec itself (DCT, entropy coding, colour conversion) is an
//! external capability reached over a C ABI; this library holds everything
//! around it that can be wrong in subtle ways: the dual-ownership output
//! buffer model, the session parameter state, the packed and planar image
//! geometry arithmetic, and the translation of raw codec results into typed
//! errors. Every function here carries a contract checked by Verus; the
//! process that actually invokes the codec lives outside the library and
//! feeds raw results (status codes, header fields, produced bytes) back in
//! as plain values.

mod arith;
mod buf;
mod common;
mod compress;
mod decompress;
mod image;
mod transform;

pub use arith::{div_ceil, divides, next_multiple_of, spec_div_ceil, spec_next_multiple_of};
pub use buf::{commit_codec_reply, CodecReply, OutputBuf, OwnedBuf};
pub use common::{map_status, Colorspace, Error, PixelFormat, Subsamp};
pub use compress::{
    compressed_buf_len, spec_compressed_buf_len, CompressRequest, CompressYuvRequest, Compressor,
};
pub use decompress::{
    lemma_header_read_deterministic, lemma_scale_by_one, scaling_factors_from_raw,
    DecompressHeader, DecompressRequest, DecompressYuvRequest, Decompressor, RawHeader,
    ScalingFactor,
};
pub use image::{lemma_yuv_pixels_len_is_plane_sum, spec_yuv_pixels_len, yuv_pixels_len, Image, YuvImage};
pub use transform::{Transform, TransformCrop, TransformOp, TransformRequest, Transformer};
