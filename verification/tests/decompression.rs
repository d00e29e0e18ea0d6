use turbojpeg::{
    DecompressHeader, Decompressor, Error, Image, PixelFormat, RawHeader, ScalingFactor, Subsamp,
    YuvImage,
};

fn header_384x256(lossless: bool) -> DecompressHeader {
    let raw = RawHeader {
        width: 384,
        height: 256,
        subsamp: 2,
        colorspace: 1,
        lossless: if lossless { 1 } else { 0 },
    };
    DecompressHeader::from_raw(raw).unwrap()
}

fn rgba_image(width: usize, height: usize) -> Image<Vec<u8>> {
    Image {
        pixels: vec![0u8; 4 * width * height],
        width,
        pitch: 4 * width,
        height,
        format: PixelFormat::RGBA,
    }
}

#[test]
fn test_init_decompress() {
    // Initializing a decompression session must succeed.
    let d = Decompressor::new();
    assert!(d.scaling_factor() == ScalingFactor::one());
}

#[test]
fn new_session_has_unity_scaling() {
    let d = Decompressor::new();
    assert_eq!(d.scaling_factor(), ScalingFactor::one());
}

#[test]
fn set_scaling_factor_stores_accepted_factor() {
    let mut d = Decompressor::new();
    let r = d.set_scaling_factor(ScalingFactor::one_half(), true, String::new());
    assert!(r.is_ok());
    assert_eq!(d.scaling_factor(), ScalingFactor::one_half());
}

#[test]
fn set_scaling_factor_keeps_old_factor_on_refusal() {
    let mut d = Decompressor::new();
    let r = d.set_scaling_factor(
        ScalingFactor::new(3, 5),
        false,
        String::from("Unsupported scaling factor"),
    );
    match r.unwrap_err() {
        Error::TurboJpegError(msg) => assert_eq!(msg, "Unsupported scaling factor"),
        other => panic!("expected a TurboJpegError, got {:?}", other),
    }
    assert_eq!(d.scaling_factor(), ScalingFactor::one());
}

#[test]
fn set_scaling_factor_refuses_zero_parts() {
    let mut d = Decompressor::new();
    let r = d.set_scaling_factor(ScalingFactor::new(0, 2), true, String::from("refused"));
    assert!(matches!(r, Err(Error::TurboJpegError(_))));
    assert_eq!(d.scaling_factor(), ScalingFactor::one());
}

#[test]
fn output_sized_for_scaled_image_is_accepted() {
    let mut d = Decompressor::new();
    d.set_scaling_factor(ScalingFactor::one_half(), true, String::new()).unwrap();
    let header = header_384x256(false);
    let output = rgba_image(192, 128);
    let r = d.prepare_decompress(&header, &output, output.pixels.len());
    let req = r.unwrap();
    assert_eq!(req.width, 192);
    assert_eq!(req.pitch, 4 * 192);
    assert_eq!(req.height, 128);
    assert_eq!(req.format_code, 7);
}

#[test]
fn output_sized_for_unscaled_image_is_refused() {
    // The caller set a 1/2 scaling factor but forgot to shrink the buffer:
    // an output still sized for the unscaled 384x256 source must fail with
    // the scaled dimensions, not silently decompress into a corner of it.
    let mut d = Decompressor::new();
    d.set_scaling_factor(ScalingFactor::one_half(), true, String::new()).unwrap();
    let header = header_384x256(false);
    let output = rgba_image(384, 256);
    let r = d.prepare_decompress(&header, &output, output.pixels.len());
    assert!(matches!(r, Err(Error::OutputTooSmall(192, 128))));
}

#[test]
fn output_smaller_than_scaled_image_is_refused() {
    let mut d = Decompressor::new();
    d.set_scaling_factor(ScalingFactor::one_half(), true, String::new()).unwrap();
    let header = header_384x256(false);
    let output = rgba_image(96, 64);
    let r = d.prepare_decompress(&header, &output, output.pixels.len());
    assert!(matches!(r, Err(Error::OutputTooSmall(192, 128))));
}

#[test]
fn unscaled_output_needs_full_dimensions() {
    let d = Decompressor::new();
    let header = header_384x256(false);
    let exact = rgba_image(384, 256);
    assert!(d.prepare_decompress(&header, &exact, exact.pixels.len()).is_ok());
    let short = rgba_image(384, 255);
    assert!(matches!(
        d.prepare_decompress(&header, &short, short.pixels.len()),
        Err(Error::OutputTooSmall(384, 256))
    ));
}

#[test]
fn scaling_a_lossless_source_is_refused() {
    let mut d = Decompressor::new();
    d.set_scaling_factor(ScalingFactor::one_half(), true, String::new()).unwrap();
    let header = header_384x256(true);
    let output = rgba_image(384, 256);
    let r = d.prepare_decompress(&header, &output, output.pixels.len());
    assert!(matches!(r, Err(Error::CannotScaleLossless)));
}

#[test]
fn lossless_source_without_scaling_is_accepted() {
    let d = Decompressor::new();
    let header = header_384x256(true);
    let output = rgba_image(384, 256);
    assert!(d.prepare_decompress(&header, &output, output.pixels.len()).is_ok());
}

#[test]
fn check_output_size_reports_scaled_dimensions() {
    let mut d = Decompressor::new();
    d.set_scaling_factor(ScalingFactor::one_half(), true, String::new()).unwrap();
    let header = header_384x256(false);
    assert!(d.check_output_size(&header, 192, 128).is_ok());
    assert!(matches!(
        d.check_output_size(&header, 191, 128),
        Err(Error::OutputTooSmall(192, 128))
    ));
    assert!(matches!(
        d.check_output_size(&header, 192, 127),
        Err(Error::OutputTooSmall(192, 128))
    ));
    // With a non-unity factor an oversized output is refused too; only the
    // exactly scaled size passes.
    assert!(matches!(
        d.check_output_size(&header, 384, 256),
        Err(Error::OutputTooSmall(192, 128))
    ));
    assert!(matches!(
        d.check_output_size(&header, 193, 128),
        Err(Error::OutputTooSmall(192, 128))
    ));
}

#[test]
fn planar_output_is_checked_against_scaled_size() {
    let d = Decompressor::new();
    let header = header_384x256(false);
    let needed = turbojpeg::yuv_pixels_len(384, 4, 256, Subsamp::Sub2x2).unwrap();
    let output = YuvImage {
        pixels: vec![0u8; needed],
        width: 384,
        align: 4,
        height: 256,
        subsamp: Subsamp::Sub2x2,
    };
    let req = d.prepare_decompress_to_yuv(&header, &output, output.pixels.len()).unwrap();
    assert_eq!(req.width, 384);
    assert_eq!(req.align, 4);
    assert_eq!(req.height, 256);

    let small = YuvImage {
        pixels: vec![0u8; turbojpeg::yuv_pixels_len(192, 4, 128, Subsamp::Sub2x2).unwrap()],
        width: 192,
        align: 4,
        height: 128,
        subsamp: Subsamp::Sub2x2,
    };
    assert!(matches!(
        d.prepare_decompress_to_yuv(&header, &small, small.pixels.len()),
        Err(Error::OutputTooSmall(384, 256))
    ));
}

#[test]
fn status_mapping_preserves_the_diagnostic() {
    assert!(turbojpeg::map_status(0, String::new()).is_ok());
    match turbojpeg::map_status(-1, String::from("Corrupt JPEG data")).unwrap_err() {
        Error::TurboJpegError(msg) => assert_eq!(msg, "Corrupt JPEG data"),
        other => panic!("expected a TurboJpegError, got {:?}", other),
    }
}
