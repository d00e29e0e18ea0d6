use turbojpeg::{
    Compressor, Error, Image, OutputBuf, PixelFormat, Subsamp, YuvImage,
};

fn rgb_image(width: usize, height: usize) -> Image<Vec<u8>> {
    Image {
        pixels: vec![0u8; 3 * width * height],
        width,
        pitch: 3 * width,
        height,
        format: PixelFormat::RGB,
    }
}

#[test]
fn new_session_has_default_parameters() {
    let c = Compressor::new();
    assert_eq!(c.quality(), 95);
    assert_eq!(c.subsamp(), Subsamp::Sub1x1);
    assert!(!c.optimize());
}

#[test]
fn quality_outside_native_range_is_refused() {
    let mut c = Compressor::new();
    assert!(c.set_quality(120).is_err());
    assert!(c.set_quality(0).is_err());
    assert_eq!(c.quality(), 95);
    assert!(c.set_quality(1).is_ok());
    assert!(c.set_quality(100).is_ok());
    assert_eq!(c.quality(), 100);
}

#[test]
fn subsampling_is_stored_and_unknown_refused() {
    let mut c = Compressor::new();
    assert!(c.set_subsamp(Subsamp::Sub2x2).is_ok());
    assert_eq!(c.subsamp(), Subsamp::Sub2x2);
    assert!(matches!(c.set_subsamp(Subsamp::Unknown), Err(Error::TurboJpegError(_))));
    assert_eq!(c.subsamp(), Subsamp::Sub2x2);
}

#[test]
fn optimize_flag_is_stored() {
    let mut c = Compressor::new();
    assert!(c.set_optimize(true).is_ok());
    assert!(c.optimize());
}

#[test]
fn session_buf_len_uses_current_subsampling() {
    let mut c = Compressor::new();
    c.set_subsamp(Subsamp::Sub2x2).unwrap();
    assert_eq!(c.buf_len(100, 100).unwrap(), 112 * 112 * 3 + 2048);
}

#[test]
fn prepare_compress_marshals_the_descriptor() {
    let c = Compressor::new();
    let image = rgb_image(100, 80);
    let owned = OutputBuf::new_owned();
    let req = c.prepare_compress(&image, image.pixels.len(), &owned).unwrap();
    assert_eq!(req.width, 100);
    assert_eq!(req.pitch, 300);
    assert_eq!(req.height, 80);
    assert_eq!(req.format_code, 0);
    assert!(!req.no_realloc);

    let borrowed = OutputBuf::borrowed(vec![0; 64]);
    let req2 = c.prepare_compress(&image, image.pixels.len(), &borrowed).unwrap();
    assert!(req2.no_realloc);
}

#[test]
fn prepare_compress_rejects_oversized_dimensions() {
    let c = Compressor::new();
    // A zero-height descriptor is valid for any buffer, so the geometry
    // precondition holds while the width exceeds the native integer range.
    let image: Image<()> = Image {
        pixels: (),
        width: 0x8000_0000,
        pitch: 0x8000_0000,
        height: 0,
        format: PixelFormat::GRAY,
    };
    let out = OutputBuf::new_owned();
    assert!(matches!(
        c.prepare_compress(&image, 0, &out),
        Err(Error::IntegerOverflow("width"))
    ));
}

#[test]
fn prepare_compress_yuv_adopts_the_image_subsampling() {
    let mut c = Compressor::new();
    let needed = turbojpeg::yuv_pixels_len(64, 4, 48, Subsamp::Sub2x1).unwrap();
    let image = YuvImage {
        pixels: vec![0u8; needed],
        width: 64,
        align: 4,
        height: 48,
        subsamp: Subsamp::Sub2x1,
    };
    let out = OutputBuf::new_owned();
    let req = c.prepare_compress_yuv(&image, image.pixels.len(), &out).unwrap();
    assert_eq!(req.width, 64);
    assert_eq!(req.align, 4);
    assert_eq!(req.height, 48);
    assert_eq!(req.subsamp_code, 1);
    assert!(!req.no_realloc);
    assert_eq!(c.subsamp(), Subsamp::Sub2x1);
}

#[test]
fn prepare_compress_yuv_refuses_unknown_subsampling() {
    let mut c = Compressor::new();
    let image: YuvImage<Vec<u8>> = YuvImage {
        pixels: vec![],
        width: 64,
        align: 4,
        height: 48,
        subsamp: Subsamp::Unknown,
    };
    let out = OutputBuf::new_owned();
    assert!(matches!(
        c.prepare_compress_yuv(&image, image.pixels.len(), &out),
        Err(Error::TurboJpegError(_))
    ));
    assert_eq!(c.subsamp(), Subsamp::Sub1x1);
}
