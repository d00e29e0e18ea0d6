use turbojpeg::{
    compressed_buf_len, div_ceil, next_multiple_of, yuv_pixels_len, Colorspace, Error, Image,
    PixelFormat, Subsamp, YuvImage,
};

#[test]
fn rounding_helpers() {
    assert_eq!(div_ceil(35, 2), 18);
    assert_eq!(div_ceil(0, 4), 0);
    assert_eq!(div_ceil(8, 4), 2);
    assert_eq!(next_multiple_of(35, 2), 36);
    assert_eq!(next_multiple_of(36, 4), 36);
    assert_eq!(next_multiple_of(18, 4), 20);
    assert_eq!(next_multiple_of(0, 8), 0);
}

#[test]
fn yuv_plane_sizes_with_alignment_one() {
    let img = YuvImage { pixels: (), width: 35, align: 1, height: 35, subsamp: Subsamp::Sub2x1 };
    assert_eq!(img.y_size(), (36, 35));
    assert_eq!(img.uv_size(), (18, 35));
}

#[test]
fn yuv_plane_sizes_with_alignment_four() {
    let img = YuvImage { pixels: (), width: 35, align: 4, height: 35, subsamp: Subsamp::Sub2x1 };
    assert_eq!(img.y_size(), (36, 35));
    assert_eq!(img.uv_size(), (20, 35));
}

#[test]
fn yuv_pixels_len_sums_planes() {
    assert_eq!(yuv_pixels_len(35, 1, 35, Subsamp::Sub2x1).unwrap(), 36 * 35 + 2 * (18 * 35));
    assert_eq!(yuv_pixels_len(35, 4, 35, Subsamp::Sub2x1).unwrap(), 36 * 35 + 2 * (20 * 35));
}

#[test]
fn yuv_pixels_len_grayscale_has_one_plane() {
    assert_eq!(yuv_pixels_len(35, 1, 35, Subsamp::Gray).unwrap(), 35 * 35);
}

#[test]
fn yuv_pixels_len_degenerate_cases() {
    assert_eq!(yuv_pixels_len(35, 1, 35, Subsamp::Unknown).unwrap(), 0);
    assert_eq!(yuv_pixels_len(0, 4, 35, Subsamp::Sub2x2).unwrap(), 0);
    assert_eq!(yuv_pixels_len(35, 8, 0, Subsamp::Sub2x2).unwrap(), 0);
}

#[test]
fn yuv_pixels_len_needs_power_of_two_alignment() {
    // The native codec lays plane rows out on power-of-two boundaries; any
    // other alignment describes a layout it never produces and is refused.
    assert!(matches!(yuv_pixels_len(35, 3, 35, Subsamp::Sub2x1), Err(Error::TurboJpegError(_))));
    assert!(matches!(yuv_pixels_len(35, 0, 35, Subsamp::Sub2x2), Err(Error::TurboJpegError(_))));
    assert!(matches!(yuv_pixels_len(35, 12, 35, Subsamp::Gray), Err(Error::TurboJpegError(_))));
    let img = YuvImage { pixels: (), width: 35, align: 3, height: 35, subsamp: Subsamp::Sub2x1 };
    assert!(!img.is_valid(usize::MAX));
}

#[test]
fn yuv_pixels_len_rejects_huge_dimensions() {
    let big = 0x8000_0000usize;
    assert!(matches!(
        yuv_pixels_len(big, 4, 35, Subsamp::Sub2x2),
        Err(Error::IntegerOverflow("width"))
    ));
    assert!(matches!(
        yuv_pixels_len(35, big, 35, Subsamp::Sub2x2),
        Err(Error::IntegerOverflow("align"))
    ));
    assert!(matches!(
        yuv_pixels_len(35, 4, big, Subsamp::Sub2x2),
        Err(Error::IntegerOverflow("height"))
    ));
}

#[test]
fn yuv_descriptor_validates_buffer_length() {
    let needed = yuv_pixels_len(35, 4, 35, Subsamp::Sub2x1).unwrap();
    let img = YuvImage {
        pixels: vec![0u8; needed],
        width: 35,
        align: 4,
        height: 35,
        subsamp: Subsamp::Sub2x1,
    };
    assert!(img.is_valid(img.pixels.len()));
    assert!(!img.is_valid(needed - 1));
}

#[test]
fn packed_descriptor_validates_pitch_and_length() {
    let img: Image<()> =
        Image { pixels: (), width: 10, pitch: 30, height: 10, format: PixelFormat::RGB };
    assert!(img.is_valid(300));
    assert!(!img.is_valid(299));
    let narrow: Image<()> =
        Image { pixels: (), width: 10, pitch: 29, height: 10, format: PixelFormat::RGB };
    assert!(!narrow.is_valid(10000));
    let empty: Image<()> =
        Image { pixels: (), width: 10, pitch: 40, height: 0, format: PixelFormat::RGBA };
    assert!(empty.is_valid(0));
}

#[test]
fn as_deref_borrows_the_pixels() {
    let img = Image {
        pixels: vec![1u8, 2, 3, 4, 5, 6],
        width: 2,
        pitch: 3,
        height: 2,
        format: PixelFormat::GRAY,
    };
    let view = img.as_deref();
    assert_eq!(view.pixels, &[1, 2, 3, 4, 5, 6]);
    assert_eq!((view.width, view.pitch, view.height), (2, 3, 2));
    assert_eq!(view.format, PixelFormat::GRAY);

    let yuv = YuvImage {
        pixels: vec![7u8, 8],
        width: 1,
        align: 1,
        height: 1,
        subsamp: Subsamp::Gray,
    };
    let yuv_view = yuv.as_deref();
    assert_eq!(yuv_view.pixels, &[7, 8]);
    assert_eq!(yuv_view.subsamp, Subsamp::Gray);
}

#[test]
fn pixel_format_sizes() {
    assert_eq!(PixelFormat::RGB.size(), 3);
    assert_eq!(PixelFormat::BGR.size(), 3);
    assert_eq!(PixelFormat::GRAY.size(), 1);
    assert_eq!(PixelFormat::RGBA.size(), 4);
    assert_eq!(PixelFormat::CMYK.size(), 4);
}

#[test]
fn subsampling_factors_and_mcu_sizes() {
    assert_eq!(Subsamp::Sub2x1.size(), (2, 1));
    assert_eq!(Subsamp::Sub2x1.width(), 2);
    assert_eq!(Subsamp::Sub2x1.height(), 1);
    assert_eq!(Subsamp::Sub2x1.mcu_width(), 16);
    assert_eq!(Subsamp::Sub2x1.mcu_height(), 8);
    assert_eq!(Subsamp::Sub2x1.mcu_size(), (16, 8));
    assert_eq!(Subsamp::Sub2x2.mcu_size(), (16, 16));
    assert_eq!(Subsamp::Sub1x4.mcu_size(), (8, 32));
    assert_eq!(Subsamp::Unknown.size(), (1, 1));
}

#[test]
fn subsampling_codes_round_trip() {
    let all = [
        Subsamp::Sub1x1,
        Subsamp::Sub2x1,
        Subsamp::Sub2x2,
        Subsamp::Gray,
        Subsamp::Sub1x2,
        Subsamp::Sub4x1,
        Subsamp::Sub1x4,
        Subsamp::Unknown,
    ];
    for s in all {
        assert_eq!(Subsamp::from_int(s.code()).unwrap(), s);
    }
    assert!(matches!(Subsamp::from_int(7), Err(Error::BadSubsamp(7))));
    assert!(matches!(Subsamp::from_int(-2), Err(Error::BadSubsamp(-2))));
}

#[test]
fn colorspace_codes_round_trip() {
    let all = [
        Colorspace::RGB,
        Colorspace::YCbCr,
        Colorspace::Gray,
        Colorspace::CMYK,
        Colorspace::YCCK,
    ];
    for c in all {
        assert_eq!(Colorspace::from_int(c.code()).unwrap(), c);
    }
    assert!(matches!(Colorspace::from_int(5), Err(Error::BadColorspace(5))));
    // The native ABI declares the colorspace enum unsigned; a negative code
    // is reported reinterpreted, as the native layer would hand it over.
    assert!(matches!(Colorspace::from_int(-1), Err(Error::BadColorspace(4294967295))));
}

#[test]
fn compressed_buf_len_formula_values() {
    // 100x100 at 2x2 subsampling: 112 * 112 * 3 blocks of coefficients plus
    // header room.
    assert_eq!(compressed_buf_len(100, 100, Subsamp::Sub2x2).unwrap(), 112 * 112 * 3 + 2048);
    // Grayscale carries no chrominance blocks.
    assert_eq!(compressed_buf_len(100, 100, Subsamp::Gray).unwrap(), 104 * 104 * 2 + 2048);
    // No subsampling has the full chrominance factor.
    assert_eq!(compressed_buf_len(1, 1, Subsamp::Sub1x1).unwrap(), 8 * 8 * 6 + 2048);
    // Unknown subsampling is sized like the unsubsampled case.
    assert_eq!(
        compressed_buf_len(100, 100, Subsamp::Unknown).unwrap(),
        compressed_buf_len(100, 100, Subsamp::Sub1x1).unwrap()
    );
}

#[test]
fn compressed_buf_len_degenerate_and_overflow() {
    assert_eq!(compressed_buf_len(0, 100, Subsamp::Sub2x2).unwrap(), 0);
    assert_eq!(compressed_buf_len(100, 0, Subsamp::Sub2x2).unwrap(), 0);
    let big = 0x8000_0000usize;
    assert!(matches!(
        compressed_buf_len(big, 100, Subsamp::Sub2x2),
        Err(Error::IntegerOverflow("width"))
    ));
    assert!(matches!(
        compressed_buf_len(100, big, Subsamp::Sub2x2),
        Err(Error::IntegerOverflow("height"))
    ));
    // Both dimensions fit the native integer width, but the worst-case total
    // does not fit in usize.
    assert!(matches!(
        compressed_buf_len(0x7fff_ffff, 0x7fff_ffff, Subsamp::Sub1x1),
        Err(Error::IntegerOverflow("buf len"))
    ));
}
