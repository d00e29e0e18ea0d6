use turbojpeg::{
    DecompressHeader, Error, OutputBuf, RawHeader, Transform, TransformCrop, TransformOp,
    Transformer,
};

fn header(subsamp: i32) -> DecompressHeader {
    let raw = RawHeader { width: 640, height: 480, subsamp, colorspace: 1, lossless: 0 };
    DecompressHeader::from_raw(raw).unwrap()
}

fn base_transform(op: TransformOp) -> Transform {
    Transform {
        op,
        perfect: false,
        trim: false,
        crop: None,
        gray: false,
        progressive: false,
        optimize: false,
        copy_none: false,
    }
}

#[test]
fn operation_codes_follow_the_native_order() {
    assert_eq!(TransformOp::Identity.code(), 0);
    assert_eq!(TransformOp::Hflip.code(), 1);
    assert_eq!(TransformOp::Vflip.code(), 2);
    assert_eq!(TransformOp::Transpose.code(), 3);
    assert_eq!(TransformOp::Transverse.code(), 4);
    assert_eq!(TransformOp::Rot90.code(), 5);
    assert_eq!(TransformOp::Rot180.code(), 6);
    assert_eq!(TransformOp::Rot270.code(), 7);
}

#[test]
fn transform_without_crop_is_marshalled_directly() {
    let t = Transformer::new();
    let mut transform = base_transform(TransformOp::Rot90);
    transform.perfect = true;
    transform.copy_none = true;
    let out = OutputBuf::new_owned();
    let req = t.prepare_transform(&transform, &header(2), &out).unwrap();
    assert_eq!(req.op_code, 5);
    assert!(req.perfect);
    assert!(req.copy_none);
    assert!(!req.crop);
    assert_eq!((req.crop_x, req.crop_y, req.crop_w, req.crop_h), (0, 0, 0, 0));
    assert!(!req.no_realloc);
}

#[test]
fn aligned_crop_is_accepted() {
    let t = Transformer::new();
    let mut transform = base_transform(TransformOp::Identity);
    // 2x1 subsampling has 16x8 MCU blocks.
    transform.crop = Some(TransformCrop { x: 32, y: 16, width: Some(100), height: None });
    let out = OutputBuf::borrowed(vec![0; 2048]);
    let req = t.prepare_transform(&transform, &header(1), &out).unwrap();
    assert!(req.crop);
    assert_eq!(req.crop_x, 32);
    assert_eq!(req.crop_y, 16);
    assert_eq!(req.crop_w, 100);
    assert_eq!(req.crop_h, 0);
    assert!(req.no_realloc);
}

#[test]
fn misaligned_crop_without_trim_is_refused() {
    let t = Transformer::new();
    let mut transform = base_transform(TransformOp::Identity);
    transform.crop = Some(TransformCrop { x: 30, y: 16, width: None, height: None });
    let out = OutputBuf::new_owned();
    let r = t.prepare_transform(&transform, &header(1), &out);
    assert!(matches!(r, Err(Error::TurboJpegError(_))));
}

#[test]
fn misaligned_crop_with_trim_is_accepted() {
    let t = Transformer::new();
    let mut transform = base_transform(TransformOp::Identity);
    transform.trim = true;
    transform.crop = Some(TransformCrop { x: 30, y: 15, width: None, height: None });
    let out = OutputBuf::new_owned();
    assert!(t.prepare_transform(&transform, &header(1), &out).is_ok());
}

#[test]
fn cropping_unknown_subsampling_needs_grayscale() {
    let t = Transformer::new();
    let mut transform = base_transform(TransformOp::Identity);
    transform.crop = Some(TransformCrop { x: 0, y: 0, width: Some(64), height: Some(64) });
    let out = OutputBuf::new_owned();
    let r = t.prepare_transform(&transform, &header(-1), &out);
    assert!(matches!(r, Err(Error::TurboJpegError(_))));
    transform.gray = true;
    assert!(t.prepare_transform(&transform, &header(-1), &out).is_ok());
}

#[test]
fn oversized_crop_coordinates_are_overflow_errors() {
    let t = Transformer::new();
    let mut transform = base_transform(TransformOp::Identity);
    transform.crop = Some(TransformCrop { x: 0x8000_0000, y: 0, width: None, height: None });
    let out = OutputBuf::new_owned();
    assert!(matches!(
        t.prepare_transform(&transform, &header(2), &out),
        Err(Error::IntegerOverflow("x"))
    ));
    transform.crop = Some(TransformCrop { x: 0, y: 0, width: Some(0x8000_0000), height: None });
    assert!(matches!(
        t.prepare_transform(&transform, &header(2), &out),
        Err(Error::IntegerOverflow("width"))
    ));
}
