use bioimg_staging::cover_image::{CoverImage, CoverImageParsingError, MAX_SIZE_IN_BYTES};

fn png(width: u32, height: u32) -> Vec<u8> {
    let img = image::DynamicImage::ImageRgb8(image::RgbImage::new(width, height));
    let mut out = std::io::Cursor::new(Vec::new());
    img.write_to(&mut out, image::ImageFormat::Png).unwrap();
    out.into_inner()
}

#[test]
fn cover_image_square_accepted() {
    let c = CoverImage::try_from(png(100, 100).as_slice()).unwrap();
    assert_eq!((c.width(), c.height()), (100, 100));
    assert_eq!(c.decoded().width(), 100);
}

#[test]
fn cover_image_two_to_one_accepted() {
    let c = CoverImage::try_from(png(200, 100).as_slice()).unwrap();
    assert_eq!((c.width(), c.height()), (200, 100));
}

#[test]
fn cover_image_bad_ratio_rejected() {
    match CoverImage::try_from(png(100, 99).as_slice()) {
        Err(CoverImageParsingError::BadAspectRatio { width, height }) => {
            assert_eq!((width, height), (100, 99));
        }
        _ => panic!("expected a bad aspect ratio"),
    }
    assert!(matches!(
        CoverImage::try_from(png(100, 200).as_slice()),
        Err(CoverImageParsingError::BadAspectRatio { width: 100, height: 200 })
    ));
}

#[test]
fn cover_image_too_big_rejected() {
    let bytes = vec![0u8; MAX_SIZE_IN_BYTES + 1];
    assert!(matches!(
        CoverImage::try_from(bytes.as_slice()),
        Err(CoverImageParsingError::TooBig { size }) if size == 500 * 1024 + 1
    ));
}

#[test]
fn cover_image_bad_data_rejected() {
    assert!(matches!(
        CoverImage::try_from(&[1u8, 2, 3, 4][..]),
        Err(CoverImageParsingError::BadImageData(_))
    ));
}

#[test]
fn cover_image_ratio_rule() {
    assert!(CoverImage::is_valid_ratio(5, 5));
    assert!(CoverImage::is_valid_ratio(10, 5));
    assert!(!CoverImage::is_valid_ratio(0, 0));
    assert!(!CoverImage::is_valid_ratio(3, 2));
    assert!(CoverImage::is_valid_ratio(u32::MAX - 1, u32::MAX / 2));
}

#[test]
fn cover_image_from_decoded_result() {
    let img = image::DynamicImage::ImageRgb8(image::RgbImage::new(30, 15));
    let c = CoverImage::from_decoded(Ok((img, 30, 15))).unwrap();
    assert_eq!((c.width(), c.height()), (30, 15));
    let img = image::DynamicImage::ImageRgb8(image::RgbImage::new(30, 14));
    assert!(matches!(
        CoverImage::from_decoded(Ok((img, 30, 14))),
        Err(CoverImageParsingError::BadAspectRatio { width: 30, height: 14 })
    ));
    let err = image::load_from_memory(&[0u8, 1, 2]).unwrap_err();
    assert!(matches!(
        CoverImage::from_decoded(Err(err)),
        Err(CoverImageParsingError::BadImageData(_))
    ));
}

#[test]
fn cover_image_at_size_limit_is_not_too_big() {
    let bytes = vec![0u8; MAX_SIZE_IN_BYTES];
    assert!(matches!(
        CoverImage::try_from(bytes.as_slice()),
        Err(CoverImageParsingError::BadImageData(_))
    ));
}
