use image::error::{
    DecodingError, EncodingError, ImageFormatHint, LimitError, LimitErrorKind, ParameterError,
    ParameterErrorKind, UnsupportedError, UnsupportedErrorKind,
};
use image::{DynamicImage, ImageError, Rgba, RgbaImage};
use image_sl::provider::{
    engine_error_code, mirror_image, open_image, open_outcome, save_image, save_outcome,
};
use image_sl::wire::ImageErrorCode;

fn sample() -> DynamicImage {
    let buf = RgbaImage::from_fn(5, 3, |x, y| Rgba([(x * 40) as u8, (y * 70) as u8, 9, 255]));
    DynamicImage::ImageRgba8(buf)
}

fn io_error() -> ImageError {
    ImageError::IoError(std::io::Error::new(std::io::ErrorKind::NotFound, "gone"))
}

#[test]
fn engine_errors_map_to_wire_codes() {
    assert_eq!(engine_error_code(&io_error()), ImageErrorCode::Io);
    let dec = ImageError::Decoding(DecodingError::new(ImageFormatHint::Unknown, "bad"));
    assert_eq!(engine_error_code(&dec), ImageErrorCode::Decoding);
    let enc = ImageError::Encoding(EncodingError::new(ImageFormatHint::Unknown, "bad"));
    assert_eq!(engine_error_code(&enc), ImageErrorCode::Encoding);
    let par = ImageError::Parameter(ParameterError::from_kind(ParameterErrorKind::DimensionMismatch));
    assert_eq!(engine_error_code(&par), ImageErrorCode::Parameter);
    let lim = ImageError::Limits(LimitError::from_kind(LimitErrorKind::InsufficientMemory));
    assert_eq!(engine_error_code(&lim), ImageErrorCode::Unsupported);
    let uns = ImageError::Unsupported(UnsupportedError::from_format_and_kind(
        ImageFormatHint::Unknown,
        UnsupportedErrorKind::Format(ImageFormatHint::Unknown),
    ));
    assert_eq!(engine_error_code(&uns), ImageErrorCode::Unsupported);
}

#[test]
fn open_outcome_keeps_image_or_maps_error() {
    let img = sample();
    assert_eq!(open_outcome(Ok(img.clone())), Ok(img));
    assert_eq!(open_outcome(Err(io_error())), Err(ImageErrorCode::Io));
}

#[test]
fn save_outcome_reports_status() {
    assert_eq!(save_outcome(Ok(())), ImageErrorCode::NoError);
    assert_eq!(save_outcome(Err(io_error())), ImageErrorCode::Io);
}

#[test]
fn open_missing_file_is_io_error() {
    let r = open_image(Some(b"/nonexistent/image_sl/missing.png".as_slice()), true);
    assert_eq!(r.err(), Some(ImageErrorCode::Io));
}

#[test]
fn open_null_path_is_parameter_error() {
    assert_eq!(open_image(None, true).err(), Some(ImageErrorCode::Parameter));
}

#[test]
fn open_without_output_is_parameter_error() {
    let r = open_image(Some(b"/nonexistent/image_sl/missing.png".as_slice()), false);
    assert_eq!(r.err(), Some(ImageErrorCode::Parameter));
}

#[test]
fn open_non_utf8_path_is_parameter_error() {
    let p = [b'/', b't', 0xFF, 0xFE];
    assert_eq!(open_image(Some(p.as_slice()), true).err(), Some(ImageErrorCode::Parameter));
}

#[test]
fn save_null_image_is_parameter_error() {
    assert_eq!(save_image(Some(b"/tmp/image_sl_never.png".as_slice()), None), ImageErrorCode::Parameter);
}

#[test]
fn save_null_path_is_parameter_error() {
    let img = sample();
    assert_eq!(save_image(None, Some(&img)), ImageErrorCode::Parameter);
}

#[test]
fn save_unknown_extension_is_unsupported() {
    let img = sample();
    let r = save_image(Some(b"/tmp/image_sl_out.unknownext".as_slice()), Some(&img));
    assert_eq!(r, ImageErrorCode::Unsupported);
}

#[test]
fn save_then_open_round_trip() {
    let img = sample();
    let path = b"/tmp/image_sl_round_trip.png";
    assert_eq!(save_image(Some(path.as_slice()), Some(&img)), ImageErrorCode::NoError);
    let back = open_image(Some(path.as_slice()), true).unwrap();
    assert_eq!(back.to_rgba8(), img.to_rgba8());
}

#[test]
fn mirror_flips_columns() {
    let mut img = sample();
    mirror_image(&mut img);
    let before = sample().to_rgba8();
    let after = img.to_rgba8();
    assert_eq!(after.get_pixel(0, 1), before.get_pixel(4, 1));
    assert_eq!(after.get_pixel(4, 2), before.get_pixel(0, 2));
    assert_ne!(after, before);
}

#[test]
fn mirror_twice_restores_image() {
    let mut img = sample();
    mirror_image(&mut img);
    mirror_image(&mut img);
    assert_eq!(img, sample());
}

#[test]
fn mirror_saved_and_reopened_then_mirrored_again_matches() {
    let mut img = sample();
    mirror_image(&mut img);
    let path = b"/tmp/image_sl_mirrored.png";
    assert_eq!(save_image(Some(path.as_slice()), Some(&img)), ImageErrorCode::NoError);
    let mut back = open_image(Some(path.as_slice()), true).unwrap();
    mirror_image(&mut back);
    assert_eq!(back.to_rgba8(), sample().to_rgba8());
}

#[test]
fn outcomes_carry_the_mapped_code_of_each_kind() {
    let dec = ImageError::Decoding(DecodingError::new(ImageFormatHint::Unknown, "bad"));
    assert_eq!(open_outcome(Err(dec)), Err(ImageErrorCode::Decoding));
    let lim = ImageError::Limits(LimitError::from_kind(LimitErrorKind::DimensionError));
    assert_eq!(open_outcome(Err(lim)), Err(ImageErrorCode::Unsupported));
    let enc = ImageError::Encoding(EncodingError::new(ImageFormatHint::Unknown, "bad"));
    assert_eq!(save_outcome(Err(enc)), ImageErrorCode::Encoding);
    let par = ImageError::Parameter(ParameterError::from_kind(ParameterErrorKind::NoMoreData));
    assert_eq!(save_outcome(Err(par)), ImageErrorCode::Parameter);
}
