use image_sl::consumer::accept_blurred;
use image_sl::consumer::accept_opened;
use image_sl::consumer::check_table_size;
use image_sl::consumer::LoadError;
use image_sl::wire::ImageErrorCode;

#[test]
fn matching_table_width_is_accepted() {
    assert!(check_table_size(48, 48).is_ok());
}

#[test]
fn table_with_one_slot_fewer_is_refused() {
    let r = check_table_size(40, 48);
    assert!(matches!(r, Err(LoadError::SizeMismatch { provided: 40, expected: 48 })));
}

#[test]
fn wider_table_is_refused() {
    let r = check_table_size(56, 48);
    assert!(matches!(r, Err(LoadError::SizeMismatch { provided: 56, expected: 48 })));
}

#[test]
fn opened_handle_is_kept_on_success() {
    assert_eq!(accept_opened(0, 0x1000), Ok(0x1000));
}

#[test]
fn opened_null_handle_on_success_is_unsupported() {
    assert_eq!(accept_opened(0, 0), Err(ImageErrorCode::Unsupported));
}

#[test]
fn opened_error_codes_are_reported() {
    assert_eq!(accept_opened(1, 0), Err(ImageErrorCode::Io));
    assert_eq!(accept_opened(2, 0x1000), Err(ImageErrorCode::Decoding));
    assert_eq!(accept_opened(4, 0), Err(ImageErrorCode::Parameter));
    assert_eq!(accept_opened(77, 0), Err(ImageErrorCode::Unsupported));
}

#[test]
fn blurred_null_handle_is_unsupported() {
    assert_eq!(accept_blurred(0), Err(ImageErrorCode::Unsupported));
}

#[test]
fn blurred_handle_is_kept() {
    assert_eq!(accept_blurred(0x2000), Ok(0x2000));
}
