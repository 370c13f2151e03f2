use opendeck_n4::error::DeviceError;
use opendeck_n4::images::{handle_set_image, ImageOp};
use opendeck_n4::mappings::Kind;

fn jpeg_data_url() -> String {
    // A real JPEG payload, percent-encoded into a data URL.
    let img = image::DynamicImage::ImageRgb8(image::RgbImage::new(4, 4));
    let mut bytes: Vec<u8> = Vec::new();
    img.write_to(&mut std::io::Cursor::new(&mut bytes), image::ImageFormat::Jpeg)
        .expect("encoding a tiny JPEG must work");
    let mut url = String::from("data:image/jpeg,");
    for b in bytes {
        url.push_str(&format!("%{b:02X}"));
    }
    url
}

#[test]
fn clear_everything_when_neither_position_nor_image_is_given() {
    let ops = handle_set_image(&Kind::N4Pro, None, None, None).expect("clear-all succeeds");
    assert_eq!(ops.len(), 2);
    assert!(matches!(ops[0], ImageOp::ClearAll));
    assert!(matches!(ops[1], ImageOp::Flush));
}

#[test]
fn image_without_position_does_nothing() {
    let url = jpeg_data_url();
    let ops = handle_set_image(&Kind::N4Pro, None, Some(&url), None).expect("no-op succeeds");
    assert!(ops.is_empty());
}

#[test]
fn encoder_targets_are_silent_no_ops() {
    let url = jpeg_data_url();
    let controller = String::from("Encoder");
    let ops = handle_set_image(&Kind::N4Pro, Some(6), Some(&url), Some(&controller))
        .expect("encoder write is skipped");
    assert!(ops.is_empty());
    let ops = handle_set_image(&Kind::N4Pro, Some(6), None, Some(&controller))
        .expect("encoder clear is skipped");
    assert!(ops.is_empty());

    // Other controller tags do not suppress the request.
    let keypad = String::from("Keypad");
    let ops = handle_set_image(&Kind::N4Pro, Some(6), None, Some(&keypad)).expect("clear runs");
    assert_eq!(ops.len(), 2);
}

#[test]
fn input_only_positions_are_silent_no_ops() {
    let url = jpeg_data_url();
    for position in 0u8..=2 {
        let ops = handle_set_image(&Kind::N4Pro, Some(position), Some(&url), None)
            .expect("input-only write is skipped");
        assert!(ops.is_empty());
        let ops = handle_set_image(&Kind::N4Pro, Some(position), None, None)
            .expect("input-only clear is skipped");
        assert!(ops.is_empty());
    }
}

#[test]
fn clear_request_maps_the_position_and_flushes() {
    let ops = handle_set_image(&Kind::N4Pro, Some(6), None, None).expect("clear succeeds");
    assert_eq!(ops.len(), 2);
    match &ops[0] {
        ImageOp::ClearImage { hw } => assert_eq!(*hw, 0),
        other => panic!("expected a clear, got {other:?}"),
    }
    assert!(matches!(ops[1], ImageOp::Flush));
}

#[test]
fn malformed_positions_are_rejected() {
    assert!(matches!(
        handle_set_image(&Kind::N4Pro, Some(21), None, None),
        Err(DeviceError::BadData)
    ));
    let url = jpeg_data_url();
    assert!(matches!(
        handle_set_image(&Kind::N4Pro, Some(255), Some(&url), None),
        Err(DeviceError::BadData)
    ));
}

#[test]
fn a_payload_that_is_no_data_url_is_rejected() {
    let not_a_url = String::from("definitely not a data url");
    assert!(matches!(
        handle_set_image(&Kind::N4Pro, Some(6), Some(&not_a_url), None),
        Err(DeviceError::BadData)
    ));
}

#[test]
fn a_non_jpeg_mime_type_is_skipped_silently() {
    let url = String::from("data:text/plain,hello");
    let ops = handle_set_image(&Kind::N4Pro, Some(6), Some(&url), None)
        .expect("wrong mime is non-fatal");
    assert!(ops.is_empty());
}

#[test]
fn a_jpeg_payload_that_does_not_decode_is_a_content_error() {
    let url = String::from("data:image/jpeg,notactuallyjpegbytes");
    assert!(matches!(
        handle_set_image(&Kind::N4Pro, Some(6), Some(&url), None),
        Err(DeviceError::Image)
    ));
}

#[test]
fn grid_write_uses_the_standard_format() {
    let url = jpeg_data_url();
    let ops = handle_set_image(&Kind::N4Pro, Some(10), Some(&url), None).expect("write succeeds");
    assert_eq!(ops.len(), 2);
    match &ops[0] {
        ImageOp::SetImage { hw, format, image: _ } => {
            assert_eq!(*hw, 4);
            assert_eq!(*format, Kind::N4Pro.image_format());
        },
        other => panic!("expected a write, got {other:?}"),
    }
    assert!(matches!(ops[1], ImageOp::Flush));
}

#[test]
fn segment_write_uses_the_touch_format() {
    let url = jpeg_data_url();
    let ops = handle_set_image(&Kind::N4Pro, Some(4), Some(&url), None).expect("write succeeds");
    assert_eq!(ops.len(), 2);
    match &ops[0] {
        ImageOp::SetImage { hw, format, image } => {
            assert_eq!(*hw, 16);
            assert_eq!(*format, Kind::N4Pro.touch_image_format());
            // The decoded payload really is the image that was sent.
            assert_eq!(image.width(), 4);
            assert_eq!(image.height(), 4);
        },
        other => panic!("expected a write, got {other:?}"),
    }
    assert!(matches!(ops[1], ImageOp::Flush));
}
