//! Image-set request handling: maps a host "set image" event (position,
//! optional data-URL payload, controller tag) to the exact sequence of
//! device image operations it is owed, with the payload parsed and checked
//! on the way.

use vstd::prelude::*;
use vstd::string::StringExecFns;
use crate::error::DeviceError;
use crate::mappings::{ImageFormat, Kind};
use crate::device::{
    spec_map_image_position, map_key_image_position_to_hw, N1_HW_SEGMENT_START, N1_HW_SEGMENT_END,
};

verus! {

#[verifier::external_type_specification]
#[verifier::external_body]
pub struct ExDynamicImage(image::DynamicImage);

/// What parsing a data URL yields: the mime subtype and the decoded body,
/// a function of the string alone; nothing when the string is not a valid
/// data URL.
pub uninterp spec fn data_url_parts(s: Seq<char>) -> Option<(Seq<char>, Seq<u8>)>;

/// Whether a byte sequence decodes as a JPEG image, a function of the bytes
/// alone.
pub uninterp spec fn jpeg_decode_ok(b: Seq<u8>) -> bool;

/// Relies on data_url::DataUrl::process and DataUrl::decode_to_vec: whether
/// a string parses as a data URL, its mime subtype and its decoded body
/// depend on the string alone.
#[verifier::external_body]
fn decode_data_url(s: &str) -> (r: Option<(String, Vec<u8>)>)
    ensures
        r is Some <==> data_url_parts(s@) is Some,
        r matches Some(p) ==> data_url_parts(s@) == Some((p.0@, p.1@)),
{
    let url = data_url::DataUrl::process(s).ok()?;
    let (body, _fragment) = url.decode_to_vec().ok()?;
    Some((url.mime_type().subtype.clone(), body))
}

/// Relies on image::load_from_memory_with_format with the JPEG format:
/// whether the bytes decode, and the decoded image, depend on the bytes
/// alone.
#[verifier::external_body]
fn decode_jpeg(bytes: &Vec<u8>) -> (r: Option<image::DynamicImage>)
    ensures
        r is Some <==> jpeg_decode_ok(bytes@),
{
    image::load_from_memory_with_format(bytes.as_slice(), image::ImageFormat::Jpeg).ok()
}

/// One image operation owed to the open device, in order.
#[derive(Debug)]
pub enum ImageOp {
    /// Write a decoded image into a hardware slot in the given format.
    SetImage { hw: u8, format: ImageFormat, image: image::DynamicImage },
    /// Clear one hardware slot.
    ClearImage { hw: u8 },
    /// Clear every button image.
    ClearAll,
    /// Flush the write buffer.
    Flush,
}

/// The controller tag that marks an encoder-targeted request.
pub open spec fn spec_is_encoder_controller(controller: Option<&String>) -> bool {
    controller matches Some(c) && c@ == "Encoder"@
}

/// Tells whether a request's controller tag addresses an encoder.
pub fn is_encoder_controller(controller: Option<&String>) -> (r: bool)
    ensures
        r == spec_is_encoder_controller(controller),
{
    match controller {
        Some(c) => {
            let tag = String::from_str("Encoder");
            *c == tag
        },
        None => false,
    }
}

/// The image format a hardware slot takes: the secondary/touch format for
/// the segment slots, the standard key format for everything else.
pub open spec fn spec_format_for_slot(kind: Kind, hw: u8) -> ImageFormat {
    if N1_HW_SEGMENT_START <= hw <= N1_HW_SEGMENT_END {
        kind.spec_touch_image_format()
    } else {
        kind.spec_image_format()
    }
}

/// Turns one "set image" request into the device operations it is owed.
///
/// Encoder-targeted requests are silent no-ops (the encoder surface has no
/// display), as are requests aimed at an input-only position. A position
/// outside every defined range is a malformed request. A payload that is
/// not a valid data URL is rejected as malformed; one whose declared type
/// is not JPEG is skipped silently; one whose body does not decode as JPEG
/// is a content-level image error. A request with neither position nor
/// payload clears the whole device.
pub fn handle_set_image(
    kind: &Kind,
    position: Option<u8>,
    image: Option<&String>,
    controller: Option<&String>,
) -> (r: Result<Vec<ImageOp>, DeviceError>)
    ensures
        position is None && image is None ==> (r matches Ok(ops) && ops@.len() == 2 && ops@[0]
            is ClearAll && ops@[1] is Flush),
        position is None && image is Some ==> (r matches Ok(ops) && ops@.len() == 0),
        position is Some && spec_is_encoder_controller(controller) ==> (r matches Ok(ops)
            && ops@.len() == 0),
        (position matches Some(p) && !spec_is_encoder_controller(controller)
            && spec_map_image_position(p) is Err) ==> r == Err::<Vec<ImageOp>, DeviceError>(
            DeviceError::BadData,
        ),
        (position matches Some(p) && !spec_is_encoder_controller(controller)
            && spec_map_image_position(p) == Ok::<Option<u8>, DeviceError>(None)) ==> (r matches Ok(
            ops,
        ) && ops@.len() == 0),
        (position matches Some(p) && image is None && !spec_is_encoder_controller(controller)
            && spec_map_image_position(p) matches Ok(Some(_))) ==> {
            let hw = spec_map_image_position(position->0)->Ok_0->0;
            r matches Ok(ops) && ops@.len() == 2 && (ops@[0] matches ImageOp::ClearImage {
                hw: h,
            } && h == hw) && ops@[1] is Flush
        },
        (position matches Some(p) && image matches Some(img) && !spec_is_encoder_controller(
            controller,
        ) && spec_map_image_position(p) matches Ok(Some(_))) ==> {
            let hw = spec_map_image_position(position->0)->Ok_0->0;
            match data_url_parts(image->0@) {
                None => r == Err::<Vec<ImageOp>, DeviceError>(DeviceError::BadData),
                Some(parts) => {
                    if parts.0 != "jpeg"@ {
                        r matches Ok(ops) && ops@.len() == 0
                    } else if !jpeg_decode_ok(parts.1) {
                        r == Err::<Vec<ImageOp>, DeviceError>(DeviceError::Image)
                    } else {
                        r matches Ok(ops) && ops@.len() == 2 && (ops@[0]
                            matches ImageOp::SetImage {
                            hw: h,
                            format,
                            image: _,
                        } && h == hw && format == spec_format_for_slot(*kind, hw)) && ops@[1]
                            is Flush
                    }
                },
            }
        },
{
    let is_encoder = is_encoder_controller(controller);
    let mut ops: Vec<ImageOp> = Vec::new();

    match (position, image) {
        (Some(position), Some(image)) => {
            if is_encoder {
                return Ok(ops);
            }

            let mapped = match map_key_image_position_to_hw(position) {
                Ok(m) => m,
                Err(e) => {
                    return Err(e);
                },
            };
            let hw = match mapped {
                Some(hw) => hw,
                None => {
                    return Ok(ops);
                },
            };

            let (subtype, body) = match decode_data_url(image.as_str()) {
                Some(p) => p,
                None => {
                    return Err(DeviceError::BadData);
                },
            };

            let jpeg_tag = String::from_str("jpeg");
            if subtype != jpeg_tag {
                return Ok(ops);
            }

            let decoded = match decode_jpeg(&body) {
                Some(d) => d,
                None => {
                    return Err(DeviceError::Image);
                },
            };

            let format = if N1_HW_SEGMENT_START <= hw && hw <= N1_HW_SEGMENT_END {
                kind.touch_image_format()
            } else {
                kind.image_format()
            };
            ops.push(ImageOp::SetImage { hw, format, image: decoded });
            ops.push(ImageOp::Flush);
            Ok(ops)
        },
        (Some(position), None) => {
            if is_encoder {
                return Ok(ops);
            }

            let mapped = match map_key_image_position_to_hw(position) {
                Ok(m) => m,
                Err(e) => {
                    return Err(e);
                },
            };
            let hw = match mapped {
                Some(hw) => hw,
                None => {
                    return Ok(ops);
                },
            };

            ops.push(ImageOp::ClearImage { hw });
            ops.push(ImageOp::Flush);
            Ok(ops)
        },
        (None, None) => {
            ops.push(ImageOp::ClearAll);
            ops.push(ImageOp::Flush);
            Ok(ops)
        },
        (None, Some(_)) => Ok(ops),
    }
}

} // verus!
