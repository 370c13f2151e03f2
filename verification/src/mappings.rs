//! Static catalog of the supported device models: identification by USB
//! vendor/product id, human-readable names, geometry and image formats.

use vstd::prelude::*;
use vstd::string::StringExecFns;

verus! {

/// Namespace prefix for device ids; must stay unique among plugins.
pub const DEVICE_NAMESPACE: &'static str = "n4";

pub const ROW_COUNT: usize = 2;
pub const COL_COUNT: usize = 5;
pub const KEY_COUNT: usize = 15;
pub const ENCODER_COUNT: usize = 4;
pub const DEVICE_TYPE: u8 = 7;

pub const VSDINSIDE_VID: u16 = 0x5548;
pub const N4_PRO_PID: u16 = 0x1023;

pub const AJAZZ_VID: u16 = 0x0300;
pub const AKP05E_PID: u16 = 0x3004;

pub const MIRABOX_VID: u16 = 0x6603;
pub const N4EN_PID: u16 = 0x1007;

pub const MARS_GAMING_VID: u16 = 0x0B00;
pub const MSD_PRO_PID: u16 = 0x1003;

pub const SOOMFON_VID: u16 = 0x1500;
pub const CN003_PID: u16 = 0x3002;

/// HID usage page shared by every supported model.
pub const USAGE_PAGE: u16 = 65440;

/// HID usage id shared by every supported model.
pub const USAGE_ID: u16 = 1;

/// One enumeration/hot-plug filter entry: a (usage page, usage id,
/// vendor id, product id) tuple describing one supported model.
#[derive(Debug, Clone, Copy, PartialEq, Eq, Structural)]
pub struct DeviceQuery {
    pub usage_page: u16,
    pub usage_id: u16,
    pub vendor_id: u16,
    pub product_id: u16,
}

/// Supported device model variants.
#[derive(Debug, Clone, Copy, PartialEq, Eq, Structural)]
pub enum Kind {
    Akp05E,
    N4EN,
    N4Pro,
    MsdPro,
    CN003,
}

/// The model matched by a (vendor id, product id) pair; unknown pairs match
/// nothing.
pub open spec fn kind_of(vid: u16, pid: u16) -> Option<Kind> {
    if vid == AJAZZ_VID && pid == AKP05E_PID {
        Some(Kind::Akp05E)
    } else if vid == MIRABOX_VID && pid == N4EN_PID {
        Some(Kind::N4EN)
    } else if vid == VSDINSIDE_VID && pid == N4_PRO_PID {
        Some(Kind::N4Pro)
    } else if vid == MARS_GAMING_VID && pid == MSD_PRO_PID {
        Some(Kind::MsdPro)
    } else if vid == SOOMFON_VID && pid == CN003_PID {
        Some(Kind::CN003)
    } else {
        None
    }
}

/// The device queries used for enumeration and hot-plug filtering, one per
/// supported model, all on the shared usage page/id.
pub fn queries() -> (qs: Vec<DeviceQuery>)
    ensures
        qs@.len() == 5,
        forall|i: int|
            0 <= i < 5 ==> (#[trigger] qs@[i]).usage_page == USAGE_PAGE && qs@[i].usage_id
                == USAGE_ID,
        forall|i: int|
            0 <= i < 5 ==> kind_of((#[trigger] qs@[i]).vendor_id, qs@[i].product_id) is Some,
        qs@[0].vendor_id == AJAZZ_VID && qs@[0].product_id == AKP05E_PID,
        qs@[1].vendor_id == MIRABOX_VID && qs@[1].product_id == N4EN_PID,
        qs@[2].vendor_id == VSDINSIDE_VID && qs@[2].product_id == N4_PRO_PID,
        qs@[3].vendor_id == MARS_GAMING_VID && qs@[3].product_id == MSD_PRO_PID,
        qs@[4].vendor_id == SOOMFON_VID && qs@[4].product_id == CN003_PID,
{
    let mut qs: Vec<DeviceQuery> = Vec::new();
    qs.push(DeviceQuery { usage_page: USAGE_PAGE, usage_id: USAGE_ID, vendor_id: AJAZZ_VID, product_id: AKP05E_PID });
    qs.push(DeviceQuery { usage_page: USAGE_PAGE, usage_id: USAGE_ID, vendor_id: MIRABOX_VID, product_id: N4EN_PID });
    qs.push(DeviceQuery { usage_page: USAGE_PAGE, usage_id: USAGE_ID, vendor_id: VSDINSIDE_VID, product_id: N4_PRO_PID });
    qs.push(DeviceQuery { usage_page: USAGE_PAGE, usage_id: USAGE_ID, vendor_id: MARS_GAMING_VID, product_id: MSD_PRO_PID });
    qs.push(DeviceQuery { usage_page: USAGE_PAGE, usage_id: USAGE_ID, vendor_id: SOOMFON_VID, product_id: CN003_PID });
    qs
}

impl Kind {
    /// Matches a device's VID+PID pair to the model it belongs to.
    pub fn from_vid_pid(vid: u16, pid: u16) -> (r: Option<Self>)
        ensures
            r == kind_of(vid, pid),
    {
        match vid {
            AJAZZ_VID => match pid {
                AKP05E_PID => Some(Kind::Akp05E),
                _ => None,
            },
            MIRABOX_VID => match pid {
                N4EN_PID => Some(Kind::N4EN),
                _ => None,
            },
            VSDINSIDE_VID => match pid {
                N4_PRO_PID => Some(Kind::N4Pro),
                _ => None,
            },
            MARS_GAMING_VID => match pid {
                MSD_PRO_PID => Some(Kind::MsdPro),
                _ => None,
            },
            SOOMFON_VID => match pid {
                CN003_PID => Some(Kind::CN003),
                _ => None,
            },
            _ => None,
        }
    }

    /// The human name announced for each model.
    pub open spec fn spec_human_name(self) -> Seq<char> {
        match self {
            Kind::Akp05E => "Ajazz AKP05E"@,
            Kind::N4EN => "Mirabox N4EN"@,
            Kind::N4Pro => "VSDInside N4 Pro"@,
            Kind::MsdPro => "Mars Gaming MSD-Pro"@,
            Kind::CN003 => "Soomfon CN003"@,
        }
    }

    /// USB-reported manufacturer/device names are unreliable, so every model
    /// carries a fixed name of its own.
    pub fn human_name(&self) -> (r: String)
        ensures
            r@ == self.spec_human_name(),
    {
        match self {
            Kind::Akp05E => String::from_str("Ajazz AKP05E"),
            Kind::N4EN => String::from_str("Mirabox N4EN"),
            Kind::N4Pro => String::from_str("VSDInside N4 Pro"),
            Kind::MsdPro => String::from_str("Mars Gaming MSD-Pro"),
            Kind::CN003 => String::from_str("Soomfon CN003"),
        }
    }

    /// The vendor protocol version the model speaks.
    pub fn protocol_version(&self) -> (r: usize)
        ensures
            r == 3,
    {
        match self {
            Kind::N4EN => 3,
            Kind::Akp05E => 3,
            Kind::N4Pro => 3,
            Kind::MsdPro => 3,
            Kind::CN003 => 3,
        }
    }

    /// Number of button rows shown to the host application.
    pub fn row_count(&self) -> (r: usize)
        ensures
            r == ROW_COUNT,
    {
        ROW_COUNT
    }

    /// Number of button columns shown to the host application.
    pub fn col_count(&self) -> (r: usize)
        ensures
            r == COL_COUNT,
    {
        COL_COUNT
    }

    /// Number of image-capable keys on the device.
    pub fn key_count(&self) -> (r: usize)
        ensures
            r == KEY_COUNT,
    {
        KEY_COUNT
    }

    /// Number of encoders announced to the host application.
    pub fn encoder_count(&self) -> (r: usize)
        ensures
            r == ENCODER_COUNT,
    {
        ENCODER_COUNT
    }

    /// Device-type tag announced to the host application.
    pub fn device_type(&self) -> (r: u8)
        ensures
            r == DEVICE_TYPE,
    {
        DEVICE_TYPE
    }
}

/// Pixel encoding of an image payload sent to the device.
#[derive(Debug, Clone, Copy, PartialEq, Eq, Structural)]
pub enum ImageMode {
    NoImage,
    Bmp,
    Jpeg,
}

/// Rotation applied to an image before it is sent.
#[derive(Debug, Clone, Copy, PartialEq, Eq, Structural)]
pub enum ImageRotation {
    Rot0,
    Rot90,
    Rot180,
    Rot270,
}

/// Mirroring applied to an image before it is sent.
#[derive(Debug, Clone, Copy, PartialEq, Eq, Structural)]
pub enum ImageMirroring {
    NoMirror,
    FlipX,
    FlipY,
    FlipBoth,
}

/// Image format of one hardware slot: pixel encoding, dimensions, rotation
/// and mirroring.
#[derive(Debug, Clone, Copy, PartialEq, Eq, Structural)]
pub struct ImageFormat {
    pub mode: ImageMode,
    pub width: usize,
    pub height: usize,
    pub rotation: ImageRotation,
    pub mirror: ImageMirroring,
}

impl Kind {
    /// The standard key-image format every model uses.
    pub open spec fn spec_image_format(self) -> ImageFormat {
        ImageFormat {
            mode: ImageMode::Jpeg,
            width: 112,
            height: 112,
            rotation: ImageRotation::Rot180,
            mirror: ImageMirroring::NoMirror,
        }
    }

    /// The image format for the model's standard keys.
    pub fn image_format(&self) -> (r: ImageFormat)
        ensures
            r == self.spec_image_format(),
    {
        if self.protocol_version() == 3 {
            return ImageFormat {
                mode: ImageMode::Jpeg,
                width: 112,
                height: 112,
                rotation: ImageRotation::Rot180,
                mirror: ImageMirroring::NoMirror,
            };
        }

        ImageFormat {
            mode: ImageMode::Jpeg,
            width: 60,
            height: 60,
            rotation: ImageRotation::Rot0,
            mirror: ImageMirroring::NoMirror,
        }
    }

    /// The secondary ("touch segment") image format every model uses: a
    /// wider resolution than the standard keys.
    pub open spec fn spec_touch_image_format(self) -> ImageFormat {
        ImageFormat {
            mode: ImageMode::Jpeg,
            width: 176,
            height: 112,
            rotation: ImageRotation::Rot180,
            mirror: ImageMirroring::NoMirror,
        }
    }

    /// The image format for the model's secondary display segments.
    pub fn touch_image_format(&self) -> (r: ImageFormat)
        ensures
            r == self.spec_touch_image_format(),
    {
        if self.protocol_version() == 3 {
            return ImageFormat {
                mode: ImageMode::Jpeg,
                width: 176,
                height: 112,
                rotation: ImageRotation::Rot180,
                mirror: ImageMirroring::NoMirror,
            };
        }

        ImageFormat {
            mode: ImageMode::Jpeg,
            width: 60,
            height: 60,
            rotation: ImageRotation::Rot0,
            mirror: ImageMirroring::NoMirror,
        }
    }
}

/// A physically discovered device whose vendor/product pair matched a known
/// model. Never mutated after construction.
#[derive(Debug, Clone)]
pub struct CandidateDevice {
    /// Namespaced id: the device namespace, a dash, then the serial number.
    pub id: String,
    pub vendor_id: u16,
    pub product_id: u16,
    pub serial: String,
    pub kind: Kind,
}

} // verus!
