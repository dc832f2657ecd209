//! Static registry of supported deck models.
//!
//! Soomfon hardware is an OEM rebrand of the Mirabox / Ajazz stream controller
//! family, so a single table covers every model.

use mirajazz::device::DeviceQuery;
use vstd::prelude::*;

verus! {

/// HID usage page exposed by the vendor (control) interface of every model.
pub const USAGE_PAGE: u16 = 65440;
/// HID usage id of the vendor interface.
pub const USAGE_ID: u16 = 1;

/// USB vendor id of the Ajazz models.
pub const AJAZZ_VID: u16 = 0x0300;
/// USB vendor id of the Mirabox N3.
pub const N3_VID: u16 = 0x6602;
/// USB vendor id of the Mirabox N3EN.
pub const MIRABOX_VID: u16 = 0x6603;
/// USB vendor id of the Soomfon models.
pub const SOOMFON_VID: u16 = 0x1500;

/// USB product id of the Ajazz AKP03.
pub const AKP03_PID: u16 = 0x1001;
/// USB product id of the Ajazz AKP03E.
pub const AKP03E_PID: u16 = 0x1002;
/// USB product id of the Ajazz AKP03R.
pub const AKP03R_PID: u16 = 0x1003;
/// USB product id of the second revision of the Ajazz AKP03E.
pub const AKP03E_REV2_PID: u16 = 0x3002;
/// USB product id of the Mirabox N3.
pub const N3_PID: u16 = 0x1002;
/// USB product id of the Mirabox N3EN.
pub const N3EN_PID: u16 = 0x1003;
/// USB product id of the Soomfon Stream Controller SE.
pub const SOOMFON_SE_PID: u16 = 0x3001;

/// Every model in this family is a 3x3 grid of keys.
pub const KEY_COUNT: u8 = 9;
/// The first six keys (the top two rows) are LCD screens.
pub const LCD_KEY_COUNT: u8 = 6;
/// Number of rotary encoders / knobs.
pub const ENCODER_COUNT: u8 = 3;
/// Side length, in pixels, of each square LCD key.
pub const KEY_IMAGE_DIM: u32 = 60;

/// A specific, supported device model.
#[derive(Debug, Clone, Copy, PartialEq, Eq, Structural)]
pub enum Kind {
    /// Ajazz AKP03.
    Akp03,
    /// Ajazz AKP03E.
    Akp03E,
    /// Ajazz AKP03R.
    Akp03R,
    /// Ajazz AKP03E, second revision.
    Akp03Erev2,
    /// Mirabox N3.
    N3,
    /// Mirabox N3EN.
    N3En,
    /// Soomfon Stream Controller SE.
    SoomfonSe,
}

/// Every supported model, in query order.
pub const ALL: [Kind; 7] = [
    Kind::Akp03,
    Kind::Akp03E,
    Kind::Akp03R,
    Kind::Akp03Erev2,
    Kind::N3,
    Kind::N3En,
    Kind::SoomfonSe,
];

/// The model, if any, that answers to the USB ids `(vid, pid)`.
pub open spec fn kind_of_ids(vid: u16, pid: u16) -> Option<Kind> {
    if vid == AJAZZ_VID && pid == AKP03_PID {
        Some(Kind::Akp03)
    } else if vid == AJAZZ_VID && pid == AKP03E_PID {
        Some(Kind::Akp03E)
    } else if vid == AJAZZ_VID && pid == AKP03R_PID {
        Some(Kind::Akp03R)
    } else if vid == AJAZZ_VID && pid == AKP03E_REV2_PID {
        Some(Kind::Akp03Erev2)
    } else if vid == N3_VID && pid == N3_PID {
        Some(Kind::N3)
    } else if vid == MIRABOX_VID && pid == N3EN_PID {
        Some(Kind::N3En)
    } else if vid == SOOMFON_VID && pid == SOOMFON_SE_PID {
        Some(Kind::SoomfonSe)
    } else {
        None
    }
}

/// The USB `(vendor id, product id)` of each model.
pub open spec fn ids_of(kind: Kind) -> (u16, u16) {
    match kind {
        Kind::Akp03 => (AJAZZ_VID, AKP03_PID),
        Kind::Akp03E => (AJAZZ_VID, AKP03E_PID),
        Kind::Akp03R => (AJAZZ_VID, AKP03R_PID),
        Kind::Akp03Erev2 => (AJAZZ_VID, AKP03E_REV2_PID),
        Kind::N3 => (N3_VID, N3_PID),
        Kind::N3En => (MIRABOX_VID, N3EN_PID),
        Kind::SoomfonSe => (SOOMFON_VID, SOOMFON_SE_PID),
    }
}

/// The human-readable name of each model.
pub open spec fn model_name(kind: Kind) -> Seq<char> {
    match kind {
        Kind::Akp03 => "Ajazz AKP03"@,
        Kind::Akp03E => "Ajazz AKP03E"@,
        Kind::Akp03R => "Ajazz AKP03R"@,
        Kind::Akp03Erev2 => "Ajazz AKP03E (rev. 2)"@,
        Kind::N3 => "Mirabox N3"@,
        Kind::N3En => "Mirabox N3EN"@,
        Kind::SoomfonSe => "Soomfon Stream Controller SE"@,
    }
}

/// Whether a model's panels are wired rotated by a quarter turn.
pub open spec fn panel_is_rotated(kind: Kind) -> bool {
    kind == Kind::Akp03Erev2 || kind == Kind::N3En || kind == Kind::SoomfonSe
}

/// Whether a model emits separate press and release reports.
pub open spec fn reports_both_states(kind: Kind) -> bool {
    kind == Kind::N3En || kind == Kind::Akp03Erev2 || kind == Kind::SoomfonSe
}


/// Image encoding a key panel expects.
#[derive(Debug, Clone, Copy, PartialEq, Eq, Structural)]
pub enum ImageMode {
    /// No image.
    Blank,
    /// Bitmap image.
    BMP,
    /// JPEG image.
    JPEG,
}

/// Rotation applied to a key image before it is sent to the panel.
#[derive(Debug, Clone, Copy, PartialEq, Eq, Structural)]
pub enum ImageRotation {
    /// No rotation.
    Rot0,
    /// 90 degrees clockwise.
    Rot90,
    /// 180 degrees.
    Rot180,
    /// 90 degrees counter-clockwise.
    Rot270,
}

/// Mirroring applied to a key image before it is sent to the panel.
#[derive(Debug, Clone, Copy, PartialEq, Eq, Structural)]
pub enum ImageMirroring {
    /// No mirroring.
    Unmirrored,
    /// Flip along the X axis.
    X,
    /// Flip along the Y axis.
    Y,
    /// Flip along both axes.
    Both,
}

/// The framing the firmware expects for a key image.
#[derive(Debug, Clone, Copy, PartialEq, Eq)]
pub struct ImageFormat {
    /// Image encoding.
    pub mode: ImageMode,
    /// Image size `(width, height)` in pixels.
    pub size: (usize, usize),
    /// Rotation applied before sending.
    pub rotation: ImageRotation,
    /// Mirroring applied before sending.
    pub mirror: ImageMirroring,
}

/// What `mirajazz::device::DeviceQuery::new` builds from a usage page, a usage
/// id, a vendor id and a product id.
pub uninterp spec fn device_query(usage_page: u16, usage_id: u16, vid: u16, pid: u16) -> DeviceQuery;

/// Declares `mirajazz::device::DeviceQuery`, the HID query of a model.
#[verifier::external_type_specification]
#[verifier::external_body]
pub struct ExDeviceQuery(DeviceQuery);

/// Builds the HID query through `mirajazz::device::DeviceQuery::new`.
///
/// Trusted: the query is the constructor's result on these four values (the
/// constructor only stores them in private fields, so the same values give
/// the same query); nothing else about it is stated.
#[verifier::external_body]
fn new_device_query(usage_page: u16, usage_id: u16, vid: u16, pid: u16) -> (q: DeviceQuery)
    ensures
        q == device_query(usage_page, usage_id, vid, pid),
{
    DeviceQuery::new(usage_page, usage_id, vid, pid)
}

impl Kind {
    /// Resolve a model from its USB vendor/product ids, if supported.
    pub fn from_ids(vid: u16, pid: u16) -> (r: Option<Self>)
        ensures
            r == kind_of_ids(vid, pid),
    {
        if vid == AJAZZ_VID && pid == AKP03_PID {
            Some(Self::Akp03)
        } else if vid == AJAZZ_VID && pid == AKP03E_PID {
            Some(Self::Akp03E)
        } else if vid == AJAZZ_VID && pid == AKP03R_PID {
            Some(Self::Akp03R)
        } else if vid == AJAZZ_VID && pid == AKP03E_REV2_PID {
            Some(Self::Akp03Erev2)
        } else if vid == N3_VID && pid == N3_PID {
            Some(Self::N3)
        } else if vid == MIRABOX_VID && pid == N3EN_PID {
            Some(Self::N3En)
        } else if vid == SOOMFON_VID && pid == SOOMFON_SE_PID {
            Some(Self::SoomfonSe)
        } else {
            None
        }
    }

    /// The USB `(vendor id, product id)` of this model.
    pub fn ids(self) -> (r: (u16, u16))
        ensures
            r == ids_of(self),
    {
        match self {
            Self::Akp03 => (AJAZZ_VID, AKP03_PID),
            Self::Akp03E => (AJAZZ_VID, AKP03E_PID),
            Self::Akp03R => (AJAZZ_VID, AKP03R_PID),
            Self::Akp03Erev2 => (AJAZZ_VID, AKP03E_REV2_PID),
            Self::N3 => (N3_VID, N3_PID),
            Self::N3En => (MIRABOX_VID, N3EN_PID),
            Self::SoomfonSe => (SOOMFON_VID, SOOMFON_SE_PID),
        }
    }

    /// Human-readable model name. The USB stack only reports generic OEM
    /// strings, so devices are labelled here.
    pub fn model(self) -> (r: &'static str)
        ensures
            r@ == model_name(self),
    {
        match self {
            Self::Akp03 => "Ajazz AKP03",
            Self::Akp03E => "Ajazz AKP03E",
            Self::Akp03R => "Ajazz AKP03R",
            Self::Akp03Erev2 => "Ajazz AKP03E (rev. 2)",
            Self::N3 => "Mirabox N3",
            Self::N3En => "Mirabox N3EN",
            Self::SoomfonSe => "Soomfon Stream Controller SE",
        }
    }

    /// Number of physical keys.
    pub fn key_count(self) -> (r: u8)
        ensures
            r == KEY_COUNT,
    {
        KEY_COUNT
    }

    /// Number of rotary encoders / knobs.
    pub fn encoder_count(self) -> (r: u8)
        ensures
            r == ENCODER_COUNT,
    {
        ENCODER_COUNT
    }

    /// Whether the top keys are individually addressable LCD screens.
    pub fn has_key_screens(self) -> (r: bool)
        ensures
            r,
    {
        true
    }

    /// Number of keys backed by an LCD screen. These are always the first
    /// keys (row-major), so a key index is drawable iff it is less than this
    /// count.
    pub fn lcd_key_count(self) -> (r: u8)
        ensures
            r == LCD_KEY_COUNT,
    {
        LCD_KEY_COUNT
    }

    /// Pixel dimensions `(width, height)` of a single LCD key.
    pub fn key_image_size(self) -> (r: (u32, u32))
        ensures
            r == (KEY_IMAGE_DIM, KEY_IMAGE_DIM),
    {
        (KEY_IMAGE_DIM, KEY_IMAGE_DIM)
    }

    /// The framing the firmware expects for a key image: a 60x60 JPEG. Some
    /// models wire their panels rotated, so the bitmap is pre-rotated to land
    /// upright on the physical screen.
    pub fn image_format(self) -> (r: ImageFormat)
        ensures
            r.mode == ImageMode::JPEG,
            r.size == (KEY_IMAGE_DIM as usize, KEY_IMAGE_DIM as usize),
            r.rotation == (if panel_is_rotated(self) {
                ImageRotation::Rot90
            } else {
                ImageRotation::Rot0
            }),
            r.mirror == ImageMirroring::Unmirrored,
    {
        let rotation = match self {
            Self::Akp03Erev2 | Self::N3En | Self::SoomfonSe => ImageRotation::Rot90,
            Self::Akp03 | Self::Akp03E | Self::Akp03R | Self::N3 => ImageRotation::Rot0,
        };
        ImageFormat {
            mode: ImageMode::JPEG,
            size: (KEY_IMAGE_DIM as usize, KEY_IMAGE_DIM as usize),
            rotation,
            mirror: ImageMirroring::Unmirrored,
        }
    }

    /// Whether the device emits separate press *and* release reports rather
    /// than a single toggle.
    pub fn supports_both_states(self) -> (r: bool)
        ensures
            r == reports_both_states(self),
    {
        match self {
            Self::N3En | Self::Akp03Erev2 | Self::SoomfonSe => true,
            _ => false,
        }
    }

    /// Whether the device speaks the v2 framing of the OEM protocol. Every
    /// supported model does.
    pub fn is_v2(self) -> (r: bool)
        ensures
            r,
    {
        true
    }

    /// The vendor-interface query that matches this model during enumeration.
    pub fn query(self) -> (q: DeviceQuery)
        ensures
            q == device_query(USAGE_PAGE, USAGE_ID, ids_of(self).0, ids_of(self).1),
    {
        let (vid, pid) = self.ids();
        new_device_query(USAGE_PAGE, USAGE_ID, vid, pid)
    }
}

/// The HID queries that match every supported model, one per model, in the
/// order of [`ALL`].
pub fn queries() -> (r: Vec<DeviceQuery>)
    ensures
        r@.len() == ALL@.len(),
        forall|i: int|
            0 <= i < r@.len() ==> #[trigger] r@[i] == device_query(
                USAGE_PAGE,
                USAGE_ID,
                ids_of(ALL@[i]).0,
                ids_of(ALL@[i]).1,
            ),
{
    let mut out: Vec<DeviceQuery> = Vec::new();
    let mut i: usize = 0;
    while i < ALL.len()
        invariant
            i <= ALL@.len(),
            out@.len() == i,
            forall|j: int|
                0 <= j < i ==> #[trigger] out@[j] == device_query(
                    USAGE_PAGE,
                    USAGE_ID,
                    ids_of(ALL@[j]).0,
                    ids_of(ALL@[j]).1,
                ),
        decreases ALL@.len() - i,
    {
        out.push(ALL[i].query());
        i = i + 1;
    }
    out
}

/// Every model is found again from its own USB ids: `from_ids` undoes `ids`.
pub proof fn law_from_ids_round_trip(kind: Kind)
    ensures
        kind_of_ids(ids_of(kind).0, ids_of(kind).1) == Some(kind),
{
}

/// A pair of USB ids resolves to a model only if they are that model's ids,
/// so no two models share ids.
pub proof fn law_from_ids_only_own_ids(vid: u16, pid: u16, kind: Kind)
    requires
        kind_of_ids(vid, pid) == Some(kind),
    ensures
        ids_of(kind) == (vid, pid),
{
}

/// The USB ids of each model, as the vendors assign them: resolving them
/// gives the model, and the model reports them.
pub proof fn law_vendor_id_table()
    ensures
        kind_of_ids(0x0300, 0x1001) == Some(Kind::Akp03) && ids_of(Kind::Akp03) == (
            0x0300u16,
            0x1001u16,
        ),
        kind_of_ids(0x0300, 0x1002) == Some(Kind::Akp03E) && ids_of(Kind::Akp03E) == (
            0x0300u16,
            0x1002u16,
        ),
        kind_of_ids(0x0300, 0x1003) == Some(Kind::Akp03R) && ids_of(Kind::Akp03R) == (
            0x0300u16,
            0x1003u16,
        ),
        kind_of_ids(0x0300, 0x3002) == Some(Kind::Akp03Erev2) && ids_of(Kind::Akp03Erev2) == (
            0x0300u16,
            0x3002u16,
        ),
        kind_of_ids(0x6602, 0x1002) == Some(Kind::N3) && ids_of(Kind::N3) == (
            0x6602u16,
            0x1002u16,
        ),
        kind_of_ids(0x6603, 0x1003) == Some(Kind::N3En) && ids_of(Kind::N3En) == (
            0x6603u16,
            0x1003u16,
        ),
        kind_of_ids(0x1500, 0x3001) == Some(Kind::SoomfonSe) && ids_of(Kind::SoomfonSe) == (
            0x1500u16,
            0x3001u16,
        ),
{
}

/// Exactly the AKP03E rev. 2, the N3EN and the Soomfon SE have panels wired
/// a quarter turn off (so their key images are pre-rotated by 90 degrees)
/// and report key presses and releases separately; every other model takes
/// upright images and reports a single toggle.
pub proof fn law_rotated_two_state_models(kind: Kind)
    ensures
        panel_is_rotated(kind) <==> (kind is Akp03Erev2 || kind is N3En || kind is SoomfonSe),
        reports_both_states(kind) <==> (kind is Akp03Erev2 || kind is N3En || kind is SoomfonSe),
        (kind is Akp03 || kind is Akp03E || kind is Akp03R || kind is N3) ==> !panel_is_rotated(
            kind,
        ) && !reports_both_states(kind),
{
}

} // verus!
