//! Device control enumeration and access.

use vstd::prelude::*;
use vstd::string::StringSliceAdditionalSpecFns;

use crate::info::{byte_array_to_str, padded_text};
use crate::raw;

pub use crate::shared::{ControlFlags, CtrlType};

verus! {

/// Class of a device control.
#[derive(Clone, Copy, PartialEq, Eq, Structural, Debug)]
pub struct CtrlClass {
    raw: u32,
}

impl View for CtrlClass {
    type V = u32;

    closed spec fn view(&self) -> u32 {
        self.raw
    }
}

impl CtrlClass {
    pub const USER: u32 = 0x980000;
    pub const CODEC: u32 = 0x990000;
    pub const CAMERA: u32 = 0x9a0000;
    pub const FM_TX: u32 = 0x9b0000;
    pub const FLASH: u32 = 0x9c0000;
    pub const JPEG: u32 = 0x9d0000;
    pub const IMAGE_SOURCE: u32 = 0x9e0000;
    pub const IMAGE_PROC: u32 = 0x9f0000;
    pub const DV: u32 = 0xa00000;
    pub const FM_RX: u32 = 0xa10000;
    pub const RF_TUNER: u32 = 0xa20000;
    pub const DETECT: u32 = 0xa30000;
    pub const CODEC_STATELESS: u32 = 0xa40000;

    /// The value with the kernel's code `raw`.
    pub fn from_raw(raw: u32) -> (r: Self)
        ensures
            r@ == raw,
    {
        CtrlClass { raw }
    }

    /// Returns the kernel's code for this value.
    pub fn raw(&self) -> (r: u32)
        ensures
            r == self@,
    {
        self.raw
    }
}

/// Identifies a device control.
///
/// The associated constants are the identifiers of standard controls; drivers can add their own.
#[derive(Clone, Copy, PartialEq, Eq, Structural, Debug)]
pub struct Cid {
    raw: u32,
}

impl View for Cid {
    type V = u32;

    closed spec fn view(&self) -> u32 {
        self.raw
    }
}

impl Cid {
    pub const BRIGHTNESS: u32 = 0x980900;
    pub const BASE: u32 = 0x980900;
    pub const USER_BASE: u32 = 0x980900;
    pub const CONTRAST: u32 = 0x980901;
    pub const SATURATION: u32 = 0x980902;
    pub const HUE: u32 = 0x980903;
    pub const AUDIO_VOLUME: u32 = 0x980905;
    pub const AUDIO_BALANCE: u32 = 0x980906;
    pub const AUDIO_BASS: u32 = 0x980907;
    pub const AUDIO_TREBLE: u32 = 0x980908;
    pub const AUDIO_MUTE: u32 = 0x980909;
    pub const AUDIO_LOUDNESS: u32 = 0x98090a;
    pub const AUDIO_LEVEL: u32 = 0x98090b;
    pub const AUTO_WHITE_BALANCE: u32 = 0x98090c;
    pub const DO_WHITE_BALANCE: u32 = 0x98090d;
    pub const RED_BALANCE: u32 = 0x98090e;
    pub const BLUE_BALANCE: u32 = 0x98090f;
    pub const GAMMA: u32 = 0x980910;
    pub const WHITENESS: u32 = 0x980910;
    pub const EXPOSURE: u32 = 0x980911;
    pub const AUTOGAIN: u32 = 0x980912;
    pub const GAIN: u32 = 0x980913;
    pub const HFLIP: u32 = 0x980914;
    pub const VFLIP: u32 = 0x980915;
    pub const POWER_LINE_FREQUENCY: u32 = 0x980918;
    pub const HUE_AUTO: u32 = 0x980919;
    pub const WHITE_BALANCE_TEMPERATURE: u32 = 0x98091a;
    pub const SHARPNESS: u32 = 0x98091b;
    pub const BACKLIGHT_COMPENSATION: u32 = 0x98091c;
    pub const CHROMA_AGC: u32 = 0x98091d;
    pub const COLOR_KILLER: u32 = 0x98091e;
    pub const COLORFX: u32 = 0x98091f;
    pub const AUTOBRIGHTNESS: u32 = 0x980920;
    pub const BAND_STOP_FILTER: u32 = 0x980921;
    pub const ROTATE: u32 = 0x980922;
    pub const BG_COLOR: u32 = 0x980923;
    pub const CHROMA_GAIN: u32 = 0x980924;
    pub const ILLUMINATORS_1: u32 = 0x980925;
    pub const ILLUMINATORS_2: u32 = 0x980926;
    pub const MIN_BUFFERS_FOR_CAPTURE: u32 = 0x980927;
    pub const MIN_BUFFERS_FOR_OUTPUT: u32 = 0x980928;
    pub const ALPHA_COMPONENT: u32 = 0x980929;
    pub const COLORFX_CBCR: u32 = 0x98092a;
    pub const LASTP1: u32 = 0x98092b;
    pub const CAMERA_CLASS_BASE: u32 = 0x9a0900;
    pub const CAMERA_CLASS: u32 = 0x9a0001;
    pub const EXPOSURE_AUTO: u32 = 0x9a0901;
    pub const EXPOSURE_ABSOLUTE: u32 = 0x9a0902;
    pub const EXPOSURE_AUTO_PRIORITY: u32 = 0x9a0903;
    pub const PAN_RELATIVE: u32 = 0x9a0904;
    pub const TILT_RELATIVE: u32 = 0x9a0905;
    pub const PAN_RESET: u32 = 0x9a0906;
    pub const TILT_RESET: u32 = 0x9a0907;
    pub const PAN_ABSOLUTE: u32 = 0x9a0908;
    pub const TILT_ABSOLUTE: u32 = 0x9a0909;
    pub const FOCUS_ABSOLUTE: u32 = 0x9a090a;
    pub const FOCUS_RELATIVE: u32 = 0x9a090b;
    pub const FOCUS_AUTO: u32 = 0x9a090c;
    pub const ZOOM_ABSOLUTE: u32 = 0x9a090d;
    pub const ZOOM_RELATIVE: u32 = 0x9a090e;
    pub const ZOOM_CONTINUOUS: u32 = 0x9a090f;
    pub const PRIVACY: u32 = 0x9a0910;
    pub const IRIS_ABSOLUTE: u32 = 0x9a0911;
    pub const IRIS_RELATIVE: u32 = 0x9a0912;
    pub const AUTO_EXPOSURE_BIAS: u32 = 0x9a0913;
    pub const AUTO_N_PRESET_WHITE_BALANCE: u32 = 0x9a0914;
    pub const WIDE_DYNAMIC_RANGE: u32 = 0x9a0915;
    pub const IMAGE_STABILIZATION: u32 = 0x9a0916;
    pub const ISO_SENSITIVITY: u32 = 0x9a0917;
    pub const ISO_SENSITIVITY_AUTO: u32 = 0x9a0918;
    pub const EXPOSURE_METERING: u32 = 0x9a0919;
    pub const SCENE_MODE: u32 = 0x9a091a;
    pub const CAMERA_3A_LOCK: u32 = 0x9a091b;
    pub const AUTO_FOCUS_START: u32 = 0x9a091c;
    pub const AUTO_FOCUS_STOP: u32 = 0x9a091d;
    pub const AUTO_FOCUS_STATUS: u32 = 0x9a091e;
    pub const AUTO_FOCUS_RANGE: u32 = 0x9a091f;
    pub const PAN_SPEED: u32 = 0x9a0920;
    pub const TILT_SPEED: u32 = 0x9a0921;
    pub const CAMERA_ORIENTATION: u32 = 0x9a0922;
    pub const CAMERA_SENSOR_ROTATION: u32 = 0x9a0923;

    /// The value with the kernel's code `raw`.
    pub fn from_raw(raw: u32) -> (r: Self)
        ensures
            r@ == raw,
    {
        Cid { raw }
    }

    /// Returns the kernel's code for this value.
    pub fn raw(&self) -> (r: u32)
        ensures
            r == self@,
    {
        self.raw
    }
}

/// Values of the power line frequency control.
#[derive(Clone, Copy, PartialEq, Eq, Structural, Debug)]
pub struct PowerLineFrequency {
    raw: u32,
}

impl View for PowerLineFrequency {
    type V = u32;

    closed spec fn view(&self) -> u32 {
        self.raw
    }
}

impl PowerLineFrequency {
    pub const DISABLED: u32 = 0x0;
    pub const FREQ_50HZ: u32 = 0x1;
    pub const FREQ_60HZ: u32 = 0x2;
    pub const AUTO: u32 = 0x3;

    /// The value with the kernel's code `raw`.
    pub fn from_raw(raw: u32) -> (r: Self)
        ensures
            r@ == raw,
    {
        PowerLineFrequency { raw }
    }

    /// Returns the kernel's code for this value.
    pub fn raw(&self) -> (r: u32)
        ensures
            r == self@,
    {
        self.raw
    }
}

/// Values of the color effects control.
#[derive(Clone, Copy, PartialEq, Eq, Structural, Debug)]
pub struct ColorFx {
    raw: u32,
}

impl View for ColorFx {
    type V = u32;

    closed spec fn view(&self) -> u32 {
        self.raw
    }
}

impl ColorFx {
    pub const NONE: u32 = 0x0;
    pub const BW: u32 = 0x1;
    pub const SEPIA: u32 = 0x2;
    pub const NEGATIVE: u32 = 0x3;
    pub const EMBOSS: u32 = 0x4;
    pub const SKETCH: u32 = 0x5;
    pub const SKY_BLUE: u32 = 0x6;
    pub const GRASS_GREEN: u32 = 0x7;
    pub const SKIN_WHITEN: u32 = 0x8;
    pub const VIVID: u32 = 0x9;
    pub const AQUA: u32 = 0xa;
    pub const ART_FREEZE: u32 = 0xb;
    pub const SILHOUETTE: u32 = 0xc;
    pub const SOLARIZATION: u32 = 0xd;
    pub const ANTIQUE: u32 = 0xe;
    pub const SET_CBCR: u32 = 0xf;

    /// The value with the kernel's code `raw`.
    pub fn from_raw(raw: u32) -> (r: Self)
        ensures
            r@ == raw,
    {
        ColorFx { raw }
    }

    /// Returns the kernel's code for this value.
    pub fn raw(&self) -> (r: u32)
        ensures
            r == self@,
    {
        self.raw
    }
}

/// Describes a device control.
pub struct ControlDesc(pub raw::QueryCtrl);

impl ControlDesc {
    /// The control's identifier.
    pub fn id(&self) -> (r: Cid)
        ensures
            r@ == self.0.id,
    {
        Cid::from_raw(self.0.id)
    }

    /// The user-facing name of this control; `None` when it is not NUL-terminated UTF-8.
    pub fn name(&self) -> (r: Option<&str>)
        ensures
            r is Some <==> padded_text(self.0.name@) is Some,
            r matches Some(s) ==> padded_text(self.0.name@) == Some(s.spec_bytes()),
    {
        byte_array_to_str(self.0.name.as_slice())
    }

    /// Returns the type of value this control expects.
    pub fn control_type(&self) -> (r: CtrlType)
        ensures
            r == self.0.type_,
    {
        self.0.type_
    }

    pub fn minimum(&self) -> (r: i32)
        ensures
            r == self.0.minimum,
    {
        self.0.minimum
    }

    pub fn maximum(&self) -> (r: i32)
        ensures
            r == self.0.maximum,
    {
        self.0.maximum
    }

    pub fn step(&self) -> (r: i32)
        ensures
            r == self.0.step,
    {
        self.0.step
    }

    pub fn default_value(&self) -> (r: i32)
        ensures
            r == self.0.default_value,
    {
        self.0.default_value
    }

    pub fn flags(&self) -> (r: ControlFlags)
        ensures
            r == self.0.flags,
    {
        self.0.flags
    }
}

/// A possible choice for a menu control.
pub struct TextMenuItem {
    pub raw: raw::QueryMenu,
}

impl TextMenuItem {
    /// The item's index. Setting the menu control to this value will choose this item.
    pub fn index(&self) -> (r: u32)
        ensures
            r == self.raw.index,
    {
        self.raw.index
    }

    /// The human-readable name of this menu entry; `None` when it is not NUL-terminated UTF-8.
    pub fn name(&self) -> (r: Option<&str>)
        ensures
            r is Some <==> padded_text(self.raw.name@) is Some,
            r matches Some(s) ==> padded_text(self.raw.name@) == Some(s.spec_bytes()),
    {
        byte_array_to_str(self.raw.name.as_slice())
    }
}

} // verus!
