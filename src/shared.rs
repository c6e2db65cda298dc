//! Kernel-compatible enumerations and flag sets.
//!
//! Each type wraps the integer the kernel uses; the associated constants are the raw values
//! (or bit masks) that the kernel defines for it.

use vstd::prelude::*;

verus! {
/// State flags of a streaming buffer, as reported by the driver.
#[derive(Clone, Copy, PartialEq, Eq, Structural, Debug)]
pub struct BufFlag {
    bits: u32,
}

impl View for BufFlag {
    type V = u32;

    closed spec fn view(&self) -> u32 {
        self.bits
    }
}

impl BufFlag {
    pub const MAPPED: u32 = 0x1;
    pub const QUEUED: u32 = 0x2;
    pub const DONE: u32 = 0x4;
    pub const KEYFRAME: u32 = 0x8;
    pub const PFRAME: u32 = 0x10;
    pub const BFRAME: u32 = 0x20;
    pub const ERROR: u32 = 0x40;
    pub const IN_REQUEST: u32 = 0x80;
    pub const TIMECODE: u32 = 0x100;
    pub const M2M_HOLD_CAPTURE_BUF: u32 = 0x200;
    pub const PREPARED: u32 = 0x400;
    pub const NO_CACHE_INVALIDATE: u32 = 0x800;
    pub const NO_CACHE_CLEAN: u32 = 0x1000;
    pub const TIMESTAMP_MASK: u32 = 0xe000;
    pub const TIMESTAMP_UNKNOWN: u32 = 0x0;
    pub const TIMESTAMP_MONOTONIC: u32 = 0x2000;
    pub const TIMESTAMP_COPY: u32 = 0x4000;
    pub const TIMESTAMP_SRC_MASK: u32 = 0x70000;
    pub const TIMESTAMP_SRC_EOF: u32 = 0x0;
    pub const TIMESTAMP_SRC_SOE: u32 = 0x10000;
    pub const LAST: u32 = 0x100000;
    pub const REQUEST_FD: u32 = 0x800000;

    /// The flag set holding exactly the bits of `bits`.
    pub fn from_bits(bits: u32) -> (r: Self)
        ensures
            r@ == bits,
    {
        BufFlag { bits }
    }

    /// The empty flag set.
    pub fn empty() -> (r: Self)
        ensures
            r@ == 0,
    {
        BufFlag { bits: 0 }
    }

    /// Returns the raw bits of this flag set.
    pub fn bits(&self) -> (r: u32)
        ensures
            r == self@,
    {
        self.bits
    }

    /// Whether every bit of `mask` is set.
    pub fn contains(&self, mask: u32) -> (r: bool)
        ensures
            r == (self@ & mask == mask),
    {
        self.bits & mask == mask
    }

    /// Whether no bit is set.
    pub fn is_empty(&self) -> (r: bool)
        ensures
            r == (self@ == 0),
    {
        self.bits == 0
    }
}

/// Flags describing the state of a device control.
#[derive(Clone, Copy, PartialEq, Eq, Structural, Debug)]
pub struct ControlFlags {
    bits: u32,
}

impl View for ControlFlags {
    type V = u32;

    closed spec fn view(&self) -> u32 {
        self.bits
    }
}

impl ControlFlags {
    pub const DISABLED: u32 = 0x1;
    pub const GRABBED: u32 = 0x2;
    pub const READ_ONLY: u32 = 0x4;
    pub const UPDATE: u32 = 0x8;
    pub const INACTIVE: u32 = 0x10;
    pub const SLIDER: u32 = 0x20;
    pub const WRITE_ONLY: u32 = 0x40;
    pub const VOLATILE: u32 = 0x80;
    pub const HAS_PAYLOAD: u32 = 0x100;
    pub const EXECUTE_ON_WRITE: u32 = 0x200;
    pub const MODIFY_LAYOUT: u32 = 0x400;

    /// The flag set holding exactly the bits of `bits`.
    pub fn from_bits(bits: u32) -> (r: Self)
        ensures
            r@ == bits,
    {
        ControlFlags { bits }
    }

    /// The empty flag set.
    pub fn empty() -> (r: Self)
        ensures
            r@ == 0,
    {
        ControlFlags { bits: 0 }
    }

    /// Returns the raw bits of this flag set.
    pub fn bits(&self) -> (r: u32)
        ensures
            r == self@,
    {
        self.bits
    }

    /// Whether every bit of `mask` is set.
    pub fn contains(&self, mask: u32) -> (r: bool)
        ensures
            r == (self@ & mask == mask),
    {
        self.bits & mask == mask
    }

    /// Whether no bit is set.
    pub fn is_empty(&self) -> (r: bool)
        ensures
            r == (self@ == 0),
    {
        self.bits == 0
    }
}

/// Flags of an enumerated image format.
#[derive(Clone, Copy, PartialEq, Eq, Structural, Debug)]
pub struct FormatFlags {
    bits: u32,
}

impl View for FormatFlags {
    type V = u32;

    closed spec fn view(&self) -> u32 {
        self.bits
    }
}

impl FormatFlags {
    pub const COMPRESSED: u32 = 0x1;
    pub const EMULATED: u32 = 0x2;
    pub const CONTINUOUS_BYTESTREAM: u32 = 0x4;
    pub const DYN_RESOLUTION: u32 = 0x8;
    pub const ENC_CAP_FRAME_INTERVAL: u32 = 0x10;
    pub const CSC_COLORSPACE: u32 = 0x20;
    pub const CSC_XFER_FUNC: u32 = 0x40;
    pub const CSC_YCBCR_ENC: u32 = 0x80;
    pub const CSC_HSV_ENC: u32 = 0x80;
    pub const CSC_QUANTIZATION: u32 = 0x100;

    /// The flag set holding exactly the bits of `bits`.
    pub fn from_bits(bits: u32) -> (r: Self)
        ensures
            r@ == bits,
    {
        FormatFlags { bits }
    }

    /// The empty flag set.
    pub fn empty() -> (r: Self)
        ensures
            r@ == 0,
    {
        FormatFlags { bits: 0 }
    }

    /// Returns the raw bits of this flag set.
    pub fn bits(&self) -> (r: u32)
        ensures
            r == self@,
    {
        self.bits
    }

    /// Whether every bit of `mask` is set.
    pub fn contains(&self, mask: u32) -> (r: bool)
        ensures
            r == (self@ & mask == mask),
    {
        self.bits & mask == mask
    }

    /// Whether no bit is set.
    pub fn is_empty(&self) -> (r: bool)
        ensures
            r == (self@ == 0),
    {
        self.bits == 0
    }
}

/// Analog video standards.
#[derive(Clone, Copy, PartialEq, Eq, Structural, Debug)]
pub struct AnalogStd {
    bits: u64,
}

impl View for AnalogStd {
    type V = u64;

    closed spec fn view(&self) -> u64 {
        self.bits
    }
}

impl AnalogStd {
    pub const PAL_B: u64 = 0x1;
    pub const PAL_B1: u64 = 0x2;
    pub const PAL_G: u64 = 0x4;
    pub const PAL_H: u64 = 0x8;
    pub const PAL_I: u64 = 0x10;
    pub const PAL_D: u64 = 0x20;
    pub const PAL_D1: u64 = 0x40;
    pub const PAL_K: u64 = 0x80;
    pub const PAL_M: u64 = 0x100;
    pub const PAL_N: u64 = 0x200;
    pub const PAL_NC: u64 = 0x400;
    pub const PAL_60: u64 = 0x800;
    pub const NTSC_M: u64 = 0x1000;
    pub const NTSC_M_JP: u64 = 0x2000;
    pub const NTSC_443: u64 = 0x4000;
    pub const NTSC_M_KR: u64 = 0x8000;
    pub const SECAM_B: u64 = 0x10000;
    pub const SECAM_D: u64 = 0x20000;
    pub const SECAM_G: u64 = 0x40000;
    pub const SECAM_H: u64 = 0x80000;
    pub const SECAM_K: u64 = 0x100000;
    pub const SECAM_K1: u64 = 0x200000;
    pub const SECAM_L: u64 = 0x400000;
    pub const SECAM_LC: u64 = 0x800000;
    pub const ATSC_8_VSB: u64 = 0x1000000;
    pub const ATSC_16_VSB: u64 = 0x2000000;

    /// The flag set holding exactly the bits of `bits`.
    pub fn from_bits(bits: u64) -> (r: Self)
        ensures
            r@ == bits,
    {
        AnalogStd { bits }
    }

    /// The empty flag set.
    pub fn empty() -> (r: Self)
        ensures
            r@ == 0,
    {
        AnalogStd { bits: 0 }
    }

    /// Returns the raw bits of this flag set.
    pub fn bits(&self) -> (r: u64)
        ensures
            r == self@,
    {
        self.bits
    }

    /// Whether every bit of `mask` is set.
    pub fn contains(&self, mask: u64) -> (r: bool)
        ensures
            r == (self@ & mask == mask),
    {
        self.bits & mask == mask
    }

    /// Whether no bit is set.
    pub fn is_empty(&self) -> (r: bool)
        ensures
            r == (self@ == 0),
    {
        self.bits == 0
    }
}

/// Capabilities of a device output.
#[derive(Clone, Copy, PartialEq, Eq, Structural, Debug)]
pub struct OutputCapabilities {
    bits: u32,
}

impl View for OutputCapabilities {
    type V = u32;

    closed spec fn view(&self) -> u32 {
        self.bits
    }
}

impl OutputCapabilities {
    pub const DV_TIMINGS: u32 = 0x2;
    pub const CUSTOM_TIMINGS: u32 = 0x2;
    pub const STD: u32 = 0x4;
    pub const NATIVE_SIZE: u32 = 0x8;

    /// The flag set holding exactly the bits of `bits`.
    pub fn from_bits(bits: u32) -> (r: Self)
        ensures
            r@ == bits,
    {
        OutputCapabilities { bits }
    }

    /// The empty flag set.
    pub fn empty() -> (r: Self)
        ensures
            r@ == 0,
    {
        OutputCapabilities { bits: 0 }
    }

    /// Returns the raw bits of this flag set.
    pub fn bits(&self) -> (r: u32)
        ensures
            r == self@,
    {
        self.bits
    }

    /// Whether every bit of `mask` is set.
    pub fn contains(&self, mask: u32) -> (r: bool)
        ensures
            r == (self@ & mask == mask),
    {
        self.bits & mask == mask
    }

    /// Whether no bit is set.
    pub fn is_empty(&self) -> (r: bool)
        ensures
            r == (self@ == 0),
    {
        self.bits == 0
    }
}

/// Capabilities of a device input.
#[derive(Clone, Copy, PartialEq, Eq, Structural, Debug)]
pub struct InputCapabilities {
    bits: u32,
}

impl View for InputCapabilities {
    type V = u32;

    closed spec fn view(&self) -> u32 {
        self.bits
    }
}

impl InputCapabilities {
    pub const DV_TIMINGS: u32 = 0x2;
    pub const CUSTOM_TIMINGS: u32 = 0x2;
    pub const STD: u32 = 0x4;
    pub const NATIVE_SIZE: u32 = 0x8;

    /// The flag set holding exactly the bits of `bits`.
    pub fn from_bits(bits: u32) -> (r: Self)
        ensures
            r@ == bits,
    {
        InputCapabilities { bits }
    }

    /// The empty flag set.
    pub fn empty() -> (r: Self)
        ensures
            r@ == 0,
    {
        InputCapabilities { bits: 0 }
    }

    /// Returns the raw bits of this flag set.
    pub fn bits(&self) -> (r: u32)
        ensures
            r == self@,
    {
        self.bits
    }

    /// Whether every bit of `mask` is set.
    pub fn contains(&self, mask: u32) -> (r: bool)
        ensures
            r == (self@ & mask == mask),
    {
        self.bits & mask == mask
    }

    /// Whether no bit is set.
    pub fn is_empty(&self) -> (r: bool)
        ensures
            r == (self@ == 0),
    {
        self.bits == 0
    }
}

/// Device capabilities.
#[derive(Clone, Copy, PartialEq, Eq, Structural, Debug)]
pub struct CapabilityFlags {
    bits: u32,
}

impl View for CapabilityFlags {
    type V = u32;

    closed spec fn view(&self) -> u32 {
        self.bits
    }
}

impl CapabilityFlags {
    pub const VIDEO_CAPTURE: u32 = 0x1;
    pub const VIDEO_OUTPUT: u32 = 0x2;
    pub const VIDEO_OVERLAY: u32 = 0x4;
    pub const VBI_CAPTURE: u32 = 0x10;
    pub const VBI_OUTPUT: u32 = 0x20;
    pub const SLICED_VBI_CAPTURE: u32 = 0x40;
    pub const SLICED_VBI_OUTPUT: u32 = 0x80;
    pub const RDS_CAPTURE: u32 = 0x100;
    pub const VIDEO_OUTPUT_OVERLAY: u32 = 0x200;
    pub const HW_FREQ_SEEK: u32 = 0x400;
    pub const RDS_OUTPUT: u32 = 0x800;
    pub const VIDEO_CAPTURE_MPLANE: u32 = 0x1000;
    pub const VIDEO_OUTPUT_MPLANE: u32 = 0x2000;
    pub const VIDEO_M2M_MPLANE: u32 = 0x4000;
    pub const VIDEO_M2M: u32 = 0x8000;
    pub const TUNER: u32 = 0x10000;
    pub const AUDIO: u32 = 0x20000;
    pub const RADIO: u32 = 0x40000;
    pub const MODULATOR: u32 = 0x80000;
    pub const SDR_CAPTURE: u32 = 0x100000;
    pub const EXT_PIX_FORMAT: u32 = 0x200000;
    pub const SDR_OUTPUT: u32 = 0x400000;
    pub const META_CAPTURE: u32 = 0x800000;
    pub const READWRITE: u32 = 0x1000000;
    pub const ASYNCIO: u32 = 0x2000000;
    pub const STREAMING: u32 = 0x4000000;
    pub const META_OUTPUT: u32 = 0x8000000;
    pub const TOUCH: u32 = 0x10000000;
    pub const IO_MC: u32 = 0x20000000;
    pub const DEVICE_CAPS: u32 = 0x80000000;

    /// The flag set holding exactly the bits of `bits`.
    pub fn from_bits(bits: u32) -> (r: Self)
        ensures
            r@ == bits,
    {
        CapabilityFlags { bits }
    }

    /// The empty flag set.
    pub fn empty() -> (r: Self)
        ensures
            r@ == 0,
    {
        CapabilityFlags { bits: 0 }
    }

    /// Returns the raw bits of this flag set.
    pub fn bits(&self) -> (r: u32)
        ensures
            r == self@,
    {
        self.bits
    }

    /// Whether every bit of `mask` is set.
    pub fn contains(&self, mask: u32) -> (r: bool)
        ensures
            r == (self@ & mask == mask),
    {
        self.bits & mask == mask
    }

    /// Whether no bit is set.
    pub fn is_empty(&self) -> (r: bool)
        ensures
            r == (self@ == 0),
    {
        self.bits == 0
    }
}

/// Current status of a device input.
#[derive(Clone, Copy, PartialEq, Eq, Structural, Debug)]
pub struct InputStatus {
    bits: u32,
}

impl View for InputStatus {
    type V = u32;

    closed spec fn view(&self) -> u32 {
        self.bits
    }
}

impl InputStatus {
    pub const NO_POWER: u32 = 0x1;
    pub const NO_SIGNAL: u32 = 0x2;
    pub const NO_COLOR: u32 = 0x4;
    pub const HFLIP: u32 = 0x10;
    pub const VFLIP: u32 = 0x20;
    pub const NO_H_LOCK: u32 = 0x100;
    pub const COLOR_KILL: u32 = 0x200;
    pub const NO_V_LOCK: u32 = 0x400;
    pub const NO_STD_LOCK: u32 = 0x800;
    pub const NO_SYNC: u32 = 0x10000;
    pub const NO_EQU: u32 = 0x20000;
    pub const NO_CARRIER: u32 = 0x40000;
    pub const MACROVISION: u32 = 0x1000000;
    pub const NO_ACCESS: u32 = 0x2000000;
    pub const VTR: u32 = 0x4000000;

    /// The flag set holding exactly the bits of `bits`.
    pub fn from_bits(bits: u32) -> (r: Self)
        ensures
            r@ == bits,
    {
        InputStatus { bits }
    }

    /// The empty flag set.
    pub fn empty() -> (r: Self)
        ensures
            r@ == 0,
    {
        InputStatus { bits: 0 }
    }

    /// Returns the raw bits of this flag set.
    pub fn bits(&self) -> (r: u32)
        ensures
            r == self@,
    {
        self.bits
    }

    /// Whether every bit of `mask` is set.
    pub fn contains(&self, mask: u32) -> (r: bool)
        ensures
            r == (self@ & mask == mask),
    {
        self.bits & mask == mask
    }

    /// Whether no bit is set.
    pub fn is_empty(&self) -> (r: bool)
        ensures
            r == (self@ == 0),
    {
        self.bits == 0
    }
}

/// Flags of a single-plane pixel format.
#[derive(Clone, Copy, PartialEq, Eq, Structural, Debug)]
pub struct PixFmtFlag {
    bits: u32,
}

impl View for PixFmtFlag {
    type V = u32;

    closed spec fn view(&self) -> u32 {
        self.bits
    }
}

impl PixFmtFlag {
    pub const PREMUL_ALPHA: u32 = 0x1;
    pub const SET_CSC: u32 = 0x2;

    /// The flag set holding exactly the bits of `bits`.
    pub fn from_bits(bits: u32) -> (r: Self)
        ensures
            r@ == bits,
    {
        PixFmtFlag { bits }
    }

    /// The empty flag set.
    pub fn empty() -> (r: Self)
        ensures
            r@ == 0,
    {
        PixFmtFlag { bits: 0 }
    }

    /// Returns the raw bits of this flag set.
    pub fn bits(&self) -> (r: u32)
        ensures
            r == self@,
    {
        self.bits
    }

    /// Whether every bit of `mask` is set.
    pub fn contains(&self, mask: u32) -> (r: bool)
        ensures
            r == (self@ & mask == mask),
    {
        self.bits & mask == mask
    }

    /// Whether no bit is set.
    pub fn is_empty(&self) -> (r: bool)
        ensures
            r == (self@ == 0),
    {
        self.bits == 0
    }
}

/// Capabilities of a buffer queue.
#[derive(Clone, Copy, PartialEq, Eq, Structural, Debug)]
pub struct BufCap {
    bits: u32,
}

impl View for BufCap {
    type V = u32;

    closed spec fn view(&self) -> u32 {
        self.bits
    }
}

impl BufCap {
    pub const SUPPORTS_MMAP: u32 = 0x1;
    pub const SUPPORTS_USERPTR: u32 = 0x2;
    pub const SUPPORTS_DMABUF: u32 = 0x4;
    pub const SUPPORTS_REQUESTS: u32 = 0x8;
    pub const SUPPORTS_ORPHANED_BUFS: u32 = 0x10;
    pub const SUPPORTS_M2M_HOLD_CAPTURE_BUF: u32 = 0x20;
    pub const SUPPORTS_MMAP_CACHE_HINTS: u32 = 0x40;

    /// The flag set holding exactly the bits of `bits`.
    pub fn from_bits(bits: u32) -> (r: Self)
        ensures
            r@ == bits,
    {
        BufCap { bits }
    }

    /// The empty flag set.
    pub fn empty() -> (r: Self)
        ensures
            r@ == 0,
    {
        BufCap { bits: 0 }
    }

    /// Returns the raw bits of this flag set.
    pub fn bits(&self) -> (r: u32)
        ensures
            r == self@,
    {
        self.bits
    }

    /// Whether every bit of `mask` is set.
    pub fn contains(&self, mask: u32) -> (r: bool)
        ensures
            r == (self@ & mask == mask),
    {
        self.bits & mask == mask
    }

    /// Whether no bit is set.
    pub fn is_empty(&self) -> (r: bool)
        ensures
            r == (self@ == 0),
    {
        self.bits == 0
    }
}

/// Flags of a buffer timecode.
#[derive(Clone, Copy, PartialEq, Eq, Structural, Debug)]
pub struct TimecodeFlags {
    bits: u32,
}

impl View for TimecodeFlags {
    type V = u32;

    closed spec fn view(&self) -> u32 {
        self.bits
    }
}

impl TimecodeFlags {
    pub const DROPFRAME: u32 = 0x1;
    pub const COLORFRAME: u32 = 0x2;
    pub const USERBITS_MASK: u32 = 0xc;
    pub const USERBITS_USERDEFINED: u32 = 0x0;
    pub const USERBITS_8BITCHARS: u32 = 0x8;

    /// The flag set holding exactly the bits of `bits`.
    pub fn from_bits(bits: u32) -> (r: Self)
        ensures
            r@ == bits,
    {
        TimecodeFlags { bits }
    }

    /// The empty flag set.
    pub fn empty() -> (r: Self)
        ensures
            r@ == 0,
    {
        TimecodeFlags { bits: 0 }
    }

    /// Returns the raw bits of this flag set.
    pub fn bits(&self) -> (r: u32)
        ensures
            r == self@,
    {
        self.bits
    }

    /// Whether every bit of `mask` is set.
    pub fn contains(&self, mask: u32) -> (r: bool)
        ensures
            r == (self@ & mask == mask),
    {
        self.bits & mask == mask
    }

    /// Whether no bit is set.
    pub fn is_empty(&self) -> (r: bool)
        ensures
            r == (self@ == 0),
    {
        self.bits == 0
    }
}

/// Streaming parameter capabilities.
#[derive(Clone, Copy, PartialEq, Eq, Structural, Debug)]
pub struct StreamParamCaps {
    bits: u32,
}

impl View for StreamParamCaps {
    type V = u32;

    closed spec fn view(&self) -> u32 {
        self.bits
    }
}

impl StreamParamCaps {
    pub const TIMEPERFRAME: u32 = 0x1000;

    /// The flag set holding exactly the bits of `bits`.
    pub fn from_bits(bits: u32) -> (r: Self)
        ensures
            r@ == bits,
    {
        StreamParamCaps { bits }
    }

    /// The empty flag set.
    pub fn empty() -> (r: Self)
        ensures
            r@ == 0,
    {
        StreamParamCaps { bits: 0 }
    }

    /// Returns the raw bits of this flag set.
    pub fn bits(&self) -> (r: u32)
        ensures
            r == self@,
    {
        self.bits
    }

    /// Whether every bit of `mask` is set.
    pub fn contains(&self, mask: u32) -> (r: bool)
        ensures
            r == (self@ & mask == mask),
    {
        self.bits & mask == mask
    }

    /// Whether no bit is set.
    pub fn is_empty(&self) -> (r: bool)
        ensures
            r == (self@ == 0),
    {
        self.bits == 0
    }
}

/// Capture parameter flags.
#[derive(Clone, Copy, PartialEq, Eq, Structural, Debug)]
pub struct CaptureParamFlags {
    bits: u32,
}

impl View for CaptureParamFlags {
    type V = u32;

    closed spec fn view(&self) -> u32 {
        self.bits
    }
}

impl CaptureParamFlags {
    pub const HIGHQUALITY: u32 = 0x1;

    /// The flag set holding exactly the bits of `bits`.
    pub fn from_bits(bits: u32) -> (r: Self)
        ensures
            r@ == bits,
    {
        CaptureParamFlags { bits }
    }

    /// The empty flag set.
    pub fn empty() -> (r: Self)
        ensures
            r@ == 0,
    {
        CaptureParamFlags { bits: 0 }
    }

    /// Returns the raw bits of this flag set.
    pub fn bits(&self) -> (r: u32)
        ensures
            r == self@,
    {
        self.bits
    }

    /// Whether every bit of `mask` is set.
    pub fn contains(&self, mask: u32) -> (r: bool)
        ensures
            r == (self@ & mask == mask),
    {
        self.bits & mask == mask
    }

    /// Whether no bit is set.
    pub fn is_empty(&self) -> (r: bool)
        ensures
            r == (self@ == 0),
    {
        self.bits == 0
    }
}

/// Kind of tuner.
#[derive(Clone, Copy, PartialEq, Eq, Structural, Debug)]
pub struct TunerType {
    raw: u32,
}

impl View for TunerType {
    type V = u32;

    closed spec fn view(&self) -> u32 {
        self.raw
    }
}

impl TunerType {
    pub const RADIO: u32 = 0x1;
    pub const ANALOG_TV: u32 = 0x2;
    pub const DIGITAL_TV: u32 = 0x3;
    pub const SDR: u32 = 0x4;
    pub const RF: u32 = 0x5;

    /// The value with the kernel's code `raw`.
    pub fn from_raw(raw: u32) -> (r: Self)
        ensures
            r@ == raw,
    {
        TunerType { raw }
    }

    /// Returns the kernel's code for this value.
    pub fn raw(&self) -> (r: u32)
        ensures
            r == self@,
    {
        self.raw
    }
}

/// What kind of device an output is.
#[derive(Clone, Copy, PartialEq, Eq, Structural, Debug)]
pub struct OutputType {
    raw: u32,
}

impl View for OutputType {
    type V = u32;

    closed spec fn view(&self) -> u32 {
        self.raw
    }
}

impl OutputType {
    pub const MODULATOR: u32 = 0x1;
    pub const ANALOG: u32 = 0x2;
    pub const ANALOGVGAOVERLAY: u32 = 0x3;

    /// The value with the kernel's code `raw`.
    pub fn from_raw(raw: u32) -> (r: Self)
        ensures
            r@ == raw,
    {
        OutputType { raw }
    }

    /// Returns the kernel's code for this value.
    pub fn raw(&self) -> (r: u32)
        ensures
            r == self@,
    {
        self.raw
    }
}

/// What kind of device an input is.
#[derive(Clone, Copy, PartialEq, Eq, Structural, Debug)]
pub struct InputType {
    raw: u32,
}

impl View for InputType {
    type V = u32;

    closed spec fn view(&self) -> u32 {
        self.raw
    }
}

impl InputType {
    pub const TUNER: u32 = 0x1;
    pub const CAMERA: u32 = 0x2;
    pub const TOUCH: u32 = 0x3;

    /// The value with the kernel's code `raw`.
    pub fn from_raw(raw: u32) -> (r: Self)
        ensures
            r@ == raw,
    {
        InputType { raw }
    }

    /// Returns the kernel's code for this value.
    pub fn raw(&self) -> (r: u32)
        ensures
            r == self@,
    {
        self.raw
    }
}

/// Colorspace of an image.
#[derive(Clone, Copy, PartialEq, Eq, Structural, Debug)]
pub struct Colorspace {
    raw: u32,
}

impl View for Colorspace {
    type V = u32;

    closed spec fn view(&self) -> u32 {
        self.raw
    }
}

impl Colorspace {
    pub const DEFAULT: u32 = 0x0;
    pub const SMPTE170M: u32 = 0x1;
    pub const SMPTE240M: u32 = 0x2;
    pub const REC709: u32 = 0x3;
    pub const BT878: u32 = 0x4;
    pub const _470_SYSTEM_M: u32 = 0x5;
    pub const _470_SYSTEM_BG: u32 = 0x6;
    pub const JPEG: u32 = 0x7;
    pub const SRGB: u32 = 0x8;
    pub const OPRGB: u32 = 0x9;
    pub const BT2020: u32 = 0xa;
    pub const RAW: u32 = 0xb;
    pub const DCI_P3: u32 = 0xc;

    /// The value with the kernel's code `raw`.
    pub fn from_raw(raw: u32) -> (r: Self)
        ensures
            r@ == raw,
    {
        Colorspace { raw }
    }

    /// Returns the kernel's code for this value.
    pub fn raw(&self) -> (r: u32)
        ensures
            r == self@,
    {
        self.raw
    }
}

/// Quantization range of an image.
#[derive(Clone, Copy, PartialEq, Eq, Structural, Debug)]
pub struct Quantization {
    raw: u32,
}

impl View for Quantization {
    type V = u32;

    closed spec fn view(&self) -> u32 {
        self.raw
    }
}

impl Quantization {
    pub const DEFAULT: u32 = 0x0;
    pub const FULL_RANGE: u32 = 0x1;
    pub const LIM_RANGE: u32 = 0x2;

    /// The value with the kernel's code `raw`.
    pub fn from_raw(raw: u32) -> (r: Self)
        ensures
            r@ == raw,
    {
        Quantization { raw }
    }

    /// Returns the kernel's code for this value.
    pub fn raw(&self) -> (r: u32)
        ensures
            r == self@,
    {
        self.raw
    }
}

/// Transfer function of an image.
#[derive(Clone, Copy, PartialEq, Eq, Structural, Debug)]
pub struct XferFunc {
    raw: u32,
}

impl View for XferFunc {
    type V = u32;

    closed spec fn view(&self) -> u32 {
        self.raw
    }
}

impl XferFunc {
    pub const DEFAULT: u32 = 0x0;
    pub const _709: u32 = 0x1;
    pub const SRGB: u32 = 0x2;
    pub const OPRGB: u32 = 0x3;
    pub const SMPTE240M: u32 = 0x4;
    pub const NONE: u32 = 0x5;
    pub const DCI_P3: u32 = 0x6;
    pub const SMPTE2084: u32 = 0x7;

    /// The value with the kernel's code `raw`.
    pub fn from_raw(raw: u32) -> (r: Self)
        ensures
            r@ == raw,
    {
        XferFunc { raw }
    }

    /// Returns the kernel's code for this value.
    pub fn raw(&self) -> (r: u32)
        ensures
            r == self@,
    {
        self.raw
    }
}

/// Field order of an image.
#[derive(Clone, Copy, PartialEq, Eq, Structural, Debug)]
pub struct Field {
    raw: u32,
}

impl View for Field {
    type V = u32;

    closed spec fn view(&self) -> u32 {
        self.raw
    }
}

impl Field {
    pub const ANY: u32 = 0x0;
    pub const NONE: u32 = 0x1;
    pub const TOP: u32 = 0x2;
    pub const BOTTOM: u32 = 0x3;
    pub const INTERLACED: u32 = 0x4;
    pub const SEQ_TB: u32 = 0x5;
    pub const SEQ_BT: u32 = 0x6;
    pub const ALTERNATE: u32 = 0x7;
    pub const INTERLACED_TB: u32 = 0x8;
    pub const INTERLACED_BT: u32 = 0x9;

    /// The value with the kernel's code `raw`.
    pub fn from_raw(raw: u32) -> (r: Self)
        ensures
            r@ == raw,
    {
        Field { raw }
    }

    /// Returns the kernel's code for this value.
    pub fn raw(&self) -> (r: u32)
        ensures
            r == self@,
    {
        self.raw
    }
}

/// Data types supported by a device control.
#[derive(Clone, Copy, PartialEq, Eq, Structural, Debug)]
pub struct CtrlType {
    raw: u32,
}

impl View for CtrlType {
    type V = u32;

    closed spec fn view(&self) -> u32 {
        self.raw
    }
}

impl CtrlType {
    pub const INTEGER: u32 = 0x1;
    pub const BOOLEAN: u32 = 0x2;
    pub const MENU: u32 = 0x3;
    pub const BUTTON: u32 = 0x4;
    pub const INTEGER64: u32 = 0x5;
    pub const CTRL_CLASS: u32 = 0x6;
    pub const STRING: u32 = 0x7;
    pub const BITMASK: u32 = 0x8;
    pub const INTEGER_MENU: u32 = 0x9;
    pub const U8: u32 = 0x100;
    pub const U16: u32 = 0x101;
    pub const U32: u32 = 0x102;
    pub const AREA: u32 = 0x106;
    pub const H264_SPS: u32 = 0x200;
    pub const H264_PPS: u32 = 0x201;
    pub const H264_SCALING_MATRIX: u32 = 0x202;
    pub const H264_SLICE_PARAMS: u32 = 0x203;
    pub const H264_DECODE_PARAMS: u32 = 0x204;
    pub const H264_PRED_WEIGHTS: u32 = 0x205;
    pub const FWHT_PARAMS: u32 = 0x220;
    pub const VP8_FRAME: u32 = 0x240;
    pub const MPEG2_QUANTISATION: u32 = 0x250;
    pub const MPEG2_SEQUENCE: u32 = 0x251;
    pub const MPEG2_PICTURE: u32 = 0x252;

    /// The value with the kernel's code `raw`.
    pub fn from_raw(raw: u32) -> (r: Self)
        ensures
            r@ == raw,
    {
        CtrlType { raw }
    }

    /// Returns the kernel's code for this value.
    pub fn raw(&self) -> (r: u32)
        ensures
            r == self@,
    {
        self.raw
    }
}

/// How the memory of streaming buffers is provided.
#[derive(Clone, Copy, PartialEq, Eq, Structural, Debug)]
pub struct Memory {
    raw: u32,
}

impl View for Memory {
    type V = u32;

    closed spec fn view(&self) -> u32 {
        self.raw
    }
}

impl Memory {
    pub const MMAP: u32 = 0x1;
    pub const USERPTR: u32 = 0x2;
    pub const OVERLAY: u32 = 0x3;
    pub const DMABUF: u32 = 0x4;

    /// The value with the kernel's code `raw`.
    pub fn from_raw(raw: u32) -> (r: Self)
        ensures
            r@ == raw,
    {
        Memory { raw }
    }

    /// Returns the kernel's code for this value.
    pub fn raw(&self) -> (r: u32)
        ensures
            r == self@,
    {
        self.raw
    }
}

/// Frame rate of a timecode.
#[derive(Clone, Copy, PartialEq, Eq, Structural, Debug)]
pub struct TimecodeType {
    raw: u32,
}

impl View for TimecodeType {
    type V = u32;

    closed spec fn view(&self) -> u32 {
        self.raw
    }
}

impl TimecodeType {
    pub const T_24FPS: u32 = 0x1;
    pub const T_25FPS: u32 = 0x2;
    pub const T_30FPS: u32 = 0x3;
    pub const T_50FPS: u32 = 0x4;
    pub const T_60FPS: u32 = 0x5;

    /// The value with the kernel's code `raw`.
    pub fn from_raw(raw: u32) -> (r: Self)
        ensures
            r@ == raw,
    {
        TimecodeType { raw }
    }

    /// Returns the kernel's code for this value.
    pub fn raw(&self) -> (r: u32)
        ensures
            r == self@,
    {
        self.raw
    }
}

/// How frame sizes are enumerated.
#[derive(Clone, Copy, PartialEq, Eq, Structural, Debug)]
pub struct FrmSizeType {
    raw: u32,
}

impl View for FrmSizeType {
    type V = u32;

    closed spec fn view(&self) -> u32 {
        self.raw
    }
}

impl FrmSizeType {
    pub const DISCRETE: u32 = 0x1;
    pub const CONTINUOUS: u32 = 0x2;
    pub const STEPWISE: u32 = 0x3;

    /// The value with the kernel's code `raw`.
    pub fn from_raw(raw: u32) -> (r: Self)
        ensures
            r@ == raw,
    {
        FrmSizeType { raw }
    }

    /// Returns the kernel's code for this value.
    pub fn raw(&self) -> (r: u32)
        ensures
            r == self@,
    {
        self.raw
    }
}

/// How frame intervals are enumerated.
#[derive(Clone, Copy, PartialEq, Eq, Structural, Debug)]
pub struct FrmIvalType {
    raw: u32,
}

impl View for FrmIvalType {
    type V = u32;

    closed spec fn view(&self) -> u32 {
        self.raw
    }
}

impl FrmIvalType {
    pub const DISCRETE: u32 = 0x1;
    pub const CONTINUOUS: u32 = 0x2;
    pub const STEPWISE: u32 = 0x3;

    /// The value with the kernel's code `raw`.
    pub fn from_raw(raw: u32) -> (r: Self)
        ensures
            r@ == raw,
    {
        FrmIvalType { raw }
    }

    /// Returns the kernel's code for this value.
    pub fn raw(&self) -> (r: u32)
        ensures
            r == self@,
    {
        self.raw
    }
}

} // verus!
