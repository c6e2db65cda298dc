//! Kernel payloads (`videodev2.h`) as plain data.
//!
//! Each struct holds the fields of one kernel structure that this library reads or writes. Unions
//! of the kernel structures are split into one field per member that is used.

use vstd::prelude::*;

use crate::fract::Fract;
use crate::pixel_format::PixelFormat;
use crate::shared::{
    AnalogStd, BufCap, CaptureParamFlags, CapabilityFlags, Colorspace, ControlFlags, CtrlType, Field,
    FormatFlags, FrmIvalType, FrmSizeType, InputCapabilities, InputStatus, InputType, Memory,
    OutputCapabilities, OutputType, PixFmtFlag, Quantization, StreamParamCaps, TimecodeFlags,
    TimecodeType, XferFunc,
};
use crate::buf_type::BufType;

verus! {

pub const VIDEO_MAX_PLANES: usize = 8;

/// `v4l2_capability`
#[derive(Clone, Copy, Debug)]
pub struct Capabilities {
    pub driver: [u8; 16],
    pub card: [u8; 32],
    pub bus_info: [u8; 32],
    pub version: u32,
    pub capabilities: CapabilityFlags,
    pub device_caps: CapabilityFlags,
}

/// `v4l2_fmtdesc`
#[derive(Clone, Copy)]
pub struct FmtDesc {
    /// Number of the format in the enumeration.
    pub index: u32,
    pub type_: BufType,
    pub flags: FormatFlags,
    /// Description of the format, a NUL-terminated string.
    pub description: [u8; 32],
    pub pixel_format: PixelFormat,
    pub mbus_code: u32,
}

/// `v4l2_rect`
#[derive(Clone, Copy, Debug)]
pub struct Rect {
    pub left: i32,
    pub top: i32,
    pub width: u32,
    pub height: u32,
}

/// `v4l2_area`
#[derive(Clone, Copy)]
pub struct Area {
    pub width: u32,
    pub height: u32,
}

/// `v4l2_pix_format`
#[derive(Clone, Copy)]
pub struct PixFormat {
    pub width: u32,
    pub height: u32,
    pub pixel_format: PixelFormat,
    pub field: Field,
    pub bytesperline: u32,
    pub sizeimage: u32,
    pub colorspace: Colorspace,
    pub priv_: u32,
    pub flags: PixFmtFlag,
    pub enc: u32,
    pub quantization: Quantization,
    pub xfer_func: XferFunc,
}

/// `v4l2_plane_pix_format`
#[derive(Clone, Copy)]
pub struct PlanePixFormat {
    pub sizeimage: u32,
    pub bytesperline: u32,
}

/// `v4l2_pix_format_mplane`
#[derive(Clone, Copy)]
pub struct PixFormatMplane {
    pub width: u32,
    pub height: u32,
    pub pixel_format: PixelFormat,
    pub field: u32,
    pub colorspace: u32,
    pub plane_fmt: [PlanePixFormat; 8],
    pub num_planes: u8,
    pub flags: u8,
    pub enc: u8,
    pub quantization: u8,
    pub xfer_func: u8,
}

/// `v4l2_output`
#[derive(Clone, Copy)]
pub struct Output {
    pub index: u32,
    pub name: [u8; 32],
    pub type_: OutputType,
    /// Associated audio outputs (bitfield).
    pub audioset: u32,
    /// Modulator associated with this output.
    pub modulator: u32,
    pub std: AnalogStd,
    pub capabilities: OutputCapabilities,
}

/// `v4l2_meta_format`
#[derive(Clone, Copy)]
pub struct MetaFormat {
    pub dataformat: PixelFormat,
    pub buffersize: u32,
}

/// `v4l2_input`
#[derive(Clone, Copy)]
pub struct Input {
    pub index: u32,
    pub name: [u8; 32],
    pub type_: InputType,
    pub audioset: u32,
    pub tuner: u32,
    pub std: AnalogStd,
    pub status: InputStatus,
    pub capabilities: InputCapabilities,
}

/// `v4l2_queryctrl`
#[derive(Clone, Copy)]
pub struct QueryCtrl {
    pub id: u32,
    pub type_: CtrlType,
    pub name: [u8; 32],
    pub minimum: i32,
    pub maximum: i32,
    pub step: i32,
    pub default_value: i32,
    pub flags: ControlFlags,
}

/// `v4l2_querymenu`, for a text menu.
#[derive(Clone, Copy)]
pub struct QueryMenu {
    pub id: u32,
    pub index: u32,
    pub name: [u8; 32],
}

/// `v4l2_requestbuffers`
#[derive(Clone, Copy, Debug)]
pub struct RequestBuffers {
    pub count: u32,
    pub type_: BufType,
    pub memory: Memory,
    pub capabilities: BufCap,
}

/// `v4l2_timecode`
#[derive(Clone, Copy)]
pub struct Timecode {
    pub type_: TimecodeType,
    pub flags: TimecodeFlags,
    pub frames: u8,
    pub seconds: u8,
    pub minutes: u8,
    pub hours: u8,
    pub userbits: [u8; 4],
}

/// `v4l2_frmsizeenum`
#[derive(Clone, Copy)]
pub struct FrmSizeEnum {
    pub index: u32,
    pub pixel_format: PixelFormat,
    pub type_: FrmSizeType,
    /// Meaningful when `type_` is `DISCRETE`.
    pub discrete: FrmSizeDiscrete,
    /// Meaningful when `type_` is `STEPWISE` or `CONTINUOUS`.
    pub stepwise: FrmSizeStepwise,
}

/// `v4l2_frmsize_discrete`
#[derive(Clone, Copy)]
pub struct FrmSizeDiscrete {
    pub width: u32,
    pub height: u32,
}

/// `v4l2_frmsize_stepwise`
#[derive(Clone, Copy)]
pub struct FrmSizeStepwise {
    pub min_width: u32,
    pub max_width: u32,
    pub step_width: u32,
    pub min_height: u32,
    pub max_height: u32,
    pub step_height: u32,
}

/// `v4l2_frmivalenum`
#[derive(Clone, Copy)]
pub struct FrmIvalEnum {
    pub index: u32,
    pub pixel_format: PixelFormat,
    pub width: u32,
    pub height: u32,
    pub type_: FrmIvalType,
    /// Meaningful when `type_` is `DISCRETE`.
    pub discrete: Fract,
    /// Meaningful when `type_` is `STEPWISE` or `CONTINUOUS`.
    pub stepwise: FrmIvalStepwise,
}

/// `v4l2_frmival_stepwise`
#[derive(Clone, Copy)]
pub struct FrmIvalStepwise {
    pub min: Fract,
    pub max: Fract,
    pub step: Fract,
}

/// `v4l2_streamparm`
#[derive(Clone, Copy)]
pub struct StreamParm {
    pub type_: BufType,
    /// Meaningful for capture buffer types.
    pub capture: CaptureParm,
    /// Meaningful for output buffer types.
    pub output: OutputParm,
}

/// `v4l2_captureparm`
#[derive(Clone, Copy)]
pub struct CaptureParm {
    pub capability: StreamParamCaps,
    pub capturemode: CaptureParamFlags,
    pub timeperframe: Fract,
    pub extendedmode: u32,
    pub readbuffers: u32,
}

/// `v4l2_outputparm`
#[derive(Clone, Copy)]
pub struct OutputParm {
    pub capability: StreamParamCaps,
    pub outputmode: u32,
    pub timeperframe: Fract,
    pub extendedmode: u32,
    pub writebuffers: u32,
}

/// `v4l2_control`
#[derive(Clone, Copy)]
pub struct Control {
    pub id: u32,
    pub value: i32,
}

} // verus!
