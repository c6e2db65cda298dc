//! Linux video device library.
//!
//! The verified core of this crate is the streaming buffer engine in [`stream`]: the pool of
//! kernel-mapped frame buffers, the queued/unqueued ownership of each buffer, and the read and
//! write protocols built on top of it. The kernel calls themselves (ioctls, `mmap`) are performed
//! by the caller, which feeds their outcomes back into the state machines defined here.

mod buf_type;
pub mod controls;
pub mod enumeration;
pub mod error;
pub mod format;
pub mod fract;
mod info;
mod pixel_format;
mod pixelformat;
pub mod raw;
pub mod shared;
pub mod stream;
mod text;
pub mod uvc;

pub use buf_type::{BufType, BufTypes, BufTypesIter};
pub use error::Error;
pub use fract::Fract;
pub use info::{Capabilities, Input, Output};
pub use pixel_format::PixelFormat;
pub use pixelformat::Pixelformat;
pub use shared::{
    AnalogStd, CapabilityFlags, InputCapabilities, InputStatus, InputType, OutputCapabilities,
    OutputType,
};
