//! The error type of this library.

use vstd::prelude::*;

use crate::buf_type::BufType;

verus! {

/// I/O errors reported by the kernel calls that drive a stream.
#[verifier::external_type_specification]
#[verifier::external_body]
pub struct ExIoError(std::io::Error);

/// The error type for interactions with this library.
#[derive(Debug)]
#[non_exhaustive]
pub enum Error {
    /// The driver allocated fewer buffers than `required_count`. The streams accept a smaller
    /// grant as their pool size, so they never report this.
    BufferAllocationFailed { required_count: u32, actual_count: u32 },
    /// The requested buffer type is not supported.
    UnsupportedBufferType(BufType),
    /// An underlying I/O error has occurred.
    Io(std::io::Error),
}

} // verus!
