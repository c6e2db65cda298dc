//! Device, input and output information as reported by the driver.

use vstd::prelude::*;
use vstd::string::StringSliceAdditionalSpecFns;

use crate::raw;
use crate::shared::{
    AnalogStd, CapabilityFlags, InputCapabilities, InputStatus, InputType, OutputCapabilities,
    OutputType,
};
use crate::text::str_from_utf8;

verus! {

/// The index of the first NUL byte of `b` at or after `i`, if any.
pub open spec fn first_nul_from(b: Seq<u8>, i: int) -> Option<int>
    decreases b.len() - i,
{
    if i < 0 || i >= b.len() {
        None
    } else if b[i] == 0 {
        Some(i)
    } else {
        first_nul_from(b, i + 1)
    }
}

/// The text of a zero-padded byte array: the bytes before the first NUL, when there is one and
/// they are valid UTF-8.
pub open spec fn padded_text(b: Seq<u8>) -> Option<Seq<u8>> {
    match first_nul_from(b, 0) {
        Some(n) => if vstd::utf8::valid_utf8(b.subrange(0, n)) {
            Some(b.subrange(0, n))
        } else {
            None
        },
        None => None,
    }
}

proof fn lemma_first_nul_from(b: Seq<u8>, i: int)
    requires
        0 <= i,
    ensures
        first_nul_from(b, i) matches Some(n) ==> i <= n < b.len() && b[n] == 0,
    decreases b.len() - i,
{
    if i < b.len() && b[i] != 0 {
        lemma_first_nul_from(b, i + 1);
    }
}

/// Turns a zero-padded byte array holding UTF-8 text into a `&str`; `None` when the array holds
/// no NUL terminator or the text is not valid UTF-8.
pub fn byte_array_to_str(bytes: &[u8]) -> (r: Option<&str>)
    ensures
        r is Some <==> padded_text(bytes@) is Some,
        r matches Some(s) ==> padded_text(bytes@) == Some(s.spec_bytes()),
{
    let n: usize = bytes.len();
    let mut i: usize = 0;
    while i < n
        invariant
            n == bytes@.len(),
            i <= n,
            first_nul_from(bytes@, 0) == first_nul_from(bytes@, i as int),
        decreases n - i,
    {
        if bytes[i] == 0 {
            proof {
                lemma_first_nul_from(bytes@, 0);
            }
            return str_from_utf8(&bytes[0..i]);
        }
        i = i + 1;
    }
    None
}

/// Stores generic device information.
pub struct Capabilities(pub raw::Capabilities);

impl Capabilities {
    /// Returns the identifier of the driver that provides this device (for example `uvcvideo`).
    pub fn driver(&self) -> (r: Option<&str>)
        ensures
            r is Some <==> padded_text(self.0.driver@) is Some,
            r matches Some(s) ==> padded_text(self.0.driver@) == Some(s.spec_bytes()),
    {
        byte_array_to_str(self.0.driver.as_slice())
    }

    /// Returns the card or device name.
    pub fn card(&self) -> (r: Option<&str>)
        ensures
            r is Some <==> padded_text(self.0.card@) is Some,
            r matches Some(s) ==> padded_text(self.0.card@) == Some(s.spec_bytes()),
    {
        byte_array_to_str(self.0.card.as_slice())
    }

    /// Returns a description of where on the system the device is attached.
    pub fn bus_info(&self) -> (r: Option<&str>)
        ensures
            r is Some <==> padded_text(self.0.bus_info@) is Some,
            r matches Some(s) ==> padded_text(self.0.bus_info@) == Some(s.spec_bytes()),
    {
        byte_array_to_str(self.0.bus_info.as_slice())
    }

    /// Returns all capabilities the underlying hardware device exposes.
    pub fn all_capabilities(&self) -> (r: CapabilityFlags)
        ensures
            r == self.0.capabilities,
    {
        self.0.capabilities
    }

    /// Returns the capabilities available through the currently opened device node: the
    /// per-device capabilities when the driver reports them, else all capabilities.
    pub fn device_capabilities(&self) -> (r: CapabilityFlags)
        ensures
            r == (if self.0.capabilities@ & CapabilityFlags::DEVICE_CAPS
                == CapabilityFlags::DEVICE_CAPS {
                self.0.device_caps
            } else {
                self.0.capabilities
            }),
    {
        if self.0.capabilities.contains(CapabilityFlags::DEVICE_CAPS) {
            self.0.device_caps
        } else {
            self.0.capabilities
        }
    }
}

/// Information about a device output.
pub struct Output(pub raw::Output);

impl Output {
    /// Returns the output's name.
    pub fn name(&self) -> (r: Option<&str>)
        ensures
            r is Some <==> padded_text(self.0.name@) is Some,
            r matches Some(s) ==> padded_text(self.0.name@) == Some(s.spec_bytes()),
    {
        byte_array_to_str(self.0.name.as_slice())
    }

    /// Returns what kind of device this output is.
    pub fn output_type(&self) -> (r: OutputType)
        ensures
            r == self.0.type_,
    {
        self.0.type_
    }

    /// Returns the set of selectable audio sources when this output is active.
    pub fn audioset(&self) -> (r: u32)
        ensures
            r == self.0.audioset,
    {
        self.0.audioset
    }

    /// Returns the modulator index; meaningful for modulator outputs only.
    pub fn modulator(&self) -> (r: u32)
        ensures
            r == self.0.modulator,
    {
        self.0.modulator
    }

    /// Returns the set of supported analog video standards.
    pub fn analog_std(&self) -> (r: AnalogStd)
        ensures
            r == self.0.std,
    {
        self.0.std
    }

    /// Returns the capability flags of this output.
    pub fn capabilities(&self) -> (r: OutputCapabilities)
        ensures
            r == self.0.capabilities,
    {
        self.0.capabilities
    }
}

/// Information about a device input.
pub struct Input(pub raw::Input);

impl Input {
    /// Returns the name of the input.
    pub fn name(&self) -> (r: Option<&str>)
        ensures
            r is Some <==> padded_text(self.0.name@) is Some,
            r matches Some(s) ==> padded_text(self.0.name@) == Some(s.spec_bytes()),
    {
        byte_array_to_str(self.0.name.as_slice())
    }

    /// Returns what kind of device this input is.
    pub fn input_type(&self) -> (r: InputType)
        ensures
            r == self.0.type_,
    {
        self.0.type_
    }

    /// Returns the set of selectable audio sources when this input is active.
    pub fn audioset(&self) -> (r: u32)
        ensures
            r == self.0.audioset,
    {
        self.0.audioset
    }

    /// Returns the tuner index; meaningful for tuner inputs only.
    pub fn tuner(&self) -> (r: u32)
        ensures
            r == self.0.tuner,
    {
        self.0.tuner
    }

    /// Returns the set of supported analog video standards for this input.
    pub fn analog_std(&self) -> (r: AnalogStd)
        ensures
            r == self.0.std,
    {
        self.0.std
    }

    /// Returns the current status of the input.
    pub fn status(&self) -> (r: InputStatus)
        ensures
            r == self.0.status,
    {
        self.0.status
    }

    /// Returns the capability flags of this input.
    pub fn capabilities(&self) -> (r: InputCapabilities)
        ensures
            r == self.0.capabilities,
    {
        self.0.capabilities
    }
}

} // verus!
