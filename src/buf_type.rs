//! Buffer (stream) types, and sets of them.

use vstd::prelude::*;

use crate::shared::CapabilityFlags;

verus! {

/// A buffer or stream type.
#[allow(non_camel_case_types)]
#[derive(Clone, Copy, PartialEq, Eq, Structural, Debug)]
pub enum BufType {
    /// Single-plane video capture.
    VIDEO_CAPTURE,
    /// Single-plane video output.
    VIDEO_OUTPUT,
    VIDEO_OVERLAY,
    VBI_CAPTURE,
    VBI_OUTPUT,
    SLICED_VBI_CAPTURE,
    SLICED_VBI_OUTPUT,
    VIDEO_OUTPUT_OVERLAY,
    VIDEO_CAPTURE_MPLANE,
    VIDEO_OUTPUT_MPLANE,
    SDR_CAPTURE,
    SDR_OUTPUT,
    /// Metadata capture.
    META_CAPTURE,
    /// Metadata output.
    META_OUTPUT,
}

/// The kernel's code of each buffer type.
pub open spec fn buf_type_code(t: BufType) -> u32 {
    match t {
        BufType::VIDEO_CAPTURE => 1,
        BufType::VIDEO_OUTPUT => 2,
        BufType::VIDEO_OVERLAY => 3,
        BufType::VBI_CAPTURE => 4,
        BufType::VBI_OUTPUT => 5,
        BufType::SLICED_VBI_CAPTURE => 6,
        BufType::SLICED_VBI_OUTPUT => 7,
        BufType::VIDEO_OUTPUT_OVERLAY => 8,
        BufType::VIDEO_CAPTURE_MPLANE => 9,
        BufType::VIDEO_OUTPUT_MPLANE => 10,
        BufType::SDR_CAPTURE => 11,
        BufType::SDR_OUTPUT => 12,
        BufType::META_CAPTURE => 13,
        BufType::META_OUTPUT => 14,
    }
}

/// The device capability that announces support for buffer type number `code`
/// (`0` for a number that names no buffer type).
pub open spec fn capability_of_code(code: u32) -> u32 {
    if code == 1 {
        0x1
    } else if code == 2 {
        0x2
    } else if code == 3 {
        0x4
    } else if code == 4 {
        0x10
    } else if code == 5 {
        0x20
    } else if code == 6 {
        0x40
    } else if code == 7 {
        0x80
    } else if code == 8 {
        0x200
    } else if code == 9 {
        0x1000
    } else if code == 10 {
        0x2000
    } else if code == 11 {
        0x100000
    } else if code == 12 {
        0x400000
    } else if code == 13 {
        0x800000
    } else if code == 14 {
        0x8000000
    } else {
        0
    }
}

impl BufType {
    /// Returns the kernel's code for this buffer type.
    pub fn raw(&self) -> (r: u32)
        ensures
            r == buf_type_code(*self),
    {
        match self {
            BufType::VIDEO_CAPTURE => 1,
            BufType::VIDEO_OUTPUT => 2,
            BufType::VIDEO_OVERLAY => 3,
            BufType::VBI_CAPTURE => 4,
            BufType::VBI_OUTPUT => 5,
            BufType::SLICED_VBI_CAPTURE => 6,
            BufType::SLICED_VBI_OUTPUT => 7,
            BufType::VIDEO_OUTPUT_OVERLAY => 8,
            BufType::VIDEO_CAPTURE_MPLANE => 9,
            BufType::VIDEO_OUTPUT_MPLANE => 10,
            BufType::SDR_CAPTURE => 11,
            BufType::SDR_OUTPUT => 12,
            BufType::META_CAPTURE => 13,
            BufType::META_OUTPUT => 14,
        }
    }

    /// Returns the buffer type with the kernel's code `raw`, if there is one.
    pub fn from_raw(raw: u32) -> (r: Option<BufType>)
        ensures
            r matches Some(t) ==> buf_type_code(t) == raw,
            r is None <==> !(1 <= raw <= 14),
    {
        match raw {
            1 => Some(BufType::VIDEO_CAPTURE),
            2 => Some(BufType::VIDEO_OUTPUT),
            3 => Some(BufType::VIDEO_OVERLAY),
            4 => Some(BufType::VBI_CAPTURE),
            5 => Some(BufType::VBI_OUTPUT),
            6 => Some(BufType::SLICED_VBI_CAPTURE),
            7 => Some(BufType::SLICED_VBI_OUTPUT),
            8 => Some(BufType::VIDEO_OUTPUT_OVERLAY),
            9 => Some(BufType::VIDEO_CAPTURE_MPLANE),
            10 => Some(BufType::VIDEO_OUTPUT_MPLANE),
            11 => Some(BufType::SDR_CAPTURE),
            12 => Some(BufType::SDR_OUTPUT),
            13 => Some(BufType::META_CAPTURE),
            14 => Some(BufType::META_OUTPUT),
            _ => None,
        }
    }

    /// Returns the device capability that announces support for this buffer type.
    pub fn capability(&self) -> (r: u32)
        ensures
            r == capability_of_code(buf_type_code(*self)),
    {
        match self {
            BufType::VIDEO_CAPTURE => 0x1,
            BufType::VIDEO_OUTPUT => 0x2,
            BufType::VIDEO_OVERLAY => 0x4,
            BufType::VBI_CAPTURE => 0x10,
            BufType::VBI_OUTPUT => 0x20,
            BufType::SLICED_VBI_CAPTURE => 0x40,
            BufType::SLICED_VBI_OUTPUT => 0x80,
            BufType::VIDEO_OUTPUT_OVERLAY => 0x200,
            BufType::VIDEO_CAPTURE_MPLANE => 0x1000,
            BufType::VIDEO_OUTPUT_MPLANE => 0x2000,
            BufType::SDR_CAPTURE => 0x100000,
            BufType::SDR_OUTPUT => 0x400000,
            BufType::META_CAPTURE => 0x800000,
            BufType::META_OUTPUT => 0x8000000,
        }
    }
}

/// Whether bit `i` of `bits` is set.
pub open spec fn has_bit(bits: u32, i: u32) -> bool {
    (bits >> i) & 1 == 1
}

/// The set of buffer types numbered `1..=n` whose capability `caps` announces, as a bit set in
/// which bit `k` stands for buffer type number `k`.
pub open spec fn buf_types_upto(caps: u32, n: u32) -> u32
    decreases n,
{
    if n == 0 {
        0
    } else {
        let below = buf_types_upto(caps, (n - 1) as u32);
        if caps & capability_of_code(n) == capability_of_code(n) {
            below | (1u32 << n)
        } else {
            below
        }
    }
}

/// The lowest buffer type number above `from` (and at most 14) whose bit is set in `bits`.
pub open spec fn next_buf_type(bits: u32, from: u32) -> Option<u32>
    decreases 14 - from,
{
    if from >= 14 {
        None
    } else if has_bit(bits, (from + 1) as u32) {
        Some((from + 1) as u32)
    } else {
        next_buf_type(bits, (from + 1) as u32)
    }
}

/// A set of buffer types; bit `k` stands for the buffer type with code `k`.
#[derive(Clone, Copy, PartialEq, Eq, Structural, Debug)]
pub struct BufTypes {
    bits: u32,
}

impl View for BufTypes {
    type V = u32;

    closed spec fn view(&self) -> u32 {
        self.bits
    }
}

impl BufTypes {
    pub const VIDEO_CAPTURE: u32 = 0x2;
    pub const VIDEO_OUTPUT: u32 = 0x4;
    pub const VIDEO_OVERLAY: u32 = 0x8;
    pub const VBI_CAPTURE: u32 = 0x10;
    pub const VBI_OUTPUT: u32 = 0x20;
    pub const SLICED_VBI_CAPTURE: u32 = 0x40;
    pub const SLICED_VBI_OUTPUT: u32 = 0x80;
    pub const VIDEO_OUTPUT_OVERLAY: u32 = 0x100;
    pub const VIDEO_CAPTURE_MPLANE: u32 = 0x200;
    pub const VIDEO_OUTPUT_MPLANE: u32 = 0x400;
    pub const SDR_CAPTURE: u32 = 0x800;
    pub const SDR_OUTPUT: u32 = 0x1000;
    pub const META_CAPTURE: u32 = 0x2000;
    pub const META_OUTPUT: u32 = 0x4000;

    /// The set with exactly the bits of `bits`.
    pub fn from_bits(bits: u32) -> (r: Self)
        ensures
            r@ == bits,
    {
        BufTypes { bits }
    }

    /// Returns the raw bits of this set.
    pub fn bits(&self) -> (r: u32)
        ensures
            r == self@,
    {
        self.bits
    }

    /// Whether every bit of `mask` is set.
    pub fn contains(&self, mask: u32) -> (r: bool)
        ensures
            r == (self@ & mask == mask),
    {
        self.bits & mask == mask
    }

    /// The buffer types whose capability flag `caps` holds.
    pub fn from_capabilities(caps: CapabilityFlags) -> (r: Self)
        ensures
            r@ == buf_types_upto(caps@, 14),
    {
        let mut bits: u32 = 0;
        let mut n: u32 = 0;
        while n < 14
            invariant
                n <= 14,
                bits == buf_types_upto(caps@, n),
            decreases 14 - n,
        {
            n = n + 1;
            let cap: u32 = match BufType::from_raw(n) {
                Some(t) => t.capability(),
                None => 0,
            };
            assert(cap == capability_of_code(n));
            if caps.contains(cap) {
                bits = bits | (1u32 << n);
            }
        }
        BufTypes { bits }
    }

    /// An iterator over the buffer types of this set, in the order of their codes.
    pub fn iter(self) -> (r: BufTypesIter)
        ensures
            r@ == (self@, 0u32),
    {
        BufTypesIter { buf_types: self, index: 0 }
    }
}

/// Iterator over the [`BufType`]s stored in a [`BufTypes`] value.
pub struct BufTypesIter {
    buf_types: BufTypes,
    index: u32,
}

impl View for BufTypesIter {
    /// The set iterated over, and the code of the last buffer type returned (`0` at first).
    type V = (u32, u32);

    closed spec fn view(&self) -> (u32, u32) {
        (self.buf_types@, self.index)
    }
}

impl BufTypesIter {
    /// Returns the buffer type with the next higher code in the set, if any.
    pub fn next(&mut self) -> (r: Option<BufType>)
        requires
            old(self)@.1 <= 14,
        ensures
            final(self)@.0 == old(self)@.0,
            final(self)@.1 <= 14,
            match next_buf_type(old(self)@.0, old(self)@.1) {
                Some(k) => r matches Some(t) && buf_type_code(t) == k && final(self)@.1 == k,
                None => r is None,
            },
    {
        while self.index < 14
            invariant
                self@.0 == old(self)@.0,
                self.index <= 14,
                next_buf_type(old(self)@.0, old(self)@.1) == next_buf_type(self@.0, self.index),
            decreases 14 - self.index,
        {
            self.index = self.index + 1;
            if (self.buf_types.bits >> self.index) & 1 == 1 {
                return BufType::from_raw(self.index);
            }
        }
        None
    }
}

} // verus!
