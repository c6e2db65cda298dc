//! USB Video Class extensions.

use vstd::prelude::*;

verus! {

/// `bytes`, padded with zeros to `n` bytes.
pub open spec fn zero_padded(bytes: Seq<u8>, n: nat) -> Seq<u8> {
    Seq::new(n, |i: int| if i < bytes.len() { bytes[i] } else { 0u8 })
}

/// `UVCH` meta capture format: one UVC payload header, as the driver lays it out (timestamp,
/// start of frame, header length and flags, presentation time, source clock).
#[derive(Debug)]
pub struct UvcMetadata {
    raw: Vec<u8>,
}

impl View for UvcMetadata {
    /// The header's bytes.
    type V = Seq<u8>;

    closed spec fn view(&self) -> Seq<u8> {
        self.raw@
    }
}

impl UvcMetadata {
    /// Size in bytes of the header structure.
    pub const MAX_SIZE: usize = 24;

    /// Reads a header from the start of a metadata buffer; missing trailing bytes read as zero.
    pub fn from_bytes(bytes: &[u8]) -> (r: Self)
        requires
            bytes@.len() <= Self::MAX_SIZE,
        ensures
            r@ == zero_padded(bytes@, Self::MAX_SIZE as nat),
    {
        let mut raw: Vec<u8> = Vec::new();
        let mut i: usize = 0;
        while i < Self::MAX_SIZE
            invariant
                i <= Self::MAX_SIZE,
                bytes@.len() <= Self::MAX_SIZE,
                raw@ == zero_padded(bytes@, Self::MAX_SIZE as nat).take(i as int),
            decreases Self::MAX_SIZE - i,
        {
            if i < bytes.len() {
                raw.push(bytes[i]);
            } else {
                raw.push(0);
            }
            proof {
                assert(raw@ =~= zero_padded(bytes@, Self::MAX_SIZE as nat).take(i + 1));
            }
            i = i + 1;
        }
        proof {
            assert(raw@ =~= zero_padded(bytes@, Self::MAX_SIZE as nat));
        }
        UvcMetadata { raw }
    }

    /// The header's bytes.
    pub fn as_bytes(&self) -> (r: &[u8])
        ensures
            r@ == self@,
    {
        self.raw.as_slice()
    }
}

} // verus!
