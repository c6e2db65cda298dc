//! Four character codes of pixel formats.

use vstd::prelude::*;

use crate::text::{escape_byte, escaped_byte, push_str};

verus! {

/// The fourcc code of the bytes `b`, read little-endian.
pub open spec fn fourcc_value(b: Seq<u8>) -> u32 {
    (b[0] as u32) | ((b[1] as u32) << 8u32) | ((b[2] as u32) << 16u32) | ((b[3] as u32) << 24u32)
}

/// The four bytes of the fourcc code `v`, least significant first.
pub open spec fn fourcc_bytes(v: u32) -> Seq<u8> {
    seq![(v & 0xff) as u8, ((v >> 8u32) & 0xff) as u8, ((v >> 16u32) & 0xff) as u8, ((v >> 24u32) & 0xff) as u8]
}

/// Reads a fourcc code from its four bytes.
pub(crate) fn fourcc_from_bytes(b: [u8; 4]) -> (r: u32)
    ensures
        r == fourcc_value(b@),
{
    (b[0] as u32) | ((b[1] as u32) << 8u32) | ((b[2] as u32) << 16u32) | ((b[3] as u32) << 24u32)
}

/// Splits a fourcc code into its four bytes.
pub(crate) fn fourcc_to_bytes(v: u32) -> (r: [u8; 4])
    ensures
        r@ == fourcc_bytes(v),
{
    let r: [u8; 4] = [(v & 0xff) as u8, ((v >> 8u32) & 0xff) as u8, ((v >> 16u32) & 0xff) as u8, ((v >> 24u32) & 0xff) as u8];
    assert(r@ =~= fourcc_bytes(v));
    r
}

/// Splitting a fourcc code into bytes and reading it back gives the code again.
pub proof fn lemma_fourcc_round_trip(v: u32)
    ensures
        fourcc_value(fourcc_bytes(v)) == v,
{
    let b0 = (v & 0xff) as u8;
    let b1 = ((v >> 8u32) & 0xff) as u8;
    let b2 = ((v >> 16u32) & 0xff) as u8;
    let b3 = ((v >> 24u32) & 0xff) as u8;
    assert((b0 as u32) | ((b1 as u32) << 8u32) | ((b2 as u32) << 16u32) | ((b3 as u32) << 24u32) == v) by (bit_vector)
        requires
            b0 == (v & 0xff) as u8,
            b1 == ((v >> 8u32) & 0xff) as u8,
            b2 == ((v >> 16u32) & 0xff) as u8,
            b3 == ((v >> 24u32) & 0xff) as u8,
    ;
}

/// How a pixel format is displayed: each byte of its code escaped like a character literal.
pub open spec fn fourcc_text(v: u32) -> Seq<char> {
    let b = fourcc_bytes(v);
    escaped_byte(b[0]) + escaped_byte(b[1]) + escaped_byte(b[2]) + escaped_byte(b[3])
}

/// Four character code (fourcc) defining the encoding of pixel data in an image buffer.
///
/// The associated constants are the codes of common formats; [`PixelFormat::from_raw`] turns
/// one into a `PixelFormat`.
#[derive(Clone, Copy, PartialEq, Eq, Structural, Debug)]
pub struct PixelFormat {
    code: u32,
}

impl View for PixelFormat {
    type V = u32;

    closed spec fn view(&self) -> u32 {
        self.code
    }
}

impl PixelFormat {
    /// **`BGR3`** `bbbbbbbb gggggggg rrrrrrrr`
    pub const BGR3: u32 = 0x33524742;
    /// **`RGB3`** `rrrrrrrr gggggggg bbbbbbbb`
    pub const RGB3: u32 = 0x33424752;
    /// **`AR24`**: `bbbbbbbb gggggggg rrrrrrrr aaaaaaaa`
    pub const ABGR32: u32 = 0x34325241;
    /// **`XR24`**: `bbbbbbbb gggggggg rrrrrrrr xxxxxxxx`
    pub const XBGR32: u32 = 0x34325258;
    /// **`RA24`**: `aaaaaaaa bbbbbbbb gggggggg rrrrrrrr`
    pub const BGRA32: u32 = 0x34324152;
    /// **`RX24`**: `xxxxxxxx bbbbbbbb gggggggg rrrrrrrr`
    pub const BGRX32: u32 = 0x34325852;
    /// **`AB24`**: `rrrrrrrr gggggggg bbbbbbbb aaaaaaaa`
    pub const RGBA32: u32 = 0x34324241;
    /// **`XB24`**: `rrrrrrrr gggggggg bbbbbbbb xxxxxxxx`
    pub const RGBX32: u32 = 0x34324258;
    /// **`BA24`**: `aaaaaaaa rrrrrrrr gggggggg bbbbbbbb`
    pub const ARGB32: u32 = 0x34324142;
    /// **`BX24`**: `xxxxxxxx rrrrrrrr gggggggg bbbbbbbb`
    pub const XRGB32: u32 = 0x34325842;
    /// **`BGR4`**: `bbbbbbbb gggggggg rrrrrrrr ????????` **DEPRECATED**
    pub const BGR32: u32 = 0x34524742;
    /// **`RGB4`**: `???????? rrrrrrrr gggggggg bbbbbbbb` **DEPRECATED**
    pub const RGB32: u32 = 0x34424752;
    /// **`YUYV`**: packed YUV 4:2:2.
    pub const YUYV: u32 = 0x56595559;
    /// **`MJPG`**: Motion JPEG.
    pub const MJPG: u32 = 0x47504a4d;
    /// **`JPEG`**: JFIF JPEG still images.
    pub const JPEG: u32 = 0x4745504a;
    /// **`UVCH`**: UVC payload header metadata.
    pub const UVC: u32 = 0x48435655;

    /// The pixel format with the code `code`.
    pub fn from_raw(code: u32) -> (r: Self)
        ensures
            r@ == code,
    {
        PixelFormat { code }
    }

    /// Returns the code of this pixel format.
    pub fn raw(&self) -> (r: u32)
        ensures
            r == self@,
    {
        self.code
    }

    /// Creates a [`PixelFormat`] from a *fourcc* code.
    pub fn from_fourcc(fourcc: [u8; 4]) -> (r: Self)
        ensures
            r@ == fourcc_value(fourcc@),
    {
        PixelFormat { code: fourcc_from_bytes(fourcc) }
    }

    /// Returns the *fourcc* code represented by `self`.
    pub fn as_fourcc(self) -> (r: [u8; 4])
        ensures
            r@ == fourcc_bytes(self@),
    {
        fourcc_to_bytes(self.code)
    }

    /// The four characters of the code, each escaped like a character literal.
    pub fn to_string(&self) -> (r: String)
        ensures
            r@ == fourcc_text(self@),
    {
        let b: [u8; 4] = fourcc_to_bytes(self.code);
        let mut s: String = escape_byte(b[0]);
        let t1: String = escape_byte(b[1]);
        push_str(&mut s, t1.as_str());
        let t2: String = escape_byte(b[2]);
        push_str(&mut s, t2.as_str());
        let t3: String = escape_byte(b[3]);
        push_str(&mut s, t3.as_str());
        s
    }
}

} // verus!
