//! Four character codes of pixel formats, in the form older releases used.

use vstd::prelude::*;

use crate::pixel_format::{fourcc_bytes, fourcc_from_bytes, fourcc_to_bytes, fourcc_value};
use crate::text::push_char;

verus! {

/// The four bytes of the fourcc code `v`, each taken as a character.
pub open spec fn fourcc_chars(v: u32) -> Seq<char> {
    let b = fourcc_bytes(v);
    seq![b[0] as char, b[1] as char, b[2] as char, b[3] as char]
}

/// Four character code (fourcc) defining the encoding of pixel data in an image buffer.
///
/// The associated constants are the codes of common formats; [`Pixelformat::from_raw`] turns
/// one into a `Pixelformat`.
#[derive(Clone, Copy, PartialEq, Eq, Structural, Debug)]
pub struct Pixelformat {
    code: u32,
}

impl View for Pixelformat {
    type V = u32;

    closed spec fn view(&self) -> u32 {
        self.code
    }
}

impl Pixelformat {
    /// **`BGR3`** `bbbbbbbb gggggggg rrrrrrrr`
    pub const BGR3: u32 = 0x33524742;
    /// **`RGB3`** `rrrrrrrr gggggggg bbbbbbbb`
    pub const RGB3: u32 = 0x33424752;
    /// **`AR24`**: `bbbbbbbb gggggggg rrrrrrrr aaaaaaaa`
    pub const ABGR32: u32 = 0x34325241;
    /// **`XR24`**: `bbbbbbbb gggggggg rrrrrrrr xxxxxxxx`
    pub const XBGR32: u32 = 0x34325258;
    /// **`RA24`**: `aaaaaaaa bbbbbbbb gggggggg rrrrrrrr`
    pub const BGRA32: u32 = 0x34324152;
    /// **`RX24`**: `xxxxxxxx bbbbbbbb gggggggg rrrrrrrr`
    pub const BGRX32: u32 = 0x34325852;
    /// **`AB24`**: `rrrrrrrr gggggggg bbbbbbbb aaaaaaaa`
    pub const RGBA32: u32 = 0x34324241;
    /// **`XB24`**: `rrrrrrrr gggggggg bbbbbbbb xxxxxxxx`
    pub const RGBX32: u32 = 0x34324258;
    /// **`BA24`**: `aaaaaaaa rrrrrrrr gggggggg bbbbbbbb`
    pub const ARGB32: u32 = 0x34324142;
    /// **`BX24`**: `xxxxxxxx rrrrrrrr gggggggg bbbbbbbb`
    pub const XRGB32: u32 = 0x34325842;
    /// **`BGR4`**: `bbbbbbbb gggggggg rrrrrrrr ????????` **DEPRECATED**
    pub const BGR32: u32 = 0x34524742;
    /// **`RGB4`**: `???????? rrrrrrrr gggggggg bbbbbbbb` **DEPRECATED**
    pub const RGB32: u32 = 0x34424752;
    /// **`YUYV`**: packed YUV 4:2:2.
    pub const YUYV: u32 = 0x56595559;
    /// **`MJPG`**: Motion JPEG.
    pub const MJPG: u32 = 0x47504a4d;
    /// **`JPEG`**: JFIF JPEG still images.
    pub const JPEG: u32 = 0x4745504a;
    /// **`UVCH`**: UVC payload header metadata.
    pub const UVC: u32 = 0x48435655;

    /// The pixel format with the code `code`.
    pub fn from_raw(code: u32) -> (r: Self)
        ensures
            r@ == code,
    {
        Pixelformat { code }
    }

    /// Returns the code of this pixel format.
    pub fn raw(&self) -> (r: u32)
        ensures
            r == self@,
    {
        self.code
    }

    /// Creates a [`Pixelformat`] from a *fourcc* code.
    pub fn from_fourcc(fourcc: [u8; 4]) -> (r: Self)
        ensures
            r@ == fourcc_value(fourcc@),
    {
        Pixelformat { code: fourcc_from_bytes(fourcc) }
    }

    /// Returns the *fourcc* code represented by `self`.
    pub fn as_fourcc(self) -> (r: [u8; 4])
        ensures
            r@ == fourcc_bytes(self@),
    {
        fourcc_to_bytes(self.code)
    }

    /// The four bytes of the code, each taken as a character.
    pub fn to_string(&self) -> (r: String)
        ensures
            r@ == fourcc_chars(self@),
    {
        let b: [u8; 4] = fourcc_to_bytes(self.code);
        let mut s: String = String::new();
        push_char(&mut s, b[0] as char);
        push_char(&mut s, b[1] as char);
        push_char(&mut s, b[2] as char);
        push_char(&mut s, b[3] as char);
        s
    }
}

} // verus!
