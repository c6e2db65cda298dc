//! Text helpers over std's string functions.

use vstd::prelude::*;
use vstd::string::StringSliceAdditionalSpecFns;

verus! {

/// Printable ASCII other than the backslash and the two quotes is left as it is.
pub open spec fn is_plain_ascii(b: u8) -> bool {
    0x20 <= b <= 0x7e && b != 0x5c && b != 0x27 && b != 0x22
}

/// The lowercase hexadecimal digit of `d` (below 16).
pub open spec fn hex_char(d: nat) -> char {
    if d < 10 {
        (48 + d) as char
    } else {
        (87 + d) as char
    }
}

/// How `char::escape_default` writes the character with code `b`: tab, return, newline,
/// quotes and backslash as two-character escapes, other printable ASCII as it is, anything else
/// as `\u{..}` with the code in lowercase hexadecimal without leading zeros.
pub open spec fn escaped_byte(b: u8) -> Seq<char> {
    if b == 0x09 {
        seq!['\\', 't']
    } else if b == 0x0d {
        seq!['\\', 'r']
    } else if b == 0x0a {
        seq!['\\', 'n']
    } else if b == 0x27 || b == 0x22 || b == 0x5c {
        seq!['\\', b as char]
    } else if is_plain_ascii(b) {
        seq![b as char]
    } else {
        let digits = if b < 16 {
            seq![hex_char(b as nat)]
        } else {
            seq![hex_char((b / 16) as nat), hex_char((b % 16) as nat)]
        };
        seq!['\\', 'u', '{'] + digits + seq!['}']
    }
}

/// The character of decimal digit `d`.
pub open spec fn digit_char(d: nat) -> char {
    (48 + d) as char
}

/// The decimal notation of `v`, without leading zeros.
pub open spec fn decimal(v: nat) -> Seq<char>
    decreases v,
{
    if v < 10 {
        seq![digit_char(v)]
    } else {
        decimal(v / 10).push(digit_char(v % 10))
    }
}

/// Appends the decimal notation of `v`.
pub(crate) fn push_decimal(s: &mut String, v: u32)
    ensures
        final(s)@ == old(s)@ + decimal(v as nat),
    decreases v,
{
    if v >= 10 {
        push_decimal(s, v / 10);
    }
    let d: u8 = (v % 10) as u8;
    push_char(s, (48u8 + d) as char);
    proof {
        assert(old(s)@ + decimal(v as nat) =~= if v >= 10 {
            old(s)@ + decimal((v / 10) as nat) + seq![digit_char((v % 10) as nat)]
        } else {
            old(s)@ + seq![digit_char(v as nat)]
        });
    }
}

/// Relies on `String::push`: appends one character.
#[verifier::external_body]
pub(crate) fn push_char(s: &mut String, c: char)
    ensures
        final(s)@ == old(s)@.push(c),
{
    s.push(c)
}

/// Relies on `String::push_str`: appends a string.
#[verifier::external_body]
pub(crate) fn push_str(s: &mut String, t: &str)
    ensures
        final(s)@ == old(s)@ + t@,
{
    s.push_str(t)
}

/// Relies on `char::escape_default`, applied to the character with code `b`, whose escape is
/// collected into a `String`.
#[verifier::external_body]
pub(crate) fn escape_byte(b: u8) -> (r: String)
    ensures
        r@ == escaped_byte(b),
{
    (b as char).escape_default().to_string()
}

/// Relies on `std::str::from_utf8`: succeeds exactly on valid UTF-8, whose text it returns.
#[verifier::external_body]
pub(crate) fn str_from_utf8(b: &[u8]) -> (r: Option<&str>)
    ensures
        r is Some <==> vstd::utf8::valid_utf8(b@),
        r matches Some(s) ==> s.spec_bytes() == b@,
{
    std::str::from_utf8(b).ok()
}

} // verus!
