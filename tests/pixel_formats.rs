use linuxvideo::format::PixelFormat;
use linuxvideo::uvc::UvcMetadata;
use linuxvideo::Pixelformat;

#[test]
fn pixel_format_simple() {
    assert_eq!(PixelFormat::from_raw(PixelFormat::RGBA32).to_string(), "AB24");
}

#[test]
fn pixelformat_simple() {
    assert_eq!(Pixelformat::from_raw(Pixelformat::RGBA32).to_string(), "AB24");
}

#[test]
fn fourcc_round_trip() {
    let f = PixelFormat::from_fourcc(*b"YUYV");
    assert_eq!(f.raw(), PixelFormat::YUYV);
    assert_eq!(f.as_fourcc(), *b"YUYV");
    assert_eq!(PixelFormat::from_fourcc(*b"MJPG").raw(), PixelFormat::MJPG);
}

#[test]
fn pixel_format_escapes_unprintable_bytes() {
    let f = PixelFormat::from_fourcc([b'A', b'\n', b'\\', 0x01]);
    assert_eq!(f.to_string(), "A\\n\\\\\\u{1}");
}

#[test]
fn uvc_metadata_is_zero_padded() {
    let m = UvcMetadata::from_bytes(&[1, 2, 3]);
    let mut expected = [0u8; UvcMetadata::MAX_SIZE];
    expected[..3].copy_from_slice(&[1, 2, 3]);
    assert_eq!(m.as_bytes(), &expected);
}

#[test]
fn pixel_format_escapes_quotes_and_controls() {
    let f = PixelFormat::from_fourcc([b'"', b'\t', b'\'', 0xff]);
    assert_eq!(f.to_string(), "\\\"\\t\\'\\u{ff}");
}
