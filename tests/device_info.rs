use linuxvideo::controls::{Cid, ControlDesc, CtrlType, TextMenuItem};
use linuxvideo::format::{
    DiscreteFrameInterval, DiscreteFrameSize, FrameIntervals, FrameSizes, MetaFormat, PixFormat,
    PixelFormat, StepwiseFrameIntervals, StepwiseFrameSizes,
};
use linuxvideo::raw;
use linuxvideo::shared::ControlFlags;
use linuxvideo::{BufType, BufTypes, Capabilities, CapabilityFlags, Fract};

fn padded<const N: usize>(text: &str) -> [u8; N] {
    let mut b = [0u8; N];
    b[..text.len()].copy_from_slice(text.as_bytes());
    b
}

fn caps(capabilities: u32, device_caps: u32) -> Capabilities {
    Capabilities(raw::Capabilities {
        driver: padded("uvcvideo"),
        card: [b'x'; 32],
        bus_info: padded("usb-0000:0a:00.3-2.1"),
        version: 1,
        capabilities: CapabilityFlags::from_bits(capabilities),
        device_caps: CapabilityFlags::from_bits(device_caps),
    })
}

#[test]
fn capability_strings() {
    let c = caps(0, 0);
    assert_eq!(c.driver(), Some("uvcvideo"));
    assert_eq!(c.bus_info(), Some("usb-0000:0a:00.3-2.1"));
    // No NUL terminator.
    assert_eq!(c.card(), None);
}

#[test]
fn invalid_utf8_name_is_rejected() {
    let mut name = [0u8; 32];
    name[0] = 0xff;
    let item = TextMenuItem { raw: raw::QueryMenu { id: 1, index: 3, name } };
    assert_eq!(item.name(), None);
    assert_eq!(item.index(), 3);
}

#[test]
fn device_capabilities_prefer_per_device_flags() {
    let all = CapabilityFlags::VIDEO_CAPTURE | CapabilityFlags::VIDEO_OUTPUT;
    let c = caps(all | CapabilityFlags::DEVICE_CAPS, CapabilityFlags::VIDEO_OUTPUT);
    assert_eq!(c.device_capabilities().bits(), CapabilityFlags::VIDEO_OUTPUT);
    assert_eq!(c.all_capabilities().bits(), all | CapabilityFlags::DEVICE_CAPS);
    let c = caps(all, CapabilityFlags::VIDEO_OUTPUT);
    assert_eq!(c.device_capabilities().bits(), all);
}

#[test]
fn buf_types_from_capabilities() {
    let flags = CapabilityFlags::from_bits(
        CapabilityFlags::VIDEO_CAPTURE | CapabilityFlags::META_CAPTURE | CapabilityFlags::STREAMING,
    );
    let types = BufTypes::from_capabilities(flags);
    assert_eq!(types.bits(), BufTypes::VIDEO_CAPTURE | BufTypes::META_CAPTURE);
    let mut it = types.iter();
    assert_eq!(it.next(), Some(BufType::VIDEO_CAPTURE));
    assert_eq!(it.next(), Some(BufType::META_CAPTURE));
    assert_eq!(it.next(), None);
    assert_eq!(BufType::META_CAPTURE.raw(), 13);
    assert_eq!(BufType::from_raw(2), Some(BufType::VIDEO_OUTPUT));
    assert_eq!(BufType::from_raw(15), None);
}

#[test]
fn control_descriptor() {
    let desc = ControlDesc(raw::QueryCtrl {
        id: Cid::BRIGHTNESS,
        type_: CtrlType::from_raw(CtrlType::INTEGER),
        name: padded("Brightness"),
        minimum: -64,
        maximum: 64,
        step: 1,
        default_value: 0,
        flags: ControlFlags::from_bits(ControlFlags::SLIDER),
    });
    assert_eq!(desc.id().raw(), 0x00980900);
    assert_eq!(desc.name(), Some("Brightness"));
    assert_eq!(desc.control_type().raw(), CtrlType::INTEGER);
    assert_eq!((desc.minimum(), desc.maximum(), desc.step()), (-64, 64, 1));
    assert_eq!(desc.default_value(), 0);
    assert!(desc.flags().contains(ControlFlags::SLIDER));
    assert!(!desc.flags().contains(ControlFlags::DISABLED));
}

#[test]
fn discrete_frame_size_extremes() {
    let size = |width, height, index| DiscreteFrameSize {
        raw: raw::FrmSizeDiscrete { width, height },
        index,
    };
    let sizes = FrameSizes::Discrete(vec![size(640, 480, 0), size(1920, 1080, 1), size(320, 720, 2)]);
    assert_eq!(sizes.min_width(), 320);
    assert_eq!(sizes.max_width(), 1920);
    assert_eq!(sizes.min_height(), 480);
    assert_eq!(sizes.max_height(), 1080);
}

#[test]
fn stepwise_frame_sizes() {
    let s = raw::FrmSizeStepwise {
        min_width: 16,
        max_width: 4096,
        step_width: 8,
        min_height: 16,
        max_height: 2160,
        step_height: 2,
    };
    let sizes = FrameSizes::Stepwise(StepwiseFrameSizes(s));
    assert_eq!((sizes.min_width(), sizes.max_width()), (16, 4096));
    assert_eq!((sizes.min_height(), sizes.max_height()), (16, 2160));
    let steps = StepwiseFrameSizes(s);
    assert_eq!((steps.step_width(), steps.step_height()), (8, 2));
}

#[test]
fn discrete_frame_interval_extremes() {
    let ival = |index, n, d| DiscreteFrameInterval { index, raw: Fract::new(n, d) };
    let list = FrameIntervals::Discrete(vec![ival(0, 1, 30), ival(1, 2, 60), ival(2, 1, 5), ival(3, 1, 60)]);
    let min = list.min();
    assert_eq!((min.numerator(), min.denominator()), (1, 60));
    let max = list.max();
    assert_eq!((max.numerator(), max.denominator()), (1, 5));
    // Of equal values, the minimum is the first and the maximum the last.
    let ties = FrameIntervals::Discrete(vec![ival(0, 1, 30), ival(1, 2, 60)]);
    assert_eq!(ties.min().numerator(), 1);
    assert_eq!(ties.max().numerator(), 2);
}

#[test]
fn stepwise_frame_intervals() {
    let s = raw::FrmIvalStepwise {
        min: Fract::new(1, 600),
        max: Fract::new(1, 1),
        step: Fract::new(1, 1),
    };
    let ivals = FrameIntervals::Continuous(StepwiseFrameIntervals(s));
    assert_eq!(ivals.min().denominator(), 600);
    assert_eq!(ivals.max().denominator(), 1);
    assert_eq!(StepwiseFrameIntervals(s).step().numerator(), 1);
}

#[test]
fn format_requests() {
    let f = PixFormat::new(1280, 720, PixelFormat::from_raw(PixelFormat::YUYV));
    assert_eq!((f.width(), f.height()), (1280, 720));
    assert_eq!(f.pixel_format().raw(), PixelFormat::YUYV);
    assert_eq!((f.bytes_per_line(), f.size_image()), (0, 0));
    let m = MetaFormat::new(PixelFormat::from_raw(PixelFormat::UVC));
    assert_eq!(m.buffer_size(), 0);
    assert_eq!(m.to_raw().dataformat.raw(), PixelFormat::UVC);
}

#[test]
fn frame_interval_text() {
    let ival = |index, n, d| DiscreteFrameInterval { index, raw: Fract::new(n, d) };
    let list = FrameIntervals::Discrete(vec![ival(0, 1, 30), ival(1, 1, 15), ival(2, 1, 5)]);
    assert_eq!(list.to_string(), "1/30, 1/15, 1/5");
    assert_eq!(FrameIntervals::Discrete(vec![]).to_string(), "");
    let s = raw::FrmIvalStepwise {
        min: Fract::new(1, 60),
        max: Fract::new(1, 5),
        step: Fract::new(1, 60),
    };
    assert_eq!(
        FrameIntervals::Stepwise(StepwiseFrameIntervals(s)).to_string(),
        "1/60-1/5 (step 1/60)"
    );
    assert_eq!(FrameIntervals::Continuous(StepwiseFrameIntervals(s)).to_string(), "1/60-1/5");
}
