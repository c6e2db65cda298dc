use linuxvideo::controls::{Cid, ControlDesc, CtrlType};
use linuxvideo::enumeration::{
    Collect, ControlCursor, FrameIntervalCollector, FrameSizeCollector, IndexCursor, MenuCursor,
    CONTROL_FLAGS_NEXT_CTRL, EINVAL, EPROTO,
};
use linuxvideo::format::{FrameIntervals, FrameSizes, PixelFormat};
use linuxvideo::raw;
use linuxvideo::shared::{ControlFlags, FrmIvalType, FrmSizeType};
use linuxvideo::Fract;

fn ctrl(id: u32, flags: u32) -> raw::QueryCtrl {
    raw::QueryCtrl {
        id,
        type_: CtrlType::from_raw(CtrlType::MENU),
        name: [0; 32],
        minimum: 1,
        maximum: 3,
        step: 1,
        default_value: 1,
        flags: ControlFlags::from_bits(flags),
    }
}

fn size(type_: u32, width: u32, height: u32) -> raw::FrmSizeEnum {
    raw::FrmSizeEnum {
        index: 0,
        pixel_format: PixelFormat::from_raw(PixelFormat::YUYV),
        type_: FrmSizeType::from_raw(type_),
        discrete: raw::FrmSizeDiscrete { width, height },
        stepwise: raw::FrmSizeStepwise {
            min_width: 1,
            max_width: width,
            step_width: 1,
            min_height: 1,
            max_height: height,
            step_height: 1,
        },
    }
}

fn interval(type_: u32, n: u32, d: u32) -> raw::FrmIvalEnum {
    raw::FrmIvalEnum {
        index: 0,
        pixel_format: PixelFormat::from_raw(PixelFormat::YUYV),
        width: 640,
        height: 480,
        type_: FrmIvalType::from_raw(type_),
        discrete: Fract::new(n, d),
        stepwise: raw::FrmIvalStepwise {
            min: Fract::new(1, 60),
            max: Fract::new(1, 5),
            step: Fract::new(1, 60),
        },
    }
}

#[test]
fn index_cursor_ends_on_einval() {
    let mut c = IndexCursor::new();
    assert_eq!(c.query(), Some(0));
    assert_eq!(c.handle(Ok("a")), Some(Ok("a")));
    assert_eq!(c.query(), Some(1));
    assert_eq!(c.handle::<&str>(Err(EINVAL)), None);
    assert_eq!(c.query(), None);
}

#[test]
fn index_cursor_reports_other_errors_once() {
    let mut c = IndexCursor::new();
    assert_eq!(c.handle::<u8>(Err(5)), Some(Err(5)));
    assert_eq!(c.query(), None);
}

#[test]
fn control_walk_with_next_ctrl_flag() {
    let mut c = ControlCursor::new();
    assert_eq!(c.query(), Some(Cid::BASE | CONTROL_FLAGS_NEXT_CTRL));
    let found = c.handle(Ok(ctrl(Cid::CONTRAST, 0)));
    assert_eq!(found.unwrap().unwrap().id().raw(), Cid::CONTRAST);
    assert_eq!(c.query(), Some(Cid::CONTRAST | CONTROL_FLAGS_NEXT_CTRL));
    // A disabled control is skipped.
    assert!(c.handle(Ok(ctrl(Cid::HUE, ControlFlags::DISABLED))).is_none());
    assert_eq!(c.query(), Some(Cid::HUE | CONTROL_FLAGS_NEXT_CTRL));
}

#[test]
fn control_walk_falls_back_to_probing() {
    let mut c = ControlCursor::new();
    assert!(c.handle(Err(EINVAL)).is_none());
    assert_eq!(c.query(), Some(Cid::BASE + 1));
    assert!(c.handle(Err(EINVAL)).is_none());
    assert_eq!(c.query(), Some(Cid::BASE + 2));
    let d: ControlDesc = c.handle(Ok(ctrl(Cid::SATURATION, 0))).unwrap().unwrap();
    assert_eq!(d.id().raw(), Cid::SATURATION);
    assert_eq!(c.query(), Some(Cid::BASE + 3));
}

#[test]
fn control_walk_stops_after_last_user_control() {
    let mut c = ControlCursor::new();
    assert!(c.handle(Ok(ctrl(Cid::COLORFX_CBCR, 0))).is_some());
    assert!(c.handle(Err(EINVAL)).is_none());
    assert_eq!(c.query(), None);
}

#[test]
fn control_walk_error_ends_it() {
    let mut c = ControlCursor::new();
    assert!(matches!(c.handle(Err(13)), Some(Err(13))));
    assert_eq!(c.query(), None);
}

#[test]
fn menu_walk_skips_unknown_indices() {
    let desc = ControlDesc(ctrl(Cid::POWER_LINE_FREQUENCY, 0));
    let mut m = MenuCursor::new(&desc);
    assert_eq!(m.cid(), Cid::POWER_LINE_FREQUENCY);
    assert_eq!(m.query(), Some(1));
    assert!(m.handle(Err(EINVAL)).is_none());
    assert_eq!(m.query(), Some(2));
    let item = raw::QueryMenu { id: Cid::POWER_LINE_FREQUENCY, index: 2, name: [0; 32] };
    assert_eq!(m.handle(Ok(item)).unwrap().unwrap().index(), 2);
    assert_eq!(m.query(), Some(3));
    assert!(matches!(m.handle(Err(5)), Some(Err(5))));
    assert_eq!(m.query(), None);
}

#[test]
fn discrete_frame_sizes_are_collected() {
    let mut c = FrameSizeCollector::new();
    assert_eq!(c.next_index(), 0);
    assert!(matches!(c.handle(Ok(size(FrmSizeType::DISCRETE, 640, 480))), Collect::Query(1)));
    assert!(matches!(c.handle(Ok(size(FrmSizeType::DISCRETE, 1280, 720))), Collect::Query(2)));
    match c.handle(Err(EINVAL)) {
        Collect::Done(Ok(FrameSizes::Discrete(v))) => {
            assert_eq!(v.len(), 2);
            assert_eq!((v[1].width(), v[1].height(), v[1].index()), (1280, 720, 1));
        }
        _ => panic!("expected discrete sizes"),
    }
}

#[test]
fn stepwise_frame_sizes_end_at_once() {
    let mut c = FrameSizeCollector::new();
    match c.handle(Ok(size(FrmSizeType::STEPWISE, 1920, 1080))) {
        Collect::Done(Ok(FrameSizes::Stepwise(s))) => assert_eq!(s.max_width(), 1920),
        _ => panic!("expected a stepwise range"),
    }
    let mut c = FrameSizeCollector::new();
    assert!(matches!(
        c.handle(Ok(size(FrmSizeType::CONTINUOUS, 8, 8))),
        Collect::Done(Ok(FrameSizes::Continuous(_)))
    ));
}

#[test]
fn frame_size_errors() {
    let mut c = FrameSizeCollector::new();
    assert!(matches!(c.handle(Err(EINVAL)), Collect::Done(Err(EINVAL))));
    let mut c = FrameSizeCollector::new();
    assert!(matches!(c.handle(Ok(size(9, 1, 1))), Collect::Done(Err(EPROTO))));
    let mut c = FrameSizeCollector::new();
    c.handle(Ok(size(FrmSizeType::DISCRETE, 1, 1)));
    assert!(matches!(c.handle(Ok(size(FrmSizeType::STEPWISE, 1, 1))), Collect::Done(Err(EPROTO))));
}

#[test]
fn frame_intervals_are_collected() {
    let mut c = FrameIntervalCollector::new();
    assert!(matches!(c.handle(Ok(interval(FrmIvalType::DISCRETE, 1, 30))), Collect::Query(1)));
    assert!(matches!(c.handle(Ok(interval(FrmIvalType::DISCRETE, 1, 15))), Collect::Query(2)));
    match c.handle(Err(EINVAL)) {
        Collect::Done(Ok(list)) => {
            assert_eq!(list.min().denominator(), 30);
            assert_eq!(list.max().denominator(), 15);
        }
        _ => panic!("expected discrete intervals"),
    }
}

#[test]
fn unknown_interval_kind_gives_fallback_range() {
    let mut c = FrameIntervalCollector::new();
    match c.handle(Ok(interval(0, 1, 1))) {
        Collect::Done(Ok(FrameIntervals::Continuous(s))) => {
            assert_eq!((s.min().numerator(), s.min().denominator()), (1, 600));
            assert_eq!((s.max().numerator(), s.max().denominator()), (1, 1));
            assert_eq!((s.step().numerator(), s.step().denominator()), (1, 1));
        }
        _ => panic!("expected the fallback range"),
    }
    let mut c = FrameIntervalCollector::new();
    assert!(matches!(
        c.handle(Ok(interval(FrmIvalType::STEPWISE, 1, 1))),
        Collect::Done(Ok(FrameIntervals::Stepwise(_)))
    ));
}
