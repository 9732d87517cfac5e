use wlcapture::frame::{
    DmabufFrame, FrameEvent, FrameFormat, FRAME_FAILED, FRAME_PENDING, FRAME_READY,
};

fn frame_header() -> FrameEvent {
    FrameEvent::Frame {
        width: 1920,
        height: 1080,
        format: 0x34325241,
        mod_high: 1,
        mod_low: 2,
        num_objects: 2,
    }
}

#[test]
fn protocol_sequence_reaches_ready() {
    let mut f = DmabufFrame::new();
    f.handle_event(frame_header());
    f.handle_event(FrameEvent::Object { index: 0, fd: 30, offset: 0, stride: 7680 });
    f.handle_event(FrameEvent::Object { index: 1, fd: 31, offset: 64, stride: 7680 });
    f.handle_event(FrameEvent::Ready);

    assert_eq!(f.status, FRAME_READY);
    assert_eq!(f.num_planes, 2);
    assert_eq!(f.planes[0].fd, 30);
    assert_eq!(f.planes[1].fd, 31);
    assert!(f.planes[0].fd != f.planes[1].fd);
    assert!(f.planes[0].fd >= 0 && f.planes[1].fd >= 0);
    assert_eq!(f.fmt.w, 1920);
    assert_eq!(f.fmt.h, 1080);
    assert_eq!(f.fmt.modifier, (1u64 << 32) + 2);
}

#[test]
fn cancel_after_objects_yields_failed() {
    let mut f = DmabufFrame::new();
    f.handle_event(frame_header());
    f.handle_event(FrameEvent::Object { index: 0, fd: 30, offset: 0, stride: 7680 });
    f.handle_event(FrameEvent::Cancel);

    assert_eq!(f.status, FRAME_FAILED);
    assert!(f.status != FRAME_READY);
}

#[test]
fn cancel_without_objects_yields_failed() {
    let mut f = DmabufFrame::new();
    f.handle_event(FrameEvent::Cancel);
    assert_eq!(f.status, FRAME_FAILED);
}

#[test]
fn events_on_terminal_record_change_nothing() {
    let mut f = DmabufFrame::new();
    f.handle_event(frame_header());
    f.handle_event(FrameEvent::Object { index: 0, fd: 30, offset: 0, stride: 7680 });
    f.handle_event(FrameEvent::Ready);
    assert_eq!(f.status, FRAME_READY);

    f.handle_event(FrameEvent::Cancel);
    assert_eq!(f.status, FRAME_READY);

    f.handle_event(FrameEvent::Object { index: 1, fd: 77, offset: 0, stride: 4 });
    assert_eq!(f.num_planes, 1);
    assert_eq!(f.planes[1].fd, -1);

    f.handle_event(FrameEvent::Frame {
        width: 1,
        height: 1,
        format: 9,
        mod_high: 9,
        mod_low: 9,
        num_objects: 0,
    });
    assert_eq!(f.fmt.w, 1920);
}

#[test]
fn object_events_cap_at_four_planes() {
    let mut f = DmabufFrame::new();
    f.handle_event(frame_header());
    for k in 0..6u32 {
        f.handle_event(FrameEvent::Object { index: k, fd: 40 + k as i32, offset: 0, stride: 16 });
    }
    assert_eq!(f.status, FRAME_PENDING);
    assert_eq!(f.num_planes, 4);
    assert_eq!(f.planes[3].fd, 43);
}

#[test]
fn modifier_halves_round_trip() {
    let mut fmt = FrameFormat::new();
    fmt.set_mod(0x1234_5678, 0x9ABC_DEF0);
    assert_eq!(fmt.modifier, 0x1234_5678_9ABC_DEF0);
    assert_eq!(fmt.get_mod_hi(), 0x1234_5678);
    assert_eq!(fmt.get_mod_lo(), 0x9ABC_DEF0);
}

#[test]
fn get_attribs_lists_header_planes_and_sentinel() {
    let mut f = DmabufFrame::new();
    f.handle_event(FrameEvent::Frame {
        width: 1920,
        height: 1080,
        format: 0x34325241,
        mod_high: 1,
        mod_low: 2,
        num_objects: 1,
    });
    f.handle_event(FrameEvent::Object { index: 0, fd: 5, offset: 0, stride: 7680 });
    f.handle_event(FrameEvent::Ready);

    let attribs = f.get_attribs();
    let expected: Vec<isize> = vec![
        0x3057, 1920, 0x3056, 1080, 0x3271, 0x34325241, // width, height, fourcc
        0x3272, 5, 0x3273, 0, 0x3274, 7680, 0x3443, 2, 0x3444, 1, // plane 0
        0x3038, // sentinel
    ];
    assert_eq!(attribs, expected);
}

#[test]
fn is_valid_needs_a_positive_descriptor() {
    let mut f = DmabufFrame::new();
    assert!(!f.is_valid());
    f.handle_event(frame_header());
    f.handle_event(FrameEvent::Object { index: 0, fd: 0, offset: 0, stride: 4 });
    assert!(!f.is_valid());
    f.handle_event(FrameEvent::Object { index: 1, fd: 12, offset: 0, stride: 4 });
    assert!(f.is_valid());
}

#[test]
fn release_fds_surrenders_each_descriptor_once() {
    let mut f = DmabufFrame::new();
    f.handle_event(frame_header());
    f.handle_event(FrameEvent::Object { index: 0, fd: 21, offset: 0, stride: 4 });
    f.handle_event(FrameEvent::Object { index: 1, fd: 22, offset: 8, stride: 4 });
    f.handle_event(FrameEvent::Ready);

    let fds = f.release_fds();
    assert_eq!(fds, vec![21, 22]);
    assert_eq!(f.planes[0].fd, -1);
    assert_eq!(f.planes[1].fd, -1);
    assert_eq!(f.planes[1].offset, 8);

    let again = f.release_fds();
    assert!(again.is_empty());
}
