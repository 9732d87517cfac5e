use wlcapture::dmabuf::{
    bgra_internal_format, plan_import, render_pipewire_frame, DmabufFrameFormat, ImportAction,
    GL_BGRA, GL_BGRA8_EXT, GL_RGBA, GL_RGBA8,
};
use wlcapture::frame::{
    DmabufFrame, FrameEvent, FrameFormat, FramePlane, MemFdFrame, MemPtrFrame,
    DRM_FORMAT_ABGR8888, DRM_FORMAT_ARGB8888,
};
use wlcapture::pw::{
    handle_process, FrameSlot, PipewireFrame, PwBufferPlane, PwDataType,
};

fn fmt_1080p(code: u32) -> FrameFormat {
    let mut f = FrameFormat::new();
    f.w = 1920;
    f.h = 1080;
    f.format = code;
    f
}

#[test]
fn vendor_string_picks_the_internal_format() {
    assert_eq!(bgra_internal_format(b"NVIDIA Corporation"), GL_BGRA8_EXT);
    assert_eq!(bgra_internal_format(b"Mesa/X.org NVIDIA tail"), GL_BGRA8_EXT);
    assert_eq!(bgra_internal_format(b"AMD"), GL_RGBA8);
    assert_eq!(bgra_internal_format(b"Intel Open Source Technology Center"), GL_RGBA8);
    assert_eq!(bgra_internal_format(b""), GL_RGBA8);
    assert_eq!(bgra_internal_format(b"NVIDI"), GL_RGBA8);
}

#[test]
fn import_descriptor_modifier_halves_round_trip() {
    let mut fmt = DmabufFrameFormat { width: 1, height: 1, format: 0, modifier: 0 };
    fmt.set_mod(0xAABB_CCDD, 0x1122_3344);
    assert_eq!(fmt.modifier, 0xAABB_CCDD_1122_3344);
    assert_eq!(fmt.get_mod_hi(), 0xAABB_CCDD);
    assert_eq!(fmt.get_mod_lo(), 0x1122_3344);
}

#[test]
fn memfd_frame_plans_a_sized_upload() {
    let frame = PipewireFrame::MemFd(MemFdFrame {
        fmt: fmt_1080p(DRM_FORMAT_ARGB8888),
        plane: FramePlane { fd: 9, offset: 0, stride: 7680 },
    });
    match plan_import(&frame, GL_BGRA8_EXT) {
        ImportAction::UploadFd { fd, size, width, height, internal, external } => {
            assert_eq!(fd, 9);
            assert_eq!(size, 7680 * 1080);
            assert_eq!((width, height), (1920, 1080));
            assert_eq!((internal, external), (GL_BGRA8_EXT, GL_BGRA));
        },
        _ => panic!("a usable shared-memory frame must plan an upload"),
    }
}

#[test]
fn memfd_frame_without_descriptor_is_skipped() {
    let frame = PipewireFrame::MemFd(MemFdFrame {
        fmt: fmt_1080p(DRM_FORMAT_ARGB8888),
        plane: FramePlane { fd: -1, offset: 0, stride: 7680 },
    });
    assert!(matches!(plan_import(&frame, GL_RGBA8), ImportAction::Skip));
}

#[test]
fn unknown_fourcc_is_skipped() {
    let frame = PipewireFrame::MemPtr(MemPtrFrame { fmt: fmt_1080p(0x1234), ptr: 800 });
    assert!(matches!(plan_import(&frame, GL_RGBA8), ImportAction::Skip));
}

#[test]
fn memptr_frame_plans_a_direct_upload() {
    let frame = PipewireFrame::MemPtr(MemPtrFrame { fmt: fmt_1080p(DRM_FORMAT_ABGR8888), ptr: 4096 });
    match plan_import(&frame, GL_BGRA8_EXT) {
        ImportAction::UploadPtr { ptr, width, height, internal, external } => {
            assert_eq!(ptr, 4096);
            assert_eq!((width, height), (1920, 1080));
            assert_eq!((internal, external), (GL_RGBA8, GL_RGBA));
        },
        _ => panic!("a raw-pointer frame must plan a direct upload"),
    }
}

#[test]
fn dmabuf_frame_plans_an_image_attach() {
    let mut f = DmabufFrame::new();
    f.handle_event(FrameEvent::Frame {
        width: 640,
        height: 480,
        format: DRM_FORMAT_ARGB8888,
        mod_high: 0,
        mod_low: 0,
        num_objects: 1,
    });
    f.handle_event(FrameEvent::Object { index: 0, fd: 12, offset: 0, stride: 2560 });
    f.handle_event(FrameEvent::Ready);
    let attribs = f.get_attribs();

    match plan_import(&PipewireFrame::Dmabuf(f), GL_RGBA8) {
        ImportAction::AttachImage { attribs: got } => assert_eq!(got, attribs),
        _ => panic!("a valid zero-copy frame must plan an image attach"),
    }
}

#[test]
fn dmabuf_frame_without_descriptors_is_skipped() {
    let f = DmabufFrame::new();
    assert!(matches!(plan_import(&PipewireFrame::Dmabuf(f), GL_RGBA8), ImportAction::Skip));
}

#[test]
fn process_callback_before_negotiation_is_skipped() {
    let planes = vec![vec![PwBufferPlane {
        data_type: PwDataType::MemPtr,
        fd: -1,
        ptr: 64,
        offset: 0,
        stride: 256,
    }]];
    assert!(handle_process(&None, planes).is_none());
}

#[test]
fn process_keeps_only_the_freshest_buffer() {
    let fmt = fmt_1080p(DRM_FORMAT_ABGR8888);
    let stale = vec![PwBufferPlane {
        data_type: PwDataType::MemPtr,
        fd: -1,
        ptr: 111,
        offset: 0,
        stride: 256,
    }];
    let fresh = vec![PwBufferPlane {
        data_type: PwDataType::MemPtr,
        fd: -1,
        ptr: 222,
        offset: 0,
        stride: 256,
    }];
    match handle_process(&Some(fmt), vec![stale, fresh]) {
        Some(PipewireFrame::MemPtr(p)) => assert_eq!(p.ptr, 222),
        _ => panic!("the freshest buffer must win"),
    }
}

#[test]
fn process_classifies_dmabuf_planes() {
    let fmt = fmt_1080p(DRM_FORMAT_ARGB8888);
    let datas = vec![
        PwBufferPlane { data_type: PwDataType::DmaBuf, fd: 31, ptr: 0, offset: 0, stride: 7680 },
        PwBufferPlane { data_type: PwDataType::DmaBuf, fd: 32, ptr: 0, offset: 64, stride: 7680 },
    ];
    match handle_process(&Some(fmt), vec![datas]) {
        Some(PipewireFrame::Dmabuf(f)) => {
            assert_eq!(f.num_planes, 2);
            assert_eq!(f.planes[0].fd, 31);
            assert_eq!(f.planes[1].fd, 32);
            assert_eq!(f.planes[1].offset, 64);
            assert_eq!(f.fmt, fmt);
        },
        _ => panic!("zero-copy planes must become a zero-copy frame"),
    }
}

#[test]
fn scenario_consumer_observes_only_the_second_frame() {
    // two data-ready callbacks publish before one consumer read
    let mut slot = FrameSlot::new();
    slot.publish(PipewireFrame::MemPtr(MemPtrFrame { fmt: fmt_1080p(DRM_FORMAT_ABGR8888), ptr: 1 }));
    slot.publish(PipewireFrame::MemPtr(MemPtrFrame { fmt: fmt_1080p(DRM_FORMAT_ABGR8888), ptr: 2 }));

    match slot.take() {
        Some(PipewireFrame::MemPtr(p)) => assert_eq!(p.ptr, 2),
        _ => panic!("the slot must hold the second frame"),
    }
    assert!(slot.take().is_none());
}

#[test]
fn render_tick_consumes_the_slot() {
    let mut slot = FrameSlot::new();
    assert!(matches!(render_pipewire_frame(&mut slot, GL_RGBA8), ImportAction::Skip));

    slot.publish(PipewireFrame::MemPtr(MemPtrFrame { fmt: fmt_1080p(DRM_FORMAT_ABGR8888), ptr: 77 }));
    match render_pipewire_frame(&mut slot, GL_RGBA8) {
        ImportAction::UploadPtr { ptr, .. } => assert_eq!(ptr, 77),
        _ => panic!("a published frame must be planned"),
    }
    assert!(matches!(render_pipewire_frame(&mut slot, GL_RGBA8), ImportAction::Skip));
}
