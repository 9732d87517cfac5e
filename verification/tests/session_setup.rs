use wlcapture::capture::{
    poll_dmabuf_capture, poll_screencopy_capture, select_backend, BackendChoice, PollDecision,
    TaskState,
};
use wlcapture::frame::{
    DrmFormat, FRAME_FAILED, FRAME_PENDING, FRAME_READY, DRM_FORMAT_ABGR8888, DRM_FORMAT_ARGB8888,
    DRM_FORMAT_XRGB8888,
};
use wlcapture::gl::{GlTexture, GL_SRGB8_ALPHA8, GL_TEXTURE_2D};
use wlcapture::loader::{build_capability_list, filter_wanted_formats, LoaderState};
use wlcapture::pw::PipewireCapture;
use wlcapture::screencopy::{ScreencopyAction, ScreencopyEvent, ScreencopyFrame};

#[test]
fn backend_preference_order_and_fallthrough() {
    assert_eq!(select_backend("auto", true, true), BackendChoice::ExportDmabuf);
    assert_eq!(select_backend("auto", false, true), BackendChoice::Screencopy);
    assert_eq!(select_backend("auto", false, false), BackendChoice::Pipewire { allow_dmabuf: true });
    assert_eq!(select_backend("pw", true, true), BackendChoice::Pipewire { allow_dmabuf: true });
    assert_eq!(
        select_backend("pw-fallback", true, true),
        BackendChoice::Pipewire { allow_dmabuf: false },
    );
}

#[test]
fn capability_filter_keeps_only_importable_formats() {
    let queried = vec![0x1111_2222, DRM_FORMAT_ARGB8888, 7, DRM_FORMAT_ABGR8888];
    assert_eq!(
        filter_wanted_formats(&queried),
        vec![DRM_FORMAT_ARGB8888, DRM_FORMAT_ABGR8888],
    );
}

#[test]
fn zero_queried_formats_yield_an_empty_capability_list() {
    let no_formats: Vec<u32> = vec![];
    assert!(filter_wanted_formats(&no_formats).is_empty());
    assert!(build_capability_list(vec![]).is_empty());
}

#[test]
fn capability_list_keeps_order_and_modifiers() {
    let caps = build_capability_list(vec![
        (DRM_FORMAT_ARGB8888, vec![1, 2, 3]),
        (DRM_FORMAT_XRGB8888, vec![]),
    ]);
    assert_eq!(
        caps,
        vec![
            DrmFormat { code: DRM_FORMAT_ARGB8888, modifiers: vec![1, 2, 3] },
            DrmFormat { code: DRM_FORMAT_XRGB8888, modifiers: vec![] },
        ],
    );
}

#[test]
fn loader_falls_back_to_the_context_display() {
    let mut l = LoaderState::new();
    assert!(!l.can_query_formats());
    l.init(10, 20, 0, 1, 2, 3, 4, 5, 6, 7);
    assert_eq!(l.display_native, 20);
    assert!(l.can_query_formats());

    let mut l2 = LoaderState::new();
    l2.init(10, 20, 30, 1, 2, 3, 4, 5, 0, 0);
    assert_eq!(l2.display_native, 30);
    // missing query entry points degrade to CPU upload, not an error
    assert!(!l2.can_query_formats());
}

#[test]
fn scenario_screencopy_frame_reaches_ready_with_pool() {
    let mut f = ScreencopyFrame::new();
    let a1 = f.handle_event(ScreencopyEvent::Buffer {
        format: DRM_FORMAT_XRGB8888,
        width: 1920,
        height: 1080,
        stride: 7680,
    });
    assert_eq!(a1, ScreencopyAction::CreatePool { size: 7680 * 1080 });
    f.attach_shm_fd(23);

    let a2 = f.handle_event(ScreencopyEvent::BufferDone);
    assert_eq!(a2, ScreencopyAction::IssueCopy);

    let a3 = f.handle_event(ScreencopyEvent::Ready);
    assert_eq!(a3, ScreencopyAction::Destroy);

    assert_eq!(f.status, FRAME_READY);
    assert_eq!(f.size, 7680 * 1080);
    assert!(f.fd >= 0);
}

#[test]
fn screencopy_failure_and_terminal_silence() {
    let mut f = ScreencopyFrame::new();
    f.handle_event(ScreencopyEvent::Buffer {
        format: DRM_FORMAT_XRGB8888,
        width: 8,
        height: 8,
        stride: 32,
    });
    assert_eq!(f.handle_event(ScreencopyEvent::Damage), ScreencopyAction::Destroy);
    assert_eq!(f.status, FRAME_FAILED);

    // terminal record: further events neither act nor mutate
    assert_eq!(f.handle_event(ScreencopyEvent::Ready), ScreencopyAction::Ignore);
    assert_eq!(f.status, FRAME_FAILED);

    assert_eq!(f.release_fd(), None);
}

#[test]
fn screencopy_buffer_done_before_buffer_is_ignored() {
    let mut f = ScreencopyFrame::new();
    assert_eq!(f.handle_event(ScreencopyEvent::BufferDone), ScreencopyAction::Ignore);
}

#[test]
fn screencopy_descriptor_leaves_exactly_once() {
    let mut f = ScreencopyFrame::new();
    f.handle_event(ScreencopyEvent::Buffer {
        format: DRM_FORMAT_XRGB8888,
        width: 4,
        height: 4,
        stride: 16,
    });
    f.attach_shm_fd(40);
    assert_eq!(f.release_fd(), Some(40));
    assert_eq!(f.release_fd(), None);
    assert_eq!(f.fd, -1);
}

#[test]
fn render_tick_decisions() {
    assert_eq!(poll_dmabuf_capture(TaskState::Running, FRAME_PENDING, false), PollDecision::Wait);
    assert_eq!(poll_dmabuf_capture(TaskState::NoTask, FRAME_PENDING, false), PollDecision::Request);
    assert_eq!(
        poll_dmabuf_capture(TaskState::Finished, FRAME_READY, true),
        PollDecision::ImportAndRequest,
    );
    assert_eq!(
        poll_dmabuf_capture(TaskState::Finished, FRAME_READY, false),
        PollDecision::DiscardAndRequest,
    );
    assert_eq!(
        poll_dmabuf_capture(TaskState::Finished, FRAME_FAILED, true),
        PollDecision::DiscardAndRequest,
    );

    assert_eq!(poll_screencopy_capture(false, FRAME_PENDING), PollDecision::Request);
    assert_eq!(poll_screencopy_capture(true, FRAME_PENDING), PollDecision::Wait);
    assert_eq!(poll_screencopy_capture(true, FRAME_READY), PollDecision::ImportAndRequest);
    assert_eq!(poll_screencopy_capture(true, FRAME_FAILED), PollDecision::DiscardAndRequest);
}

#[test]
fn stream_configuration_is_recorded() {
    let c = PipewireCapture::new("DP-1".to_string(), 42, 60, true);
    assert_eq!(c.name, "DP-1");
    assert_eq!((c.node_id, c.fps, c.dmabuf), (42, 60, true));
}

#[test]
fn texture_resize_reallocates_only_on_change() {
    let mut t = GlTexture::from_handle(5, 100, 100);
    assert_eq!(t.target, GL_TEXTURE_2D);
    assert_eq!(t.format, GL_SRGB8_ALPHA8);

    t.allocate_empty(200, 100, GL_SRGB8_ALPHA8);
    assert_eq!((t.width, t.height), (200, 100));

    let before = t;
    t.resize(200, 100);
    assert_eq!(t, before);

    t.resize(300, 150);
    assert_eq!((t.width, t.height), (300, 150));
    assert_eq!(t.format, GL_SRGB8_ALPHA8);
    assert_eq!(t.handle, 5);
}
