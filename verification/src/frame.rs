//! Captured-frame records and the export-dmabuf per-frame state machine.
//!
//! A frame record starts out `FRAME_PENDING`, accumulates format and plane
//! data from protocol events, and ends in `FRAME_READY` or `FRAME_FAILED`.
//! The status never regresses, and events that arrive once the record is
//! terminal leave it untouched.

use vstd::prelude::*;

verus! {

/// Status of a frame record that still awaits its terminal event.
pub const FRAME_PENDING: i32 = 0;

/// Status of a frame record whose capture completed.
pub const FRAME_READY: i32 = 1;

/// Status of a frame record whose capture failed or was cancelled.
pub const FRAME_FAILED: i32 = -1;

/// Fourcc code of 32-bit BGRA byte order with alpha.
pub const DRM_FORMAT_ARGB8888: u32 = 0x34325241;

/// Fourcc code of 32-bit RGBA byte order with alpha.
pub const DRM_FORMAT_ABGR8888: u32 = 0x34324241;

/// Fourcc code of 32-bit BGRA byte order, alpha ignored.
pub const DRM_FORMAT_XRGB8888: u32 = 0x34325258;

/// Fourcc code of 32-bit RGBA byte order, alpha ignored.
pub const DRM_FORMAT_XBGR8888: u32 = 0x34324258;

/// Pixel format of a captured frame: size, fourcc code and the 64-bit
/// DRM modifier, which the wire protocol carries as two 32-bit halves.
#[derive(Clone, Copy, Debug, PartialEq, Eq, Structural)]
pub struct FrameFormat {
    pub w: u32,
    pub h: u32,
    pub modifier: u64,
    pub format: u32,
}

impl FrameFormat {
    /// An all-zero format, the state of a record before its first event.
    pub fn new() -> (r: FrameFormat)
        ensures
            r == (FrameFormat { w: 0, h: 0, modifier: 0, format: 0 }),
    {
        FrameFormat { w: 0, h: 0, modifier: 0, format: 0 }
    }

    /// Upper 32 bits of the modifier.
    pub fn get_mod_hi(&self) -> (r: u32)
        ensures
            r as u64 == self.modifier >> 32,
    {
        let m = self.modifier;
        proof {
            assert(m >> 32 <= 0xFFFF_FFFFu64) by (bit_vector);
        }
        (m >> 32) as u32
    }

    /// Lower 32 bits of the modifier.
    pub fn get_mod_lo(&self) -> (r: u32)
        ensures
            r as u64 == self.modifier & 0xFFFF_FFFF,
    {
        let m = self.modifier;
        proof {
            assert(m & 0xFFFF_FFFF <= 0xFFFF_FFFFu64) by (bit_vector);
        }
        (m & 0xFFFF_FFFF) as u32
    }

    /// Reassembles the modifier from the two halves sent on the wire.
    pub fn set_mod(&mut self, mod_hi: u32, mod_low: u32)
        ensures
            final(self).modifier == ((mod_hi as u64) << 32) + mod_low as u64,
            final(self).w == old(self).w,
            final(self).h == old(self).h,
            final(self).format == old(self).format,
    {
        proof {
            assert((mod_hi as u64) << 32 <= 0xFFFF_FFFF_0000_0000u64) by (bit_vector);
        }
        self.modifier = ((mod_hi as u64) << 32) + mod_low as u64;
    }
}

/// One plane of a captured frame: a file descriptor owned by the record,
/// with the plane's byte offset and stride.
#[derive(Clone, Copy, Debug, PartialEq, Eq, Structural)]
pub struct FramePlane {
    pub fd: i32,
    pub offset: u32,
    pub stride: i32,
}

impl FramePlane {
    /// A vacant plane slot; `-1` marks the absence of a descriptor.
    pub fn empty() -> (r: FramePlane)
        ensures
            r == (FramePlane { fd: -1i32, offset: 0, stride: 0 }),
    {
        FramePlane { fd: -1i32, offset: 0, stride: 0 }
    }
}

/// An importable DRM format: a fourcc code together with every modifier
/// under which the GL driver can import it.
#[derive(Clone, Debug, PartialEq, Eq)]
pub struct DrmFormat {
    pub code: u32,
    pub modifiers: Vec<u64>,
}

/// A frame backed by a shared-memory file descriptor.
#[derive(Clone, Copy, Debug, PartialEq, Eq, Structural)]
pub struct MemFdFrame {
    pub fmt: FrameFormat,
    pub plane: FramePlane,
}

/// A frame backed by a process-local address, valid only until the next
/// buffer cycle.
#[derive(Clone, Copy, Debug, PartialEq, Eq, Structural)]
pub struct MemPtrFrame {
    pub fmt: FrameFormat,
    pub ptr: usize,
}

/// One event of the export-dmabuf per-frame protocol, as delivered by the
/// compositor for a single capture request.
#[derive(Clone, Copy, Debug, PartialEq, Eq, Structural)]
pub enum FrameEvent {
    /// Announces the frame's format; always the first event of a capture.
    Frame { width: u32, height: u32, format: u32, mod_high: u32, mod_low: u32, num_objects: u32 },
    /// Transfers one plane's descriptor into the record.  The record
    /// appends planes in arrival order; the index the wire also carries is
    /// redundant for a compositor that sends each object once.
    Object { index: u32, fd: i32, offset: u32, stride: i32 },
    /// Terminal event: the capture succeeded.
    Ready,
    /// Terminal event: the capture failed or was cancelled.
    Cancel,
}

/// The descriptor an Object event carries, `-1` for any other event.
pub open spec fn event_fd(e: FrameEvent) -> i32 {
    match e {
        FrameEvent::Object { fd, .. } => fd,
        _ => -1i32,
    }
}

/// A captured DMA-BUF frame record: the per-request state of one
/// export-dmabuf capture.  It owns every plane descriptor it has received.
pub struct DmabufFrame {
    pub fmt: FrameFormat,
    pub num_planes: usize,
    pub planes: [FramePlane; 4],
    pub status: i32,
}

/// What one protocol event does to a frame record.  Events arriving once
/// the record is terminal change nothing; while it is pending, a Frame
/// event sets the format, an Object event appends a plane (a frame has at
/// most four), and Ready or Cancel ends the request.
pub open spec fn frame_step(f: DmabufFrame, e: FrameEvent) -> DmabufFrame {
    if f.status != FRAME_PENDING {
        f
    } else {
        match e {
            FrameEvent::Frame { width, height, format, mod_high, mod_low, .. } => DmabufFrame {
                fmt: FrameFormat {
                    w: width,
                    h: height,
                    modifier: (((mod_high as u64) << 32) + mod_low as u64) as u64,
                    format: format,
                },
                ..f
            },
            FrameEvent::Object { fd, offset, stride, .. } => {
                if f.num_planes < 4 {
                    DmabufFrame {
                        planes: vstd::array::spec_array_update(
                            f.planes,
                            f.num_planes as int,
                            FramePlane { fd, offset, stride },
                        ),
                        num_planes: (f.num_planes + 1) as usize,
                        ..f
                    }
                } else {
                    f
                }
            },
            FrameEvent::Ready => DmabufFrame { status: FRAME_READY, ..f },
            FrameEvent::Cancel => DmabufFrame { status: FRAME_FAILED, ..f },
        }
    }
}

/// A record applied to a whole sequence of events, front to back.
pub open spec fn frame_run(f: DmabufFrame, events: Seq<FrameEvent>) -> DmabufFrame
    decreases events.len(),
{
    if events.len() == 0 {
        f
    } else {
        frame_run(frame_step(f, events[0]), events.drop_first())
    }
}

impl DmabufFrame {
    /// A record never holds more than four planes.
    pub open spec fn wf(self) -> bool {
        self.num_planes <= 4
    }

    /// A fresh record: pending, without format or planes.
    pub fn new() -> (r: DmabufFrame)
        ensures
            r.wf(),
            r.status == FRAME_PENDING,
            r.num_planes == 0,
            r.fmt == (FrameFormat { w: 0, h: 0, modifier: 0, format: 0 }),
            forall|i: int| 0 <= i < 4 ==> r.planes[i] == (FramePlane { fd: -1i32, offset: 0, stride: 0 }),
    {
        let empty = FramePlane::empty();
        DmabufFrame {
            fmt: FrameFormat::new(),
            num_planes: 0,
            planes: [empty, empty, empty, empty],
            status: FRAME_PENDING,
        }
    }

    /// Applies one protocol event.  An event delivered to an
    /// already-terminal record does not mutate it; a misbehaving
    /// compositor is an environment condition, not a crash condition.
    pub fn handle_event(&mut self, e: FrameEvent)
        requires
            old(self).wf(),
        ensures
            *final(self) == frame_step(*old(self), e),
            final(self).wf(),
            old(self).status != FRAME_PENDING ==> *final(self) == *old(self),
    {
        if self.status != FRAME_PENDING {
            return;
        }
        match e {
            FrameEvent::Frame { width, height, format, mod_high, mod_low, num_objects: _ } => {
                self.fmt.w = width;
                self.fmt.h = height;
                self.fmt.format = format;
                self.fmt.set_mod(mod_high, mod_low);
                proof {
                    assert((mod_high as u64) << 32 <= 0xFFFF_FFFF_0000_0000u64) by (bit_vector);
                }
            },
            FrameEvent::Object { index: _, fd, offset, stride } => {
                if self.num_planes < 4 {
                    self.planes[self.num_planes] = FramePlane { fd, offset, stride };
                    self.num_planes = self.num_planes + 1;
                }
            },
            FrameEvent::Ready => {
                self.status = FRAME_READY;
            },
            FrameEvent::Cancel => {
                self.status = FRAME_FAILED;
            },
        }
    }

    /// Whether the record holds at least one usable plane descriptor.
    pub fn is_valid(&self) -> (r: bool)
        requires
            self.wf(),
        ensures
            r == exists|i: int| 0 <= i < self.num_planes && self.planes[i].fd > 0,
    {
        let mut i: usize = 0;
        while i < self.num_planes
            invariant
                i <= self.num_planes,
                self.wf(),
                forall|j: int| 0 <= j < i ==> self.planes[j].fd <= 0,
            decreases self.num_planes - i,
        {
            if self.planes[i].fd > 0 {
                return true;
            }
            i = i + 1;
        }
        false
    }

    /// Surrenders every descriptor the record still owns, in plane order,
    /// and marks each slot vacant, so that each descriptor leaves the
    /// record exactly once.  The caller becomes the owner of the returned
    /// descriptors and must close them.
    pub fn release_fds(&mut self) -> (fds: Vec<i32>)
        requires
            old(self).wf(),
        ensures
            final(self).wf(),
            final(self).num_planes == old(self).num_planes,
            final(self).fmt == old(self).fmt,
            final(self).status == old(self).status,
            fds@ == spec_open_fds(*old(self), old(self).num_planes as int),
            forall|i: int|
                0 <= i < final(self).num_planes ==> final(self).planes[i].fd == -1,
            forall|i: int|
                0 <= i < 4 ==> (#[trigger] final(self).planes[i]).offset == old(self).planes[i].offset
                    && final(self).planes[i].stride == old(self).planes[i].stride,
            forall|i: int|
                old(self).num_planes <= i < 4 ==> final(self).planes[i] == old(self).planes[i],
    {
        let ghost orig = *self;
        let mut fds: Vec<i32> = Vec::new();
        let mut i: usize = 0;
        while i < self.num_planes
            invariant
                i <= self.num_planes,
                self.wf(),
                self.num_planes == orig.num_planes,
                self.fmt == orig.fmt,
                self.status == orig.status,
                fds@ == spec_open_fds(orig, i as int),
                forall|j: int| 0 <= j < i ==> self.planes[j].fd == -1,
                forall|j: int| i <= j < 4 ==> self.planes[j] == orig.planes[j],
                forall|j: int|
                    0 <= j < 4 ==> (#[trigger] self.planes[j]).offset == orig.planes[j].offset
                        && self.planes[j].stride == orig.planes[j].stride,
            decreases self.num_planes - i,
        {
            let fd = self.planes[i].fd;
            if fd >= 0 {
                fds.push(fd);
            }
            self.planes[i] = FramePlane {
                fd: -1i32,
                offset: self.planes[i].offset,
                stride: self.planes[i].stride,
            };
            proof {
                assert(fds@ =~= spec_open_fds(orig, i + 1));
            }
            i = i + 1;
        }
        fds
    }

    /// Builds the flat, sentinel-terminated attribute list from which the
    /// GL driver creates a platform image for this frame.
    pub fn get_attribs(&self) -> (r: Vec<isize>)
        requires
            self.wf(),
        ensures
            r@ == crate::dmabuf::spec_image_attribs(
                crate::dmabuf::spec_import_format(self.fmt),
                self.planes@,
                self.num_planes as int,
            ),
    {
        let fmt = crate::dmabuf::DmabufFrameFormat::from_frame(&self.fmt);
        crate::dmabuf::egl_image_attribs(&fmt, &self.planes, self.num_planes)
    }
}

/// The descriptors still owned by the first `n` plane slots of a record,
/// in plane order.
pub open spec fn spec_open_fds(f: DmabufFrame, n: int) -> Seq<i32>
    decreases n,
{
    if n <= 0 {
        Seq::empty()
    } else {
        spec_open_fds(f, n - 1) + if f.planes[n - 1].fd >= 0 {
            seq![f.planes[n - 1].fd]
        } else {
            Seq::empty()
        }
    }
}

/// Law: a protocol-ordered event sequence on a fresh record — one Frame
/// event, then any number of Object events carrying distinct non-negative
/// descriptors, then Ready — leaves the record Ready, with exactly one
/// plane per Object event, all planes holding distinct non-negative
/// descriptors.
pub proof fn lemma_protocol_sequence(f: DmabufFrame, first: FrameEvent, objs: Seq<FrameEvent>)
    requires
        f.wf(),
        f.status == FRAME_PENDING,
        f.num_planes == 0,
        first is Frame,
        objs.len() <= 4,
        forall|i: int| 0 <= i < objs.len() ==> (#[trigger] objs[i]) is Object,
        forall|i: int| 0 <= i < objs.len() ==> event_fd(#[trigger] objs[i]) >= 0,
        forall|i: int, j: int|
            0 <= i < j < objs.len() ==> event_fd(objs[i]) != event_fd(objs[j]),
    ensures
        ({
            let r = frame_run(f, seq![first] + objs + seq![FrameEvent::Ready]);
            &&& r.status == FRAME_READY
            &&& r.num_planes == objs.len()
            &&& forall|i: int| 0 <= i < r.num_planes ==> (#[trigger] r.planes[i]).fd >= 0
            &&& forall|i: int, j: int|
                0 <= i < j < r.num_planes ==> r.planes[i].fd != r.planes[j].fd
        }),
{
    let events = seq![first] + objs + seq![FrameEvent::Ready];
    lemma_run_app(f, seq![first], objs + seq![FrameEvent::Ready]);
    assert(events =~= seq![first] + (objs + seq![FrameEvent::Ready]));
    lemma_run_one(f, first);
    let f1 = frame_step(f, first);
    lemma_run_app(f1, objs, seq![FrameEvent::Ready]);
    lemma_objects_fill(f1, objs);
    let f2 = frame_run(f1, objs);
    lemma_run_one(f2, FrameEvent::Ready);
}

/// Law: a Cancel event after any number of Object events always leaves the
/// record Failed, never Ready.
pub proof fn lemma_cancel_never_ready(f: DmabufFrame, objs: Seq<FrameEvent>)
    requires
        f.status == FRAME_PENDING,
        forall|i: int| 0 <= i < objs.len() ==> (#[trigger] objs[i]) is Object,
    ensures
        frame_run(f, objs + seq![FrameEvent::Cancel]).status == FRAME_FAILED,
{
    lemma_run_app(f, objs, seq![FrameEvent::Cancel]);
    lemma_objects_keep_pending(f, objs);
    let f1 = frame_run(f, objs);
    lemma_run_one(f1, FrameEvent::Cancel);
}

/// Running a single event is one step.
pub proof fn lemma_run_one(f: DmabufFrame, e: FrameEvent)
    ensures
        frame_run(f, seq![e]) == frame_step(f, e),
{
    let s = seq![e];
    assert(s[0] == e);
    assert(s.drop_first() =~= Seq::<FrameEvent>::empty());
    assert(frame_run(frame_step(f, e), s.drop_first()) == frame_step(f, e));
}

/// Running a record over a concatenation runs it over each part in turn.
pub proof fn lemma_run_app(f: DmabufFrame, a: Seq<FrameEvent>, b: Seq<FrameEvent>)
    ensures
        frame_run(f, a + b) == frame_run(frame_run(f, a), b),
    decreases a.len(),
{
    if a.len() == 0 {
        assert(a + b =~= b);
    } else {
        assert((a + b)[0] == a[0]);
        assert((a + b).drop_first() =~= a.drop_first() + b);
        lemma_run_app(frame_step(f, a[0]), a.drop_first(), b);
    }
}

/// Object events never end a request: a pending record stays pending.
proof fn lemma_objects_keep_pending(f: DmabufFrame, objs: Seq<FrameEvent>)
    requires
        f.status == FRAME_PENDING,
        forall|i: int| 0 <= i < objs.len() ==> (#[trigger] objs[i]) is Object,
    ensures
        frame_run(f, objs).status == FRAME_PENDING,
    decreases objs.len(),
{
    if objs.len() > 0 {
        lemma_objects_keep_pending(frame_step(f, objs[0]), objs.drop_first());
    }
}

/// Object events with distinct fresh non-negative descriptors fill the
/// record one plane per event, keeping the planes distinct.
proof fn lemma_objects_fill(f: DmabufFrame, objs: Seq<FrameEvent>)
    requires
        f.wf(),
        f.status == FRAME_PENDING,
        f.num_planes + objs.len() <= 4,
        forall|i: int| 0 <= i < objs.len() ==> (#[trigger] objs[i]) is Object,
        forall|i: int| 0 <= i < objs.len() ==> event_fd(#[trigger] objs[i]) >= 0,
        forall|i: int, j: int|
            0 <= i < j < objs.len() ==> event_fd(objs[i]) != event_fd(objs[j]),
        forall|i: int| 0 <= i < f.num_planes ==> (#[trigger] f.planes[i]).fd >= 0,
        forall|i: int, j: int|
            0 <= i < j < f.num_planes ==> f.planes[i].fd != f.planes[j].fd,
        forall|i: int, j: int|
            0 <= i < f.num_planes && 0 <= j < objs.len()
                ==> f.planes[i].fd != event_fd(objs[j]),
    ensures
        ({
            let r = frame_run(f, objs);
            &&& r.wf()
            &&& r.status == FRAME_PENDING
            &&& r.num_planes == f.num_planes + objs.len()
            &&& forall|i: int| 0 <= i < r.num_planes ==> (#[trigger] r.planes[i]).fd >= 0
            &&& forall|i: int, j: int|
                0 <= i < j < r.num_planes ==> r.planes[i].fd != r.planes[j].fd
        }),
    decreases objs.len(),
{
    if objs.len() > 0 {
        let f1 = frame_step(f, objs[0]);
        assert(forall|i: int|
            0 <= i < f.num_planes ==> #[trigger] f1.planes[i] == f.planes[i]);
        assert(f1.planes[f.num_planes as int].fd == event_fd(objs[0]));
        lemma_objects_fill(f1, objs.drop_first());
    }
}

} // verus!
