//! Decision core of the PipeWire capture engine.
//!
//! The engine runs on a dedicated loop thread owned by the process
//! shell.  Each of its callbacks is a pure decision here: the
//! format-changed callback records the negotiated format and asks for a
//! live parameter update, and the data-ready callback drains every
//! available buffer, keeps the freshest one, and classifies its backing
//! memory into exactly one captured-frame variant.  Frames cross to the
//! consumer through a single-slot, overwrite-on-publish handoff.

use vstd::prelude::*;

use crate::frame::{
    DmabufFrame, FramePlane, FrameFormat, MemFdFrame, MemPtrFrame, FRAME_READY,
};
use crate::params::{is_wanted_spa, spec_format_dmabuf_params, spec_spa_to_fourcc, spa_to_fourcc,
    format_dmabuf_params, SPA_FORMAT_MEDIA_SUBTYPE, SPA_FORMAT_MEDIA_TYPE, SPA_FORMAT_VIDEO_FORMAT,
    SPA_FORMAT_VIDEO_FRAMERATE, SPA_FORMAT_VIDEO_MODIFIER, SPA_FORMAT_VIDEO_SIZE,
    SPA_MEDIA_SUBTYPE_RAW, SPA_MEDIA_TYPE_VIDEO, SPA_TYPE_OBJECT_FORMAT};
use crate::pod::{le32_at, lemma_le32_at_bytes, push_pod_id, push_pod_long, push_pod_pair,
    push_u32_le, read_u32_le, spec_pod_id, spec_pod_long, spec_pod_object, spec_pod_pair,
    spec_prop, SPA_TYPE_FRACTION, SPA_TYPE_ID, SPA_TYPE_LONG, SPA_TYPE_OBJECT,
    SPA_TYPE_RECTANGLE};

verus! {

/// Parameter id under which the settled format arrives.
pub const SPA_PARAM_FORMAT: u32 = 4;

/// A captured frame, in whichever form the producer's buffer took.
pub enum PipewireFrame {
    Dmabuf(DmabufFrame),
    MemFd(MemFdFrame),
    MemPtr(MemPtrFrame),
}

/// The backing memory of one buffer plane, as the producer declares it.
#[derive(Clone, Copy, Debug, PartialEq, Eq, Structural)]
pub enum PwDataType {
    MemPtr,
    MemFd,
    DmaBuf,
    Invalid,
}

/// One plane of a dequeued buffer: its kind, descriptor, mapped address
/// and chunk geometry, all plain values.
#[derive(Clone, Copy, Debug, PartialEq, Eq, Structural)]
pub struct PwBufferPlane {
    pub data_type: PwDataType,
    pub fd: i64,
    pub ptr: usize,
    pub offset: u32,
    pub stride: i32,
}

/// The negotiated frame format as parsed from a format-changed payload.
#[derive(Clone, Copy, Debug, PartialEq, Eq, Structural)]
pub struct RawVideoInfo {
    pub format: u32,
    pub width: u32,
    pub height: u32,
    pub modifier: u64,
}

/// Configuration of one capture stream.
#[derive(Debug, PartialEq, Eq)]
pub struct PipewireCapture {
    pub name: String,
    pub node_id: u32,
    pub fps: u32,
    pub dmabuf: bool,
}

impl PipewireCapture {
    /// A stream configuration for one output node.
    pub fn new(name: String, node_id: u32, fps: u32, dmabuf: bool) -> (r: PipewireCapture)
        ensures
            r.name@ == name@,
            r.node_id == node_id,
            r.fps == fps,
            r.dmabuf == dmabuf,
    {
        PipewireCapture { name, node_id, fps, dmabuf }
    }
}

/// Mutable per-stream negotiation state: the settled format, if any.
#[derive(Clone, Copy, Debug, PartialEq, Eq, Structural)]
pub struct StreamData {
    pub format: Option<FrameFormat>,
}

impl StreamData {
    /// Before negotiation, no format is known.
    pub fn new() -> (r: StreamData)
        ensures
            r.format is None,
    {
        StreamData { format: None }
    }

    /// The settled format as a single-modifier format choice, once
    /// negotiation has fixed one.
    pub fn selected_format(&self) -> (r: Option<crate::dmabuf::DrmFormat>)
        ensures
            r == match self.format {
                Some(f) => Some(
                    crate::dmabuf::DrmFormat { code: f.format, modifier: f.modifier },
                ),
                None => None::<crate::dmabuf::DrmFormat>,
            },
    {
        match &self.format {
            Some(f) => Some(crate::dmabuf::DrmFormat { code: f.format, modifier: f.modifier }),
            None => None,
        }
    }
}

/// What the format-changed callback asks the shell to do.
pub enum ParamAction {
    /// Send this buffer-parameter object as a live update.
    UpdateParams(Vec<u8>),
    /// Nothing: the payload did not carry a usable format.
    Ignore,
}

/// The frame format equivalent to a parsed format-changed payload.
pub open spec fn spec_format_of_info(info: RawVideoInfo) -> FrameFormat {
    FrameFormat {
        w: info.width,
        h: info.height,
        modifier: info.modifier,
        format: spec_spa_to_fourcc(info.format),
    }
}

/// Handles a format-changed callback: for a format payload carrying an
/// importable video format, records it and asks for a live update that
/// widens the accepted buffer kinds; any other payload is ignored.
pub fn handle_param_changed(state: &mut StreamData, id: u32, info: RawVideoInfo) -> (r:
    ParamAction)
    ensures
        id == SPA_PARAM_FORMAT && is_wanted_spa(info.format) ==> {
            &&& final(state).format == Some(spec_format_of_info(info))
            &&& r matches ParamAction::UpdateParams(b) && b@ == spec_format_dmabuf_params()
        },
        id != SPA_PARAM_FORMAT || !is_wanted_spa(info.format) ==> {
            &&& *final(state) == *old(state)
            &&& r is Ignore
        },
{
    if id != SPA_PARAM_FORMAT {
        return ParamAction::Ignore;
    }
    match spa_to_fourcc(info.format) {
        Some(code) => {
            state.format = Some(
                FrameFormat {
                    w: info.width,
                    h: info.height,
                    modifier: info.modifier,
                    format: code,
                },
            );
            ParamAction::UpdateParams(format_dmabuf_params())
        },
        None => ParamAction::Ignore,
    }
}

/// The frame a data-ready callback publishes: built from the freshest
/// dequeued buffer if a format is settled and the buffer has data of a
/// known kind, and nothing otherwise.
pub open spec fn spec_process_result(
    format: Option<FrameFormat>,
    buffers: Seq<Seq<PwBufferPlane>>,
) -> Option<PipewireFrame> {
    if buffers.len() == 0 || format is None {
        None
    } else {
        let datas = buffers.last();
        if datas.len() == 0 {
            None
        } else {
            let fmt = format.unwrap();
            match datas[0].data_type {
                PwDataType::DmaBuf => Some(
                    PipewireFrame::Dmabuf(spec_dmabuf_of_datas(fmt, datas)),
                ),
                PwDataType::MemFd => Some(
                    PipewireFrame::MemFd(
                        MemFdFrame {
                            fmt,
                            plane: FramePlane {
                                fd: datas[0].fd as i32,
                                offset: datas[0].offset,
                                stride: datas[0].stride,
                            },
                        },
                    ),
                ),
                PwDataType::MemPtr => Some(
                    PipewireFrame::MemPtr(MemPtrFrame { fmt, ptr: datas[0].ptr }),
                ),
                PwDataType::Invalid => None,
            }
        }
    }
}

/// The zero-copy frame built from a buffer's planes.
pub open spec fn spec_dmabuf_of_datas(fmt: FrameFormat, datas: Seq<PwBufferPlane>) -> DmabufFrame {
    DmabufFrame {
        fmt,
        num_planes: datas.len() as usize,
        planes: spec_planes_of_datas(datas),
        status: FRAME_READY,
    }
}

/// The plane array filled from a buffer's planes, vacant past their
/// count.
pub open spec fn spec_planes_of_datas(datas: Seq<PwBufferPlane>) -> [FramePlane; 4] {
    spec_fill_planes(datas, datas.len() as int)
}

/// The first `n` plane slots filled from the buffer, the rest vacant.
pub open spec fn spec_fill_planes(datas: Seq<PwBufferPlane>, n: int) -> [FramePlane; 4]
    decreases n,
{
    if n <= 0 {
        vstd::array::spec_array_fill_for_copy_type(FramePlane { fd: -1i32, offset: 0, stride: 0 })
    } else {
        vstd::array::spec_array_update(
            spec_fill_planes(datas, n - 1),
            n - 1,
            FramePlane {
                fd: datas[n - 1].fd as i32,
                offset: datas[n - 1].offset,
                stride: datas[n - 1].stride,
            },
        )
    }
}

/// Handles a data-ready callback.  Every available buffer was dequeued;
/// only the most recent one is kept (drop-oldest, bounded staleness).
/// A callback that fires before the format settled, an empty callback
/// and an empty buffer are all skipped silently.
pub fn handle_process(format: &Option<FrameFormat>, buffers: Vec<Vec<PwBufferPlane>>) -> (r:
    Option<PipewireFrame>)
    requires
        forall|i: int| 0 <= i < buffers@.len() ==> (#[trigger] buffers@[i])@.len() <= 4,
    ensures
        r == spec_process_result(*format, buffers@.map_values(|d: Vec<PwBufferPlane>| d@)),
        r matches Some(f) ==> frame_wf(f),
{
    let ghost bs = buffers@.map_values(|d: Vec<PwBufferPlane>| d@);
    if buffers.len() == 0 {
        return None;
    }
    let fmt = match format {
        Some(f) => *f,
        None => {
            return None;
        },
    };
    let datas = &buffers[buffers.len() - 1];
    proof {
        assert(bs.last() == datas@);
    }
    if datas.len() == 0 {
        return None;
    }
    match datas[0].data_type {
        PwDataType::DmaBuf => {
            let mut frame = DmabufFrame::new();
            frame.fmt = fmt;
            frame.status = FRAME_READY;
            let mut i: usize = 0;
            proof {
                assert(frame.planes =~= spec_fill_planes(datas@, 0));
            }
            while i < datas.len()
                invariant
                    i <= datas@.len() <= 4,
                    frame.fmt == fmt,
                    frame.status == FRAME_READY,
                    frame.num_planes == i,
                    frame.planes == spec_fill_planes(datas@, i as int),
                decreases datas@.len() - i,
            {
                frame.planes[i] = FramePlane {
                    fd: datas[i].fd as i32,
                    offset: datas[i].offset,
                    stride: datas[i].stride,
                };
                frame.num_planes = i + 1;
                proof {
                    assert(frame.planes =~= spec_fill_planes(datas@, i + 1));
                }
                i = i + 1;
            }
            Some(PipewireFrame::Dmabuf(frame))
        },
        PwDataType::MemFd => Some(
            PipewireFrame::MemFd(
                MemFdFrame {
                    fmt,
                    plane: FramePlane {
                        fd: datas[0].fd as i32,
                        offset: datas[0].offset,
                        stride: datas[0].stride,
                    },
                },
            ),
        ),
        PwDataType::MemPtr => Some(PipewireFrame::MemPtr(MemPtrFrame { fmt, ptr: datas[0].ptr })),
        PwDataType::Invalid => None,
    }
}

/// A frame record is well formed: a zero-copy frame holds at most four
/// planes.
pub open spec fn frame_wf(f: PipewireFrame) -> bool {
    match f {
        PipewireFrame::Dmabuf(d) => d.wf(),
        _ => true,
    }
}

/// The single-slot frame handoff between the capture thread and the
/// consumer: publishing overwrites any unconsumed frame, consuming
/// empties the slot.  A lossy latest-wins channel, not a queue.
pub struct FrameSlot {
    pub slot: Option<PipewireFrame>,
}

/// What publishing does to the slot: the new frame replaces whatever
/// was there.
pub open spec fn spec_publish(s: Option<PipewireFrame>, f: PipewireFrame) -> Option<
    PipewireFrame,
> {
    Some(f)
}

/// What consuming does to the slot: the content leaves, the slot
/// empties.
pub open spec fn spec_take(s: Option<PipewireFrame>) -> (Option<PipewireFrame>, Option<
    PipewireFrame,
>) {
    (s, None)
}

impl FrameSlot {
    /// Whatever sits in the slot is a well-formed frame.
    pub open spec fn wf(self) -> bool {
        match self.slot {
            Some(f) => frame_wf(f),
            None => true,
        }
    }

    /// An empty handoff slot.
    pub fn new() -> (r: FrameSlot)
        ensures
            r.slot is None,
            r.wf(),
    {
        FrameSlot { slot: None }
    }

    /// Publishes a frame, overwriting any unconsumed one.
    pub fn publish(&mut self, f: PipewireFrame)
        requires
            frame_wf(f),
        ensures
            final(self).slot == spec_publish(old(self).slot, f),
            final(self).wf(),
    {
        self.slot = Some(f);
    }

    /// Takes the current frame, if any, leaving the slot empty.
    pub fn take(&mut self) -> (r: Option<PipewireFrame>)
        ensures
            r == spec_take(old(self).slot).0,
            final(self).slot == spec_take(old(self).slot).1,
            final(self).wf(),
            old(self).wf() ==> (r matches Some(f) ==> frame_wf(f)),
    {
        self.slot.take()
    }
}

/// Law: when two frames are published before one consume, the consumer
/// observes only the second; the first is dropped, and the slot is empty
/// afterwards.
pub proof fn lemma_latest_wins(s: Option<PipewireFrame>, a: PipewireFrame, b: PipewireFrame)
    ensures
        spec_take(spec_publish(spec_publish(s, a), b)).0 == Some(b),
        spec_take(spec_publish(spec_publish(s, a), b)).1 is None,
{
}

/// The canonical byte encoding of a settled (fixated) video format: an
/// object carrying media type and subtype, the picked video format id,
/// the frame size, the frame rate and the modifier, each as a plain
/// pod.  This is the shape of the payload a producer's format-changed
/// callback delivers.
pub open spec fn spec_fixated_format(info: RawVideoInfo, fps_num: u32, fps_den: u32) -> Seq<u8> {
    spec_pod_object(
        SPA_TYPE_OBJECT_FORMAT,
        SPA_PARAM_FORMAT,
        spec_prop(SPA_FORMAT_MEDIA_TYPE, 0, spec_pod_id(SPA_MEDIA_TYPE_VIDEO)) + spec_prop(
            SPA_FORMAT_MEDIA_SUBTYPE,
            0,
            spec_pod_id(SPA_MEDIA_SUBTYPE_RAW),
        ) + spec_prop(SPA_FORMAT_VIDEO_FORMAT, 0, spec_pod_id(info.format)) + spec_prop(
            SPA_FORMAT_VIDEO_SIZE,
            0,
            spec_pod_pair(SPA_TYPE_RECTANGLE, info.width, info.height),
        ) + spec_prop(
            SPA_FORMAT_VIDEO_FRAMERATE,
            0,
            spec_pod_pair(SPA_TYPE_FRACTION, fps_num, fps_den),
        ) + spec_prop(SPA_FORMAT_VIDEO_MODIFIER, 0, spec_pod_long(info.modifier)),
    )
}

/// Builds the canonical fixated-format object for a settled format.
pub fn encode_video_format(info: &RawVideoInfo, fps_num: u32, fps_den: u32) -> (r: Vec<u8>)
    ensures
        r@ == spec_fixated_format(*info, fps_num, fps_den),
{
    let mut body: Vec<u8> = Vec::new();
    push_u32_le(&mut body, SPA_FORMAT_MEDIA_TYPE);
    push_u32_le(&mut body, 0);
    push_pod_id(&mut body, SPA_MEDIA_TYPE_VIDEO);
    push_u32_le(&mut body, SPA_FORMAT_MEDIA_SUBTYPE);
    push_u32_le(&mut body, 0);
    push_pod_id(&mut body, SPA_MEDIA_SUBTYPE_RAW);
    push_u32_le(&mut body, SPA_FORMAT_VIDEO_FORMAT);
    push_u32_le(&mut body, 0);
    push_pod_id(&mut body, info.format);
    push_u32_le(&mut body, SPA_FORMAT_VIDEO_SIZE);
    push_u32_le(&mut body, 0);
    push_pod_pair(&mut body, SPA_TYPE_RECTANGLE, info.width, info.height);
    push_u32_le(&mut body, SPA_FORMAT_VIDEO_FRAMERATE);
    push_u32_le(&mut body, 0);
    push_pod_pair(&mut body, SPA_TYPE_FRACTION, fps_num, fps_den);
    push_u32_le(&mut body, SPA_FORMAT_VIDEO_MODIFIER);
    push_u32_le(&mut body, 0);
    push_pod_long(&mut body, info.modifier);

    let mut out: Vec<u8> = Vec::new();
    push_u32_le(&mut out, (body.len() + 8) as u32);
    push_u32_le(&mut out, SPA_TYPE_OBJECT);
    push_u32_le(&mut out, SPA_TYPE_OBJECT_FORMAT);
    push_u32_le(&mut out, SPA_PARAM_FORMAT);
    out.append(&mut body);
    proof {
        assert(out@ =~= spec_fixated_format(*info, fps_num, fps_den));
    }
    out
}

/// Every word of the canonical fixated-format encoding, by offset.
#[verifier::rlimit(100)]
pub proof fn lemma_fixated_format_words(info: RawVideoInfo, fps_num: u32, fps_den: u32)
    ensures
        ({
            let enc = spec_fixated_format(info, fps_num, fps_den);
            &&& enc.len() == 160
            &&& le32_at(enc, 0) == 152u32
            &&& le32_at(enc, 4) == SPA_TYPE_OBJECT
            &&& le32_at(enc, 8) == SPA_TYPE_OBJECT_FORMAT
            &&& le32_at(enc, 12) == SPA_PARAM_FORMAT
            &&& le32_at(enc, 16) == SPA_FORMAT_MEDIA_TYPE
            &&& le32_at(enc, 24) == 4u32
            &&& le32_at(enc, 28) == SPA_TYPE_ID
            &&& le32_at(enc, 32) == SPA_MEDIA_TYPE_VIDEO
            &&& le32_at(enc, 40) == SPA_FORMAT_MEDIA_SUBTYPE
            &&& le32_at(enc, 48) == 4u32
            &&& le32_at(enc, 52) == SPA_TYPE_ID
            &&& le32_at(enc, 56) == SPA_MEDIA_SUBTYPE_RAW
            &&& le32_at(enc, 64) == SPA_FORMAT_VIDEO_FORMAT
            &&& le32_at(enc, 72) == 4u32
            &&& le32_at(enc, 76) == SPA_TYPE_ID
            &&& le32_at(enc, 80) == info.format
            &&& le32_at(enc, 88) == SPA_FORMAT_VIDEO_SIZE
            &&& le32_at(enc, 96) == 8u32
            &&& le32_at(enc, 100) == SPA_TYPE_RECTANGLE
            &&& le32_at(enc, 104) == info.width
            &&& le32_at(enc, 108) == info.height
            &&& le32_at(enc, 112) == SPA_FORMAT_VIDEO_FRAMERATE
            &&& le32_at(enc, 120) == 8u32
            &&& le32_at(enc, 124) == SPA_TYPE_FRACTION
            &&& le32_at(enc, 136) == SPA_FORMAT_VIDEO_MODIFIER
            &&& le32_at(enc, 144) == 8u32
            &&& le32_at(enc, 148) == SPA_TYPE_LONG
            &&& le32_at(enc, 152) == (info.modifier & 0xFFFF_FFFF) as u32
            &&& le32_at(enc, 156) == (info.modifier >> 32) as u32
        }),
{
    let enc = spec_fixated_format(info, fps_num, fps_den);
    assert(enc.len() == 160);
    assert(enc[0] == (152u32 & 0xFF) as u8);
    assert(enc[1] == ((152u32 >> 8) & 0xFF) as u8);
    assert(enc[2] == ((152u32 >> 16) & 0xFF) as u8);
    assert(enc[3] == ((152u32 >> 24) & 0xFF) as u8);
    lemma_le32_at_bytes(enc, 0, 152u32);
    assert(enc[4] == (SPA_TYPE_OBJECT & 0xFF) as u8);
    assert(enc[5] == ((SPA_TYPE_OBJECT >> 8) & 0xFF) as u8);
    assert(enc[6] == ((SPA_TYPE_OBJECT >> 16) & 0xFF) as u8);
    assert(enc[7] == ((SPA_TYPE_OBJECT >> 24) & 0xFF) as u8);
    lemma_le32_at_bytes(enc, 4, SPA_TYPE_OBJECT);
    assert(enc[8] == (SPA_TYPE_OBJECT_FORMAT & 0xFF) as u8);
    assert(enc[9] == ((SPA_TYPE_OBJECT_FORMAT >> 8) & 0xFF) as u8);
    assert(enc[10] == ((SPA_TYPE_OBJECT_FORMAT >> 16) & 0xFF) as u8);
    assert(enc[11] == ((SPA_TYPE_OBJECT_FORMAT >> 24) & 0xFF) as u8);
    lemma_le32_at_bytes(enc, 8, SPA_TYPE_OBJECT_FORMAT);
    assert(enc[12] == (SPA_PARAM_FORMAT & 0xFF) as u8);
    assert(enc[13] == ((SPA_PARAM_FORMAT >> 8) & 0xFF) as u8);
    assert(enc[14] == ((SPA_PARAM_FORMAT >> 16) & 0xFF) as u8);
    assert(enc[15] == ((SPA_PARAM_FORMAT >> 24) & 0xFF) as u8);
    lemma_le32_at_bytes(enc, 12, SPA_PARAM_FORMAT);
    assert(enc[16] == (SPA_FORMAT_MEDIA_TYPE & 0xFF) as u8);
    assert(enc[17] == ((SPA_FORMAT_MEDIA_TYPE >> 8) & 0xFF) as u8);
    assert(enc[18] == ((SPA_FORMAT_MEDIA_TYPE >> 16) & 0xFF) as u8);
    assert(enc[19] == ((SPA_FORMAT_MEDIA_TYPE >> 24) & 0xFF) as u8);
    lemma_le32_at_bytes(enc, 16, SPA_FORMAT_MEDIA_TYPE);
    assert(enc[24] == (4u32 & 0xFF) as u8);
    assert(enc[25] == ((4u32 >> 8) & 0xFF) as u8);
    assert(enc[26] == ((4u32 >> 16) & 0xFF) as u8);
    assert(enc[27] == ((4u32 >> 24) & 0xFF) as u8);
    lemma_le32_at_bytes(enc, 24, 4u32);
    assert(enc[28] == (SPA_TYPE_ID & 0xFF) as u8);
    assert(enc[29] == ((SPA_TYPE_ID >> 8) & 0xFF) as u8);
    assert(enc[30] == ((SPA_TYPE_ID >> 16) & 0xFF) as u8);
    assert(enc[31] == ((SPA_TYPE_ID >> 24) & 0xFF) as u8);
    lemma_le32_at_bytes(enc, 28, SPA_TYPE_ID);
    assert(enc[32] == (SPA_MEDIA_TYPE_VIDEO & 0xFF) as u8);
    assert(enc[33] == ((SPA_MEDIA_TYPE_VIDEO >> 8) & 0xFF) as u8);
    assert(enc[34] == ((SPA_MEDIA_TYPE_VIDEO >> 16) & 0xFF) as u8);
    assert(enc[35] == ((SPA_MEDIA_TYPE_VIDEO >> 24) & 0xFF) as u8);
    lemma_le32_at_bytes(enc, 32, SPA_MEDIA_TYPE_VIDEO);
    assert(enc[40] == (SPA_FORMAT_MEDIA_SUBTYPE & 0xFF) as u8);
    assert(enc[41] == ((SPA_FORMAT_MEDIA_SUBTYPE >> 8) & 0xFF) as u8);
    assert(enc[42] == ((SPA_FORMAT_MEDIA_SUBTYPE >> 16) & 0xFF) as u8);
    assert(enc[43] == ((SPA_FORMAT_MEDIA_SUBTYPE >> 24) & 0xFF) as u8);
    lemma_le32_at_bytes(enc, 40, SPA_FORMAT_MEDIA_SUBTYPE);
    assert(enc[48] == (4u32 & 0xFF) as u8);
    assert(enc[49] == ((4u32 >> 8) & 0xFF) as u8);
    assert(enc[50] == ((4u32 >> 16) & 0xFF) as u8);
    assert(enc[51] == ((4u32 >> 24) & 0xFF) as u8);
    lemma_le32_at_bytes(enc, 48, 4u32);
    assert(enc[52] == (SPA_TYPE_ID & 0xFF) as u8);
    assert(enc[53] == ((SPA_TYPE_ID >> 8) & 0xFF) as u8);
    assert(enc[54] == ((SPA_TYPE_ID >> 16) & 0xFF) as u8);
    assert(enc[55] == ((SPA_TYPE_ID >> 24) & 0xFF) as u8);
    lemma_le32_at_bytes(enc, 52, SPA_TYPE_ID);
    assert(enc[56] == (SPA_MEDIA_SUBTYPE_RAW & 0xFF) as u8);
    assert(enc[57] == ((SPA_MEDIA_SUBTYPE_RAW >> 8) & 0xFF) as u8);
    assert(enc[58] == ((SPA_MEDIA_SUBTYPE_RAW >> 16) & 0xFF) as u8);
    assert(enc[59] == ((SPA_MEDIA_SUBTYPE_RAW >> 24) & 0xFF) as u8);
    lemma_le32_at_bytes(enc, 56, SPA_MEDIA_SUBTYPE_RAW);
    assert(enc[64] == (SPA_FORMAT_VIDEO_FORMAT & 0xFF) as u8);
    assert(enc[65] == ((SPA_FORMAT_VIDEO_FORMAT >> 8) & 0xFF) as u8);
    assert(enc[66] == ((SPA_FORMAT_VIDEO_FORMAT >> 16) & 0xFF) as u8);
    assert(enc[67] == ((SPA_FORMAT_VIDEO_FORMAT >> 24) & 0xFF) as u8);
    lemma_le32_at_bytes(enc, 64, SPA_FORMAT_VIDEO_FORMAT);
    assert(enc[72] == (4u32 & 0xFF) as u8);
    assert(enc[73] == ((4u32 >> 8) & 0xFF) as u8);
    assert(enc[74] == ((4u32 >> 16) & 0xFF) as u8);
    assert(enc[75] == ((4u32 >> 24) & 0xFF) as u8);
    lemma_le32_at_bytes(enc, 72, 4u32);
    assert(enc[76] == (SPA_TYPE_ID & 0xFF) as u8);
    assert(enc[77] == ((SPA_TYPE_ID >> 8) & 0xFF) as u8);
    assert(enc[78] == ((SPA_TYPE_ID >> 16) & 0xFF) as u8);
    assert(enc[79] == ((SPA_TYPE_ID >> 24) & 0xFF) as u8);
    lemma_le32_at_bytes(enc, 76, SPA_TYPE_ID);
    assert(enc[80] == (info.format & 0xFF) as u8);
    assert(enc[81] == ((info.format >> 8) & 0xFF) as u8);
    assert(enc[82] == ((info.format >> 16) & 0xFF) as u8);
    assert(enc[83] == ((info.format >> 24) & 0xFF) as u8);
    lemma_le32_at_bytes(enc, 80, info.format);
    assert(enc[88] == (SPA_FORMAT_VIDEO_SIZE & 0xFF) as u8);
    assert(enc[89] == ((SPA_FORMAT_VIDEO_SIZE >> 8) & 0xFF) as u8);
    assert(enc[90] == ((SPA_FORMAT_VIDEO_SIZE >> 16) & 0xFF) as u8);
    assert(enc[91] == ((SPA_FORMAT_VIDEO_SIZE >> 24) & 0xFF) as u8);
    lemma_le32_at_bytes(enc, 88, SPA_FORMAT_VIDEO_SIZE);
    assert(enc[96] == (8u32 & 0xFF) as u8);
    assert(enc[97] == ((8u32 >> 8) & 0xFF) as u8);
    assert(enc[98] == ((8u32 >> 16) & 0xFF) as u8);
    assert(enc[99] == ((8u32 >> 24) & 0xFF) as u8);
    lemma_le32_at_bytes(enc, 96, 8u32);
    assert(enc[100] == (SPA_TYPE_RECTANGLE & 0xFF) as u8);
    assert(enc[101] == ((SPA_TYPE_RECTANGLE >> 8) & 0xFF) as u8);
    assert(enc[102] == ((SPA_TYPE_RECTANGLE >> 16) & 0xFF) as u8);
    assert(enc[103] == ((SPA_TYPE_RECTANGLE >> 24) & 0xFF) as u8);
    lemma_le32_at_bytes(enc, 100, SPA_TYPE_RECTANGLE);
    assert(enc[104] == (info.width & 0xFF) as u8);
    assert(enc[105] == ((info.width >> 8) & 0xFF) as u8);
    assert(enc[106] == ((info.width >> 16) & 0xFF) as u8);
    assert(enc[107] == ((info.width >> 24) & 0xFF) as u8);
    lemma_le32_at_bytes(enc, 104, info.width);
    assert(enc[108] == (info.height & 0xFF) as u8);
    assert(enc[109] == ((info.height >> 8) & 0xFF) as u8);
    assert(enc[110] == ((info.height >> 16) & 0xFF) as u8);
    assert(enc[111] == ((info.height >> 24) & 0xFF) as u8);
    lemma_le32_at_bytes(enc, 108, info.height);
    assert(enc[112] == (SPA_FORMAT_VIDEO_FRAMERATE & 0xFF) as u8);
    assert(enc[113] == ((SPA_FORMAT_VIDEO_FRAMERATE >> 8) & 0xFF) as u8);
    assert(enc[114] == ((SPA_FORMAT_VIDEO_FRAMERATE >> 16) & 0xFF) as u8);
    assert(enc[115] == ((SPA_FORMAT_VIDEO_FRAMERATE >> 24) & 0xFF) as u8);
    lemma_le32_at_bytes(enc, 112, SPA_FORMAT_VIDEO_FRAMERATE);
    assert(enc[120] == (8u32 & 0xFF) as u8);
    assert(enc[121] == ((8u32 >> 8) & 0xFF) as u8);
    assert(enc[122] == ((8u32 >> 16) & 0xFF) as u8);
    assert(enc[123] == ((8u32 >> 24) & 0xFF) as u8);
    lemma_le32_at_bytes(enc, 120, 8u32);
    assert(enc[124] == (SPA_TYPE_FRACTION & 0xFF) as u8);
    assert(enc[125] == ((SPA_TYPE_FRACTION >> 8) & 0xFF) as u8);
    assert(enc[126] == ((SPA_TYPE_FRACTION >> 16) & 0xFF) as u8);
    assert(enc[127] == ((SPA_TYPE_FRACTION >> 24) & 0xFF) as u8);
    lemma_le32_at_bytes(enc, 124, SPA_TYPE_FRACTION);
    assert(enc[136] == (SPA_FORMAT_VIDEO_MODIFIER & 0xFF) as u8);
    assert(enc[137] == ((SPA_FORMAT_VIDEO_MODIFIER >> 8) & 0xFF) as u8);
    assert(enc[138] == ((SPA_FORMAT_VIDEO_MODIFIER >> 16) & 0xFF) as u8);
    assert(enc[139] == ((SPA_FORMAT_VIDEO_MODIFIER >> 24) & 0xFF) as u8);
    lemma_le32_at_bytes(enc, 136, SPA_FORMAT_VIDEO_MODIFIER);
    assert(enc[144] == (8u32 & 0xFF) as u8);
    assert(enc[145] == ((8u32 >> 8) & 0xFF) as u8);
    assert(enc[146] == ((8u32 >> 16) & 0xFF) as u8);
    assert(enc[147] == ((8u32 >> 24) & 0xFF) as u8);
    lemma_le32_at_bytes(enc, 144, 8u32);
    assert(enc[148] == (SPA_TYPE_LONG & 0xFF) as u8);
    assert(enc[149] == ((SPA_TYPE_LONG >> 8) & 0xFF) as u8);
    assert(enc[150] == ((SPA_TYPE_LONG >> 16) & 0xFF) as u8);
    assert(enc[151] == ((SPA_TYPE_LONG >> 24) & 0xFF) as u8);
    lemma_le32_at_bytes(enc, 148, SPA_TYPE_LONG);
    assert(enc[152] == ((info.modifier & 0xFFFF_FFFF) as u32 & 0xFF) as u8);
    assert(enc[153] == (((info.modifier & 0xFFFF_FFFF) as u32 >> 8) & 0xFF) as u8);
    assert(enc[154] == (((info.modifier & 0xFFFF_FFFF) as u32 >> 16) & 0xFF) as u8);
    assert(enc[155] == (((info.modifier & 0xFFFF_FFFF) as u32 >> 24) & 0xFF) as u8);
    lemma_le32_at_bytes(enc, 152, (info.modifier & 0xFFFF_FFFF) as u32);
    assert(enc[156] == ((info.modifier >> 32) as u32 & 0xFF) as u8);
    assert(enc[157] == (((info.modifier >> 32) as u32 >> 8) & 0xFF) as u8);
    assert(enc[158] == (((info.modifier >> 32) as u32 >> 16) & 0xFF) as u8);
    assert(enc[159] == (((info.modifier >> 32) as u32 >> 24) & 0xFF) as u8);
    lemma_le32_at_bytes(enc, 156, (info.modifier >> 32) as u32);
}


/// Whether a byte string has the canonical fixated-format shape: the
/// exact length, the object header of a settled format reply, and each
/// of the six properties under its expected key with a plain pod of the
/// expected size and type.
pub open spec fn spec_fixated_shape(s: Seq<u8>) -> bool {
    &&& s.len() == 160
    &&& le32_at(s, 0) == 152
    &&& le32_at(s, 4) == SPA_TYPE_OBJECT
    &&& le32_at(s, 8) == SPA_TYPE_OBJECT_FORMAT
    &&& le32_at(s, 12) == SPA_PARAM_FORMAT
    &&& le32_at(s, 16) == SPA_FORMAT_MEDIA_TYPE
    &&& le32_at(s, 24) == 4
    &&& le32_at(s, 28) == SPA_TYPE_ID
    &&& le32_at(s, 32) == SPA_MEDIA_TYPE_VIDEO
    &&& le32_at(s, 40) == SPA_FORMAT_MEDIA_SUBTYPE
    &&& le32_at(s, 48) == 4
    &&& le32_at(s, 52) == SPA_TYPE_ID
    &&& le32_at(s, 56) == SPA_MEDIA_SUBTYPE_RAW
    &&& le32_at(s, 64) == SPA_FORMAT_VIDEO_FORMAT
    &&& le32_at(s, 72) == 4
    &&& le32_at(s, 76) == SPA_TYPE_ID
    &&& le32_at(s, 88) == SPA_FORMAT_VIDEO_SIZE
    &&& le32_at(s, 96) == 8
    &&& le32_at(s, 100) == SPA_TYPE_RECTANGLE
    &&& le32_at(s, 112) == SPA_FORMAT_VIDEO_FRAMERATE
    &&& le32_at(s, 120) == 8
    &&& le32_at(s, 124) == SPA_TYPE_FRACTION
    &&& le32_at(s, 136) == SPA_FORMAT_VIDEO_MODIFIER
    &&& le32_at(s, 144) == 8
    &&& le32_at(s, 148) == SPA_TYPE_LONG
}

/// Parses a fixated-format payload of the canonical shape, yielding the
/// settled format id, size and modifier.  It succeeds exactly on byte
/// strings of the canonical shape, yields exactly the words they carry,
/// and in particular parses every canonical encoding back to the values
/// it encodes.
pub fn parse_video_format(param: &[u8]) -> (r: Option<RawVideoInfo>)
    ensures
        r is Some <==> spec_fixated_shape(param@),
        r matches Some(info) ==> {
            &&& info.format == le32_at(param@, 80)
            &&& info.width == le32_at(param@, 104)
            &&& info.height == le32_at(param@, 108)
            &&& info.modifier == (le32_at(param@, 152) as u64) | ((le32_at(param@, 156) as u64)
                << 32)
        },
        forall|info: RawVideoInfo, fps_num: u32, fps_den: u32|
            param@ == spec_fixated_format(info, fps_num, fps_den) ==> r == Some(info),
{
    if param.len() != 160 {
        proof {
            assert forall|info: RawVideoInfo, fps_num: u32, fps_den: u32|
                param@ == spec_fixated_format(info, fps_num, fps_den)
                    implies None::<RawVideoInfo> == Some(info) by {
                lemma_fixated_format_words(info, fps_num, fps_den);
            }
        }
        return None;
    }
    let ok = read_u32_le(param, 0) == 152 && read_u32_le(param, 4) == SPA_TYPE_OBJECT
        && read_u32_le(param, 8) == SPA_TYPE_OBJECT_FORMAT && read_u32_le(param, 12)
        == SPA_PARAM_FORMAT && read_u32_le(param, 16) == SPA_FORMAT_MEDIA_TYPE && read_u32_le(
        param,
        24,
    ) == 4 && read_u32_le(param, 28) == SPA_TYPE_ID && read_u32_le(param, 32)
        == SPA_MEDIA_TYPE_VIDEO && read_u32_le(param, 40) == SPA_FORMAT_MEDIA_SUBTYPE
        && read_u32_le(param, 48) == 4 && read_u32_le(param, 52) == SPA_TYPE_ID && read_u32_le(
        param,
        56,
    ) == SPA_MEDIA_SUBTYPE_RAW && read_u32_le(param, 64) == SPA_FORMAT_VIDEO_FORMAT
        && read_u32_le(param, 72) == 4 && read_u32_le(param, 76) == SPA_TYPE_ID && read_u32_le(
        param,
        88,
    ) == SPA_FORMAT_VIDEO_SIZE && read_u32_le(param, 96) == 8 && read_u32_le(param, 100)
        == SPA_TYPE_RECTANGLE && read_u32_le(param, 112) == SPA_FORMAT_VIDEO_FRAMERATE
        && read_u32_le(param, 120) == 8 && read_u32_le(param, 124) == SPA_TYPE_FRACTION
        && read_u32_le(param, 136) == SPA_FORMAT_VIDEO_MODIFIER && read_u32_le(param, 144) == 8
        && read_u32_le(param, 148) == SPA_TYPE_LONG;
    if !ok {
        proof {
            assert forall|info: RawVideoInfo, fps_num: u32, fps_den: u32|
                param@ == spec_fixated_format(info, fps_num, fps_den)
                    implies None::<RawVideoInfo> == Some(info) by {
                lemma_fixated_format_words(info, fps_num, fps_den);
            }
        }
        return None;
    }
    let format = read_u32_le(param, 80);
    let width = read_u32_le(param, 104);
    let height = read_u32_le(param, 108);
    let mod_lo = read_u32_le(param, 152);
    let mod_hi = read_u32_le(param, 156);
    let modifier = (mod_lo as u64) | ((mod_hi as u64) << 32);
    let parsed = RawVideoInfo { format, width, height, modifier };
    proof {
        assert forall|info: RawVideoInfo, fps_num: u32, fps_den: u32|
            param@ == spec_fixated_format(info, fps_num, fps_den)
                implies Some(parsed) == Some(info) by {
            lemma_fixated_format_words(info, fps_num, fps_den);
            let m = info.modifier;
            assert((((m & 0xFFFF_FFFF) as u32) as u64) | ((((m >> 32) as u32) as u64) << 32)
                == m) by (bit_vector);
        }
    }
    Some(parsed)
}

} // verus!
