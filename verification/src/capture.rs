//! The uniform capture contract and the choice of a backend per output.
//!
//! Three interchangeable backends produce frames: the export-dmabuf
//! protocol, the screencopy protocol and the PipeWire engine.  The
//! backend set is fixed at build time, so the choice is a closed
//! enumeration: the configuration string and the managers the registry
//! offered decide it once per session, with silent fallthrough to the
//! next-preferred backend when a manager is missing.  Each render tick
//! then polls the active request; its decision is a pure function of
//! the request's state.

use vstd::prelude::*;
use vstd::string::StringSliceAdditionalSpecFns;

use crate::frame::{FRAME_PENDING, FRAME_READY};

verus! {

/// The uniform per-session contract every capture backend exposes to
/// the renderer.  The process shell implements it for each backend,
/// executing the actions the library's decision functions return.
pub trait DesktopCapture {
    /// Starts the backend's capture machinery.
    fn init(&mut self);

    /// Stops issuing requests while the session is hidden.
    fn pause(&mut self);

    /// Resumes issuing requests.
    fn resume(&mut self);

    /// Polls for a frame and renders it into the caller-owned texture.
    fn render(&mut self, texture: u32);
}

/// The capture backend chosen for one output.
#[derive(Clone, Copy, Debug, PartialEq, Eq, Structural)]
pub enum BackendChoice {
    /// The export-dmabuf protocol: zero-copy frames from the compositor.
    ExportDmabuf,
    /// The screencopy protocol: shared-memory frames from the
    /// compositor.
    Screencopy,
    /// The PipeWire engine, with or without zero-copy buffers.
    Pipewire { allow_dmabuf: bool },
}

/// The configuration token that lets the probe choose.
pub open spec fn spec_auto_token() -> Seq<u8> {
    seq![0x61u8, 0x75u8, 0x74u8, 0x6Fu8]
}

/// The configuration token that forces PipeWire without zero-copy
/// buffers.
pub open spec fn spec_pw_fallback_token() -> Seq<u8> {
    seq![
        0x70u8, 0x77u8, 0x2Du8, 0x66u8, 0x61u8, 0x6Cu8, 0x6Cu8, 0x62u8, 0x61u8, 0x63u8, 0x6Bu8,
    ]
}

/// The backend for one output: under `auto`, the preference order is
/// export-dmabuf, then screencopy, then PipeWire, falling through
/// silently past any missing manager; any other token forces PipeWire,
/// and the fallback token additionally forgoes zero-copy buffers.
pub open spec fn spec_select_backend(
    method: Seq<u8>,
    has_dmabuf_manager: bool,
    has_screencopy_manager: bool,
) -> BackendChoice {
    if method == spec_auto_token() && has_dmabuf_manager {
        BackendChoice::ExportDmabuf
    } else if method == spec_auto_token() && has_screencopy_manager {
        BackendChoice::Screencopy
    } else {
        BackendChoice::Pipewire { allow_dmabuf: method != spec_pw_fallback_token() }
    }
}

/// Whether two byte strings are equal.
fn bytes_eq(a: &[u8], b: &[u8]) -> (r: bool)
    ensures
        r == (a@ == b@),
{
    if a.len() != b.len() {
        return false;
    }
    let mut i: usize = 0;
    while i < a.len()
        invariant
            a@.len() == b@.len(),
            i <= a@.len(),
            forall|j: int| 0 <= j < i ==> a@[j] == b@[j],
        decreases a@.len() - i,
    {
        if a[i] != b[i] {
            return false;
        }
        i = i + 1;
    }
    proof {
        assert(a@ =~= b@);
    }
    true
}

/// Chooses the capture backend for one output from the capability
/// preference and the managers the registry offered.
pub fn select_backend(method: &str, has_dmabuf_manager: bool, has_screencopy_manager: bool) -> (r:
    BackendChoice)
    ensures
        r == spec_select_backend(method.spec_bytes(), has_dmabuf_manager, has_screencopy_manager),
{
    let m = method.as_bytes();
    let auto: [u8; 4] = [0x61, 0x75, 0x74, 0x6F];
    let pw_fallback: [u8; 11] = [
        0x70, 0x77, 0x2D, 0x66, 0x61, 0x6C, 0x6C, 0x62, 0x61, 0x63, 0x6B,
    ];
    proof {
        assert(auto@ =~= spec_auto_token());
        assert(pw_fallback@ =~= spec_pw_fallback_token());
    }
    let is_auto = bytes_eq(m, auto.as_slice());
    if is_auto && has_dmabuf_manager {
        BackendChoice::ExportDmabuf
    } else if is_auto && has_screencopy_manager {
        BackendChoice::Screencopy
    } else {
        BackendChoice::Pipewire { allow_dmabuf: !bytes_eq(m, pw_fallback.as_slice()) }
    }
}

/// The state of the background task that carries one blocking capture
/// request, as the render loop sees it.
#[derive(Clone, Copy, Debug, PartialEq, Eq, Structural)]
pub enum TaskState {
    /// No request is in flight.
    NoTask,
    /// A request is in flight and not finished; the render thread never
    /// blocks on it.
    Running,
    /// The request finished and its frame record can be taken.
    Finished,
}

/// What one render tick does with a polled capture request.
#[derive(Clone, Copy, Debug, PartialEq, Eq, Structural)]
pub enum PollDecision {
    /// The request is still in flight: present nothing new, issue
    /// nothing new.
    Wait,
    /// No frame to present; issue the next request.
    Request,
    /// Import the finished frame into the texture, then issue the next
    /// request.
    ImportAndRequest,
    /// Drop the finished frame — failed or empty, the previously
    /// displayed content is retained — and issue the next request.
    DiscardAndRequest,
}

/// One render tick of the export-dmabuf backend: wait while the request
/// is in flight; import a ready frame that holds at least one usable
/// descriptor; drop anything else; and re-issue, the natural per-tick
/// retry.
pub fn poll_dmabuf_capture(task: TaskState, frame_status: i32, frame_valid: bool) -> (r:
    PollDecision)
    ensures
        r == spec_poll_dmabuf(task, frame_status, frame_valid),
{
    match task {
        TaskState::Running => PollDecision::Wait,
        TaskState::NoTask => PollDecision::Request,
        TaskState::Finished => {
            if frame_status == FRAME_READY && frame_valid {
                PollDecision::ImportAndRequest
            } else {
                PollDecision::DiscardAndRequest
            }
        },
    }
}

/// The decision of one export-dmabuf render tick.
pub open spec fn spec_poll_dmabuf(task: TaskState, frame_status: i32, frame_valid: bool) -> PollDecision {
    match task {
        TaskState::Running => PollDecision::Wait,
        TaskState::NoTask => PollDecision::Request,
        TaskState::Finished => if frame_status == FRAME_READY && frame_valid {
            PollDecision::ImportAndRequest
        } else {
            PollDecision::DiscardAndRequest
        },
    }
}

/// One render tick of the screencopy backend: a pending record is still
/// being filled, so wait; a ready record is uploaded; a failed one is
/// dropped with the previous content retained; either way a terminal
/// record is followed by the next request.
pub fn poll_screencopy_capture(has_frame: bool, frame_status: i32) -> (r: PollDecision)
    ensures
        r == spec_poll_screencopy(has_frame, frame_status),
{
    if !has_frame {
        PollDecision::Request
    } else if frame_status == FRAME_PENDING {
        PollDecision::Wait
    } else if frame_status == FRAME_READY {
        PollDecision::ImportAndRequest
    } else {
        PollDecision::DiscardAndRequest
    }
}

/// The decision of one screencopy render tick.
pub open spec fn spec_poll_screencopy(has_frame: bool, frame_status: i32) -> PollDecision {
    if !has_frame {
        PollDecision::Request
    } else if frame_status == FRAME_PENDING {
        PollDecision::Wait
    } else if frame_status == FRAME_READY {
        PollDecision::ImportAndRequest
    } else {
        PollDecision::DiscardAndRequest
    }
}

} // verus!
