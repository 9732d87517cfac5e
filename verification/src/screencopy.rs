//! The screencopy per-frame state machine, with its shared-memory pool
//! arithmetic.
//!
//! A screencopy request is announced a buffer shape first.  On that
//! event the client must create an anonymous shared-memory file of
//! exactly `stride * height` bytes, unlink its name, truncate it and
//! wrap it in a pool and buffer; once every buffer kind is announced the
//! copy is issued, and a terminal event ends the one-shot protocol
//! object.  The file operations belong to the process shell; the record
//! here decides them and tracks the descriptor's ownership.

use vstd::prelude::*;

use crate::frame::{FrameFormat, FRAME_FAILED, FRAME_PENDING, FRAME_READY};

verus! {

/// One event of the screencopy per-frame protocol.
#[derive(Clone, Copy, Debug, PartialEq, Eq, Structural)]
pub enum ScreencopyEvent {
    /// Announces the shared-memory buffer shape the compositor will
    /// copy into.
    Buffer { format: u32, width: u32, height: u32, stride: u32 },
    /// Every supported buffer kind has been announced; the copy may be
    /// issued.
    BufferDone,
    /// Terminal: the copy completed.
    Ready,
    /// Terminal: the copy failed.
    Failed,
    /// Damage reported before the copy completed; treated as a failed
    /// capture for this one-shot request.
    Damage,
}

/// What the shell must do after an event is applied.
#[derive(Clone, Copy, Debug, PartialEq, Eq, Structural)]
pub enum ScreencopyAction {
    /// Create the anonymous shared-memory file of exactly this many
    /// bytes, unlink its name, truncate it, wrap it in a pool and
    /// buffer, and attach its descriptor to the record.
    CreatePool { size: usize },
    /// Issue the copy request into the prepared buffer.
    IssueCopy,
    /// The one-shot protocol object is done and must be destroyed; the
    /// record keeps (and eventually closes) any descriptor it owns.
    Destroy,
    /// Nothing; the event carried nothing actionable or arrived out of
    /// protocol.
    Ignore,
}

/// The per-request state of one screencopy capture.  It owns the
/// shared-memory descriptor once the shell attaches it.
pub struct ScreencopyFrame {
    pub fmt: FrameFormat,
    pub stride: u32,
    pub size: usize,
    pub fd: i32,
    pub status: i32,
}

/// What one event does to a record and what it asks of the shell.
/// Events on a terminal record change nothing; a Buffer event whose
/// byte size does not fit the address space fails the request.
pub open spec fn sc_step(f: ScreencopyFrame, e: ScreencopyEvent) -> (
    ScreencopyFrame,
    ScreencopyAction,
) {
    if f.status != FRAME_PENDING {
        (f, ScreencopyAction::Ignore)
    } else {
        match e {
            ScreencopyEvent::Buffer { format, width, height, stride } => {
                if stride * height <= usize::MAX {
                    (
                        ScreencopyFrame {
                            fmt: FrameFormat { w: width, h: height, modifier: 0, format },
                            stride,
                            size: (stride * height) as usize,
                            ..f
                        },
                        ScreencopyAction::CreatePool { size: (stride * height) as usize },
                    )
                } else {
                    (
                        ScreencopyFrame { status: FRAME_FAILED, ..f },
                        ScreencopyAction::Destroy,
                    )
                }
            },
            ScreencopyEvent::BufferDone => {
                if f.size > 0 {
                    (f, ScreencopyAction::IssueCopy)
                } else {
                    (f, ScreencopyAction::Ignore)
                }
            },
            ScreencopyEvent::Ready => (
                ScreencopyFrame { status: FRAME_READY, ..f },
                ScreencopyAction::Destroy,
            ),
            ScreencopyEvent::Failed => (
                ScreencopyFrame { status: FRAME_FAILED, ..f },
                ScreencopyAction::Destroy,
            ),
            ScreencopyEvent::Damage => (
                ScreencopyFrame { status: FRAME_FAILED, ..f },
                ScreencopyAction::Destroy,
            ),
        }
    }
}

impl ScreencopyFrame {
    /// A fresh pending request without buffer or descriptor.
    pub fn new() -> (r: ScreencopyFrame)
        ensures
            r.status == FRAME_PENDING,
            r.fmt == (FrameFormat { w: 0, h: 0, modifier: 0, format: 0 }),
            r.stride == 0,
            r.size == 0,
            r.fd == -1,
    {
        ScreencopyFrame {
            fmt: FrameFormat::new(),
            stride: 0,
            size: 0,
            fd: -1,
            status: FRAME_PENDING,
        }
    }

    /// Applies one protocol event and reports what the shell must do.
    /// An event delivered to an already-terminal record does not mutate
    /// it.
    pub fn handle_event(&mut self, e: ScreencopyEvent) -> (r: ScreencopyAction)
        ensures
            (*final(self), r) == sc_step(*old(self), e),
            old(self).status != FRAME_PENDING ==> *final(self) == *old(self) && r is Ignore,
    {
        if self.status != FRAME_PENDING {
            return ScreencopyAction::Ignore;
        }
        match e {
            ScreencopyEvent::Buffer { format, width, height, stride } => {
                let s64: u64 = stride as u64;
                let h64: u64 = height as u64;
                proof {
                    assert(s64 * h64 <= 0xFFFF_FFFFu64 * 0xFFFF_FFFFu64) by (nonlinear_arith)
                        requires
                            s64 <= 0xFFFF_FFFFu64,
                            h64 <= 0xFFFF_FFFFu64,
                    ;
                }
                let size64: u64 = s64 * h64;
                if size64 <= usize::MAX as u64 {
                    self.fmt = FrameFormat { w: width, h: height, modifier: 0, format };
                    self.stride = stride;
                    self.size = size64 as usize;
                    ScreencopyAction::CreatePool { size: self.size }
                } else {
                    self.status = FRAME_FAILED;
                    ScreencopyAction::Destroy
                }
            },
            ScreencopyEvent::BufferDone => {
                if self.size > 0 {
                    ScreencopyAction::IssueCopy
                } else {
                    ScreencopyAction::Ignore
                }
            },
            ScreencopyEvent::Ready => {
                self.status = FRAME_READY;
                ScreencopyAction::Destroy
            },
            ScreencopyEvent::Failed => {
                self.status = FRAME_FAILED;
                ScreencopyAction::Destroy
            },
            ScreencopyEvent::Damage => {
                self.status = FRAME_FAILED;
                ScreencopyAction::Destroy
            },
        }
    }

    /// Attaches the shared-memory descriptor of the pool the shell
    /// created, transferring its ownership to the record.
    pub fn attach_shm_fd(&mut self, fd: i32)
        requires
            old(self).status == FRAME_PENDING,
            old(self).fd == -1,
            fd >= 0,
        ensures
            *final(self) == (ScreencopyFrame { fd, ..*old(self) }),
    {
        self.fd = fd;
    }

    /// Surrenders the shared-memory descriptor, if the record still owns
    /// one, marking the slot vacant so the descriptor leaves exactly
    /// once.  The caller becomes its owner and must close it.
    pub fn release_fd(&mut self) -> (r: Option<i32>)
        ensures
            *final(self) == (ScreencopyFrame { fd: -1i32, ..*old(self) }),
            r == if old(self).fd >= 0 {
                Some(old(self).fd)
            } else {
                None::<i32>
            },
    {
        let fd = self.fd;
        self.fd = -1;
        if fd >= 0 {
            Some(fd)
        } else {
            None
        }
    }
}

} // verus!
