//! Core logic of a Wayland desktop capture subsystem.
//!
//! The crate models the per-frame protocol state machines of the two
//! wlroots capture extensions, the PipeWire stream negotiation (including
//! the binary parameter encoding), the zero-copy import planning for
//! captured frames, the capability table of importable DRM formats, and
//! the selection of a capture backend per output.  All decisions are made
//! here on plain values; the process-level shell that talks to the
//! compositor, the PipeWire daemon and the GL driver lives outside the
//! verified library and only executes the plans produced here.

pub mod capture;
pub mod dmabuf;
pub mod frame;
pub mod gl;
pub mod loader;
pub mod output;
pub mod params;
pub mod pod;
pub mod pw;
pub mod screencopy;
pub mod wl_client;
