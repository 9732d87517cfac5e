//! Connection-level client state: the set of enumerated outputs and the
//! optional capture managers the registry offered.
//!
//! The process shell owns the socket and the event queue; it feeds every
//! event it dispatches into this state, addressed by the output's
//! registry id, and reads the populated descriptors back out.

use vstd::prelude::*;

use crate::output::{OutputEvent, OutputState, XdgOutputEvent, xdg_step, output_step};

verus! {

/// Client-side view of the compositor connection: one descriptor per
/// output global, and which optional capture managers were present.
pub struct WlClientState {
    pub outputs: Vec<OutputState>,
    pub has_dmabuf_manager: bool,
    pub has_screencopy_manager: bool,
    pub desktop_rect: (i32, i32),
}

impl WlClientState {
    /// Two outputs never share a registry id.
    pub open spec fn wf(self) -> bool {
        forall|i: int, j: int|
            0 <= i < j < self.outputs@.len() ==> self.outputs@[i].id != self.outputs@[j].id
    }

    /// A fresh connection state; the shell reports which optional capture
    /// managers the registry offered.
    pub fn new(has_dmabuf_manager: bool, has_screencopy_manager: bool) -> (r: WlClientState)
        ensures
            r.wf(),
            r.outputs@.len() == 0,
            r.has_dmabuf_manager == has_dmabuf_manager,
            r.has_screencopy_manager == has_screencopy_manager,
            r.desktop_rect == (0i32, 0i32),
    {
        WlClientState {
            outputs: Vec::new(),
            has_dmabuf_manager,
            has_screencopy_manager,
            desktop_rect: (0, 0),
        }
    }

    /// The position of the output with the given registry id, if any; the
    /// first such position if the state is not well formed.
    pub fn find_output_index(&self, id: u32) -> (r: Option<usize>)
        ensures
            match r {
                Some(i) => i < self.outputs@.len() && self.outputs@[i as int].id == id
                    && forall|j: int| 0 <= j < i ==> self.outputs@[j].id != id,
                None => forall|j: int| 0 <= j < self.outputs@.len() ==> self.outputs@[j].id != id,
            },
    {
        let mut i: usize = 0;
        while i < self.outputs.len()
            invariant
                i <= self.outputs@.len(),
                forall|j: int| 0 <= j < i ==> self.outputs@[j].id != id,
            decreases self.outputs@.len() - i,
        {
            if self.outputs[i].id == id {
                return Some(i);
            }
            i = i + 1;
        }
        None
    }

    /// Binds a newly announced output global.  An id that is already
    /// bound is left alone, so the id stays unique across the list.
    pub fn register_output(&mut self, id: u32)
        requires
            old(self).wf(),
        ensures
            final(self).wf(),
            final(self).has_dmabuf_manager == old(self).has_dmabuf_manager,
            final(self).has_screencopy_manager == old(self).has_screencopy_manager,
            final(self).desktop_rect == old(self).desktop_rect,
            (exists|j: int|
                0 <= j < old(self).outputs@.len() && old(self).outputs@[j].id == id)
                ==> *final(self) == *old(self),
            (forall|j: int| 0 <= j < old(self).outputs@.len() ==> old(self).outputs@[j].id != id)
                ==> {
                &&& final(self).outputs@.len() == old(self).outputs@.len() + 1
                &&& forall|i: int|
                    0 <= i < old(self).outputs@.len()
                        ==> final(self).outputs@[i] == old(self).outputs@[i]
                &&& final(self).outputs@.last().id == id
                &&& !final(self).outputs@.last().done
            },
    {
        if self.find_output_index(id).is_none() {
            let o = OutputState::new(id);
            self.outputs.push(o);
        }
    }

    /// Routes one extended-geometry event to the output it addresses.
    /// An id that matches no output is ignored.
    pub fn handle_xdg_event(&mut self, id: u32, e: XdgOutputEvent)
        requires
            old(self).wf(),
        ensures
            final(self).wf(),
            final(self).has_dmabuf_manager == old(self).has_dmabuf_manager,
            final(self).has_screencopy_manager == old(self).has_screencopy_manager,
            final(self).desktop_rect == old(self).desktop_rect,
            final(self).outputs@.len() == old(self).outputs@.len(),
            forall|i: int|
                0 <= i < old(self).outputs@.len() && old(self).outputs@[i].id != id
                    ==> final(self).outputs@[i] == old(self).outputs@[i],
            forall|i: int|
                0 <= i < old(self).outputs@.len() && old(self).outputs@[i].id == id
                    ==> final(self).outputs@[i] == xdg_step(old(self).outputs@[i], e),
    {
        if let Some(i) = self.find_output_index(id) {
            self.outputs[i].apply_xdg_event(e);
        }
    }

    /// Routes one base output event to the output it addresses.  An id
    /// that matches no output is ignored.
    pub fn handle_output_event(&mut self, id: u32, e: OutputEvent)
        requires
            old(self).wf(),
        ensures
            final(self).wf(),
            final(self).has_dmabuf_manager == old(self).has_dmabuf_manager,
            final(self).has_screencopy_manager == old(self).has_screencopy_manager,
            final(self).desktop_rect == old(self).desktop_rect,
            final(self).outputs@.len() == old(self).outputs@.len(),
            forall|i: int|
                0 <= i < old(self).outputs@.len() && old(self).outputs@[i].id != id
                    ==> final(self).outputs@[i] == old(self).outputs@[i],
            forall|i: int|
                0 <= i < old(self).outputs@.len() && old(self).outputs@[i].id == id
                    ==> final(self).outputs@[i] == output_step(old(self).outputs@[i], e),
    {
        if let Some(i) = self.find_output_index(id) {
            self.outputs[i].apply_output_event(e);
        }
    }

    /// Whether every enumerated output has reported its terminal
    /// geometry event; the enumeration round-trips block until this
    /// holds.
    pub fn all_outputs_done(&self) -> (r: bool)
        ensures
            r == forall|i: int| 0 <= i < self.outputs@.len() ==> (#[trigger] self.outputs@[i]).done,
    {
        let mut i: usize = 0;
        while i < self.outputs.len()
            invariant
                i <= self.outputs@.len(),
                forall|j: int| 0 <= j < i ==> (#[trigger] self.outputs@[j]).done,
            decreases self.outputs@.len() - i,
        {
            if !self.outputs[i].done {
                return false;
            }
            i = i + 1;
        }
        true
    }

    /// The lower-right corner of the desktop: the largest logical
    /// position-plus-size over all outputs, per axis.
    pub fn get_desktop_extent(&self) -> (r: (i64, i64))
        ensures
            r.0 == spec_extent_x(self.outputs@, self.outputs@.len() as int),
            r.1 == spec_extent_y(self.outputs@, self.outputs@.len() as int),
    {
        let mut ex: i64 = 0;
        let mut ey: i64 = 0;
        let mut i: usize = 0;
        while i < self.outputs.len()
            invariant
                i <= self.outputs@.len(),
                ex == spec_extent_x(self.outputs@, i as int),
                ey == spec_extent_y(self.outputs@, i as int),
            decreases self.outputs@.len() - i,
        {
            let o = &self.outputs[i];
            let cx = o.logical_pos.0 as i64 + o.logical_size.0 as i64;
            let cy = o.logical_pos.1 as i64 + o.logical_size.1 as i64;
            if cx > ex {
                ex = cx;
            }
            if cy > ey {
                ey = cy;
            }
            i = i + 1;
        }
        (ex, ey)
    }
}

/// The horizontal desktop extent over the first `n` outputs, starting
/// from zero.
pub open spec fn spec_extent_x(s: Seq<OutputState>, n: int) -> int
    decreases n,
{
    if n <= 0 {
        0
    } else {
        let c = s[n - 1].logical_pos.0 + s[n - 1].logical_size.0;
        let p = spec_extent_x(s, n - 1);
        if c > p {
            c
        } else {
            p
        }
    }
}

/// The vertical desktop extent over the first `n` outputs, starting from
/// zero.
pub open spec fn spec_extent_y(s: Seq<OutputState>, n: int) -> int
    decreases n,
{
    if n <= 0 {
        0
    } else {
        let c = s[n - 1].logical_pos.1 + s[n - 1].logical_size.1;
        let p = spec_extent_y(s, n - 1);
        if c > p {
            c
        } else {
            p
        }
    }
}

} // verus!
