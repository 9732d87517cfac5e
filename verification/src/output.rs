//! Output descriptors and the asynchronous geometry events that fill them.
//!
//! Every output global found at registry enumeration gets an
//! [`OutputState`].  Geometry, name and mode arrive as events in no fixed
//! order; a final `Done` event normalizes a negative logical size and
//! marks the descriptor complete.

use vstd::prelude::*;

verus! {

/// An output's transform, as reported by the compositor.
#[derive(Clone, Copy, Debug, PartialEq, Eq, Structural)]
pub enum Transform {
    Normal,
    Rotated90,
    Rotated180,
    Rotated270,
    Flipped,
    Flipped90,
    Flipped180,
    Flipped270,
}

/// Descriptor of one compositor output: identity, physical pixel size,
/// logical position and size in desktop coordinates, and its transform.
#[derive(Debug, PartialEq, Eq)]
pub struct OutputState {
    pub id: u32,
    pub name: String,
    pub model: String,
    pub size: (i32, i32),
    pub logical_pos: (i32, i32),
    pub logical_size: (i32, i32),
    pub transform: Transform,
    pub done: bool,
}

/// An event of the extended-geometry protocol, addressed to one output.
#[derive(Debug, PartialEq, Eq)]
pub enum XdgOutputEvent {
    Name { name: String },
    LogicalPosition { x: i32, y: i32 },
    LogicalSize { width: i32, height: i32 },
    Done,
}

/// An event of the base output protocol, addressed to one output.
#[derive(Debug, PartialEq, Eq)]
pub enum OutputEvent {
    Mode { width: i32, height: i32 },
    Geometry { model: String, transform: Transform },
}

/// Normalization of one axis: a negative logical size moves the position
/// by the size and flips the size's sign, so that the size is
/// non-negative and the rectangle covers the same span.  An axis whose
/// normalized value would not fit the coordinate type is left as it is.
pub open spec fn spec_norm_axis(pos: i32, size: i32) -> (i32, i32) {
    if size < 0 && size > i32::MIN && pos + size >= i32::MIN {
        (((pos + size) as int) as i32, (-(size as int)) as i32)
    } else {
        (pos, size)
    }
}

/// Both axes of a position/size pair normalized.
pub open spec fn spec_normalize(pos: (i32, i32), size: (i32, i32)) -> ((i32, i32), (i32, i32)) {
    let (px, sx) = spec_norm_axis(pos.0, size.0);
    let (py, sy) = spec_norm_axis(pos.1, size.1);
    ((px, py), (sx, sy))
}

/// What one extended-geometry event does to an output descriptor.
pub open spec fn xdg_step(o: OutputState, e: XdgOutputEvent) -> OutputState {
    match e {
        XdgOutputEvent::Name { name } => OutputState { name, ..o },
        XdgOutputEvent::LogicalPosition { x, y } => OutputState { logical_pos: (x, y), ..o },
        XdgOutputEvent::LogicalSize { width, height } => OutputState {
            logical_size: (width, height),
            ..o
        },
        XdgOutputEvent::Done => {
            let (pos, size) = spec_normalize(o.logical_pos, o.logical_size);
            OutputState { logical_pos: pos, logical_size: size, done: true, ..o }
        },
    }
}

/// What one base output event does to an output descriptor.
pub open spec fn output_step(o: OutputState, e: OutputEvent) -> OutputState {
    match e {
        OutputEvent::Mode { width, height } => OutputState { size: (width, height), ..o },
        OutputEvent::Geometry { model, transform } => OutputState { model, transform, ..o },
    }
}

impl OutputState {
    /// A freshly bound output, before any of its events arrived.
    pub fn new(id: u32) -> (r: OutputState)
        ensures
            r.id == id,
            r.name@ == "Unknown"@,
            r.model@ == "Unknown"@,
            r.size == (0i32, 0i32),
            r.logical_pos == (0i32, 0i32),
            r.logical_size == (0i32, 0i32),
            r.transform == Transform::Normal,
            !r.done,
    {
        OutputState {
            id,
            name: "Unknown".to_string(),
            model: "Unknown".to_string(),
            size: (0, 0),
            logical_pos: (0, 0),
            logical_size: (0, 0),
            transform: Transform::Normal,
            done: false,
        }
    }

    /// Applies one extended-geometry event to this output.
    pub fn apply_xdg_event(&mut self, e: XdgOutputEvent)
        ensures
            *final(self) == xdg_step(*old(self), e),
    {
        match e {
            XdgOutputEvent::Name { name } => {
                self.name = name;
            },
            XdgOutputEvent::LogicalPosition { x, y } => {
                self.logical_pos = (x, y);
            },
            XdgOutputEvent::LogicalSize { width, height } => {
                self.logical_size = (width, height);
            },
            XdgOutputEvent::Done => {
                let (px, sx) = norm_axis(self.logical_pos.0, self.logical_size.0);
                let (py, sy) = norm_axis(self.logical_pos.1, self.logical_size.1);
                self.logical_pos = (px, py);
                self.logical_size = (sx, sy);
                self.done = true;
            },
        }
    }

    /// Applies one base output event to this output.
    pub fn apply_output_event(&mut self, e: OutputEvent)
        ensures
            *final(self) == output_step(*old(self), e),
    {
        match e {
            OutputEvent::Mode { width, height } => {
                self.size = (width, height);
            },
            OutputEvent::Geometry { model, transform } => {
                self.model = model;
                self.transform = transform;
            },
        }
    }
}

/// One axis of the negative-size normalization, as plain arithmetic.
fn norm_axis(pos: i32, size: i32) -> (r: (i32, i32))
    ensures
        r == spec_norm_axis(pos, size),
{
    if size < 0 && size > i32::MIN && pos as i64 + size as i64 >= i32::MIN as i64 {
        (pos + size, -size)
    } else {
        (pos, size)
    }
}

/// Law: normalization is idempotent — applying it twice yields the same
/// descriptor as applying it once.
pub proof fn lemma_normalize_idempotent(pos: (i32, i32), size: (i32, i32))
    ensures
        ({
            let (p1, s1) = spec_normalize(pos, size);
            spec_normalize(p1, s1) == (p1, s1)
        }),
{
}

} // verus!
