//! The dynamic extension loader's state: the write-once table of
//! resolved GL/display entry points and the capability list of
//! importable formats.
//!
//! The process shell resolves the entry points at startup — the GPU
//! context must already exist — and installs them here exactly once;
//! every capture backend starts only after that.  Entry points are
//! carried as opaque non-zero handles.  The capability query itself is a
//! two-call count-then-fill pattern the shell performs; its results are
//! filtered and assembled here.

use vstd::prelude::*;

use crate::frame::{DrmFormat, DRM_FORMAT_ABGR8888, DRM_FORMAT_ARGB8888, DRM_FORMAT_XBGR8888,
    DRM_FORMAT_XRGB8888};
use crate::params::is_wanted_fourcc;

verus! {

/// The write-once table of resolved entry points and display handles.
/// A zero handle means "not resolved".
#[derive(Clone, Copy, Debug, PartialEq, Eq, Structural)]
pub struct LoaderState {
    pub initialized: bool,
    pub context: u64,
    pub display: u64,
    pub display_native: u64,
    pub fn_create_image: u64,
    pub fn_destroy_image: u64,
    pub fn_get_error: u64,
    pub fn_image_target_texture: u64,
    pub fn_copy_image_sub_data: u64,
    pub fn_query_formats: u64,
    pub fn_query_modifiers: u64,
}

impl LoaderState {
    /// Initialization resolved everything a zero-copy import needs.
    pub open spec fn ready(self) -> bool {
        &&& self.initialized
        &&& self.context != 0
        &&& self.display != 0
        &&& self.display_native != 0
        &&& self.fn_create_image != 0
        &&& self.fn_destroy_image != 0
        &&& self.fn_get_error != 0
        &&& self.fn_image_target_texture != 0
    }

    /// The empty table, before initialization.
    pub fn new() -> (r: LoaderState)
        ensures
            !r.initialized,
            r.context == 0,
            r.display == 0,
    {
        LoaderState {
            initialized: false,
            context: 0,
            display: 0,
            display_native: 0,
            fn_create_image: 0,
            fn_destroy_image: 0,
            fn_get_error: 0,
            fn_image_target_texture: 0,
            fn_copy_image_sub_data: 0,
            fn_query_formats: 0,
            fn_query_modifiers: 0,
        }
    }

    /// Installs the resolved entry points, once, before any capture
    /// starts.  The required entry points and the context's display must
    /// have resolved; the platform-native display is optional and falls
    /// back to the context's display, which then simply reports no
    /// importable formats.  The optional query entry points may be zero.
    pub fn init(
        &mut self,
        context: u64,
        display: u64,
        platform_display: u64,
        fn_create_image: u64,
        fn_destroy_image: u64,
        fn_get_error: u64,
        fn_image_target_texture: u64,
        fn_copy_image_sub_data: u64,
        fn_query_formats: u64,
        fn_query_modifiers: u64,
    )
        requires
            !old(self).initialized,
            context != 0,
            display != 0,
            fn_create_image != 0,
            fn_destroy_image != 0,
            fn_get_error != 0,
            fn_image_target_texture != 0,
        ensures
            final(self).ready(),
            final(self).context == context,
            final(self).display == display,
            final(self).display_native == if platform_display != 0 {
                platform_display
            } else {
                display
            },
            final(self).fn_create_image == fn_create_image,
            final(self).fn_destroy_image == fn_destroy_image,
            final(self).fn_get_error == fn_get_error,
            final(self).fn_image_target_texture == fn_image_target_texture,
            final(self).fn_copy_image_sub_data == fn_copy_image_sub_data,
            final(self).fn_query_formats == fn_query_formats,
            final(self).fn_query_modifiers == fn_query_modifiers,
    {
        self.initialized = true;
        self.context = context;
        self.display = display;
        self.display_native = if platform_display != 0 {
            platform_display
        } else {
            display
        };
        self.fn_create_image = fn_create_image;
        self.fn_destroy_image = fn_destroy_image;
        self.fn_get_error = fn_get_error;
        self.fn_image_target_texture = fn_image_target_texture;
        self.fn_copy_image_sub_data = fn_copy_image_sub_data;
        self.fn_query_formats = fn_query_formats;
        self.fn_query_modifiers = fn_query_modifiers;
    }

    /// Whether the capability query can run at all.  When it cannot, the
    /// capability list stays empty and every backend degrades to the
    /// CPU-upload path — a non-fatal condition.
    pub fn can_query_formats(&self) -> (r: bool)
        ensures
            r == (self.initialized && self.fn_query_formats != 0 && self.fn_query_modifiers != 0),
    {
        self.initialized && self.fn_query_formats != 0 && self.fn_query_modifiers != 0
    }
}

/// The importable subset of a queried fourcc list, in query order.
pub open spec fn spec_wanted_subset(fmts: Seq<u32>) -> Seq<u32>
    decreases fmts.len(),
{
    if fmts.len() == 0 {
        Seq::empty()
    } else {
        spec_wanted_subset(fmts.drop_last()) + if is_wanted_fourcc(fmts.last()) {
            seq![fmts.last()]
        } else {
            Seq::<u32>::empty()
        }
    }
}

/// Filters a queried fourcc list down to the fixed whitelist of 32-bit
/// RGBA/BGRA byte-order formats the importer understands.  A query that
/// returned nothing yields nothing — an empty capability list is not an
/// error.
pub fn filter_wanted_formats(fmts: &Vec<u32>) -> (r: Vec<u32>)
    ensures
        r@ == spec_wanted_subset(fmts@),
        fmts@.len() == 0 ==> r@.len() == 0,
        forall|i: int| 0 <= i < r@.len() ==> is_wanted_fourcc(#[trigger] r@[i]),
{
    let mut out: Vec<u32> = Vec::new();
    let mut i: usize = 0;
    while i < fmts.len()
        invariant
            i <= fmts@.len(),
            out@ == spec_wanted_subset(fmts@.take(i as int)),
            forall|k: int| 0 <= k < out@.len() ==> is_wanted_fourcc(#[trigger] out@[k]),
        decreases fmts@.len() - i,
    {
        let code = fmts[i];
        if code == DRM_FORMAT_ARGB8888 || code == DRM_FORMAT_ABGR8888
            || code == DRM_FORMAT_XRGB8888 || code == DRM_FORMAT_XBGR8888 {
            out.push(code);
        }
        proof {
            assert(fmts@.take(i + 1).drop_last() =~= fmts@.take(i as int));
            assert(fmts@.take(i + 1).last() == fmts@[i as int]);
            assert(out@ =~= spec_wanted_subset(fmts@.take(i + 1)));
        }
        i = i + 1;
    }
    proof {
        assert(fmts@.take(fmts@.len() as int) =~= fmts@);
    }
    out
}

/// Assembles the capability list from the per-format modifier queries
/// the shell performed: one entry per queried format, in order, each
/// keeping its modifiers.  Zero queried formats yield an empty list —
/// not an error.
pub fn build_capability_list(queried: Vec<(u32, Vec<u64>)>) -> (r: Vec<DrmFormat>)
    ensures
        r@.len() == queried@.len(),
        forall|i: int|
            0 <= i < r@.len() ==> (#[trigger] r@[i]).code == queried@[i].0 && r@[i].modifiers@
                == queried@[i].1@,
{
    let ghost q0 = queried@;
    let mut rest = queried;
    let mut out: Vec<DrmFormat> = Vec::new();
    while rest.len() > 0
        invariant
            rest@.len() + out@.len() == q0.len(),
            rest@ == q0.take(rest@.len() as int),
            forall|k: int|
                0 <= k < out@.len() ==> (#[trigger] out@[k]).code == q0[rest@.len() + k].0
                    && out@[k].modifiers@ == q0[rest@.len() + k].1@,
        decreases rest@.len(),
    {
        let ghost before = rest@;
        let (code, modifiers) = rest.pop().unwrap();
        proof {
            assert(rest@ =~= q0.take(rest@.len() as int));
            assert(before.last() == q0[rest@.len() as int]);
        }
        out.insert(0, DrmFormat { code, modifiers });
    }
    out
}

} // verus!
