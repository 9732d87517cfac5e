//! Zero-copy import planning: what the GL shell must do with a captured
//! frame to get it into a caller-owned texture.
//!
//! A DMA-BUF frame becomes a flat attribute list for a platform image
//! that is attached as the texture's storage; a shared-memory or
//! raw-pointer frame becomes a plain 2D upload with a format/pixel-type
//! pair from a small fourcc-keyed table.  One GPU driver family needs a
//! driver-tagged BGRA internal format for byte-swapped sources; the
//! others take plain RGBA with a swapped external format.  The shell
//! queries the vendor string once and passes the cached choice in.

use vstd::prelude::*;

use crate::frame::{
    FrameFormat, FramePlane, DRM_FORMAT_ABGR8888, DRM_FORMAT_ARGB8888, DRM_FORMAT_XBGR8888,
    DRM_FORMAT_XRGB8888,
};
use crate::pw::{FrameSlot, PipewireFrame};

verus! {

/// GL external format: RGBA byte order.
pub const GL_RGBA: u32 = 0x1908;

/// GL internal format: plain 8-bit RGBA.
pub const GL_RGBA8: u32 = 0x8058;

/// GL external format: BGRA byte order.
pub const GL_BGRA: u32 = 0x80E1;

/// GL internal format: driver-tagged 8-bit BGRA.
pub const GL_BGRA8_EXT: u32 = 0x93A1;

/// Format of a frame about to be imported: size, fourcc code and the
/// full 64-bit modifier.
#[derive(Clone, Copy, Debug, PartialEq, Eq, Structural)]
pub struct DmabufFrameFormat {
    pub width: u32,
    pub height: u32,
    pub format: u32,
    pub modifier: u64,
}

/// The import descriptor equivalent to a capture-side format.
pub open spec fn spec_import_format(f: FrameFormat) -> DmabufFrameFormat {
    DmabufFrameFormat { width: f.w, height: f.h, format: f.format, modifier: f.modifier }
}

impl DmabufFrameFormat {
    /// The import descriptor of a capture-side format.
    pub fn from_frame(f: &FrameFormat) -> (r: DmabufFrameFormat)
        ensures
            r == spec_import_format(*f),
    {
        DmabufFrameFormat { width: f.w, height: f.h, format: f.format, modifier: f.modifier }
    }

    /// Upper 32 bits of the modifier.
    pub fn get_mod_hi(&self) -> (r: u32)
        ensures
            r as u64 == self.modifier >> 32,
            r == ((self.modifier >> 32) as u32),
    {
        let m = self.modifier;
        proof {
            assert(m >> 32 <= 0xFFFF_FFFFu64) by (bit_vector);
        }
        (m >> 32) as u32
    }

    /// Lower 32 bits of the modifier.
    pub fn get_mod_lo(&self) -> (r: u32)
        ensures
            r as u64 == self.modifier & 0xFFFF_FFFF,
            r == ((self.modifier & 0xFFFF_FFFF) as u32),
    {
        let m = self.modifier;
        proof {
            assert(m & 0xFFFF_FFFF <= 0xFFFF_FFFFu64) by (bit_vector);
        }
        (m & 0xFFFF_FFFF) as u32
    }

    /// Reassembles the modifier from two 32-bit halves.
    pub fn set_mod(&mut self, mod_hi: u32, mod_low: u32)
        ensures
            final(self).modifier == ((mod_hi as u64) << 32) + mod_low as u64,
            final(self).width == old(self).width,
            final(self).height == old(self).height,
            final(self).format == old(self).format,
    {
        proof {
            assert((mod_hi as u64) << 32 <= 0xFFFF_FFFF_0000_0000u64) by (bit_vector);
        }
        self.modifier = ((mod_hi as u64) << 32) + mod_low as u64;
    }
}

/// A format choice pinned to a single modifier, the shape a settled
/// negotiation takes.
#[derive(Clone, Copy, Debug, PartialEq, Eq, Structural)]
pub struct DrmFormat {
    pub code: u32,
    pub modifier: u64,
}

/// The attribute codes of one plane slot of a platform-image request:
/// descriptor, offset, stride, low and high modifier half, in that
/// order.
pub open spec fn spec_plane_attr_codes(i: int) -> (isize, isize, isize, isize, isize) {
    if i == 0 {
        (0x3272isize, 0x3273isize, 0x3274isize, 0x3443isize, 0x3444isize)
    } else if i == 1 {
        (0x3275isize, 0x3276isize, 0x3277isize, 0x3445isize, 0x3446isize)
    } else if i == 2 {
        (0x3278isize, 0x3279isize, 0x327Aisize, 0x3447isize, 0x3448isize)
    } else {
        (0x3440isize, 0x3441isize, 0x3442isize, 0x3449isize, 0x344Aisize)
    }
}

/// The ten attribute entries describing plane `i`.
pub open spec fn spec_plane_attribs(
    fmt: DmabufFrameFormat,
    planes: Seq<FramePlane>,
    i: int,
) -> Seq<isize> {
    let (c_fd, c_off, c_stride, c_mlo, c_mhi) = spec_plane_attr_codes(i);
    seq![
        c_fd, planes[i].fd as isize,
        c_off, planes[i].offset as isize,
        c_stride, planes[i].stride as isize,
        c_mlo, ((fmt.modifier & 0xFFFF_FFFF) as u32) as isize,
        c_mhi, ((fmt.modifier >> 32) as u32) as isize,
    ]
}

/// The plane attribute entries of the first `n` planes, in plane order.
pub open spec fn spec_planes_attribs(
    fmt: DmabufFrameFormat,
    planes: Seq<FramePlane>,
    n: int,
) -> Seq<isize>
    decreases n,
{
    if n <= 0 {
        Seq::empty()
    } else {
        spec_planes_attribs(fmt, planes, n - 1) + spec_plane_attribs(fmt, planes, n - 1)
    }
}

/// The leading entries of an attribute list: width, height, fourcc.
pub open spec fn spec_attr_header(fmt: DmabufFrameFormat) -> Seq<isize> {
    seq![
        0x3057isize, fmt.width as isize,
        0x3056isize, fmt.height as isize,
        0x3271isize, fmt.format as isize,
    ]
}

/// The whole flat attribute list: header, one block of five code/value
/// pairs per plane, and the terminating sentinel.
pub open spec fn spec_image_attribs(
    fmt: DmabufFrameFormat,
    planes: Seq<FramePlane>,
    n: int,
) -> Seq<isize> {
    spec_attr_header(fmt) + spec_planes_attribs(fmt, planes, n) + seq![0x3038isize]
}

/// The attribute codes for plane `i`, as plain values.
fn plane_attr_codes(i: usize) -> (r: (isize, isize, isize, isize, isize))
    ensures
        r == spec_plane_attr_codes(i as int),
{
    if i == 0 {
        (0x3272, 0x3273, 0x3274, 0x3443, 0x3444)
    } else if i == 1 {
        (0x3275, 0x3276, 0x3277, 0x3445, 0x3446)
    } else if i == 2 {
        (0x3278, 0x3279, 0x327A, 0x3447, 0x3448)
    } else {
        (0x3440, 0x3441, 0x3442, 0x3449, 0x344A)
    }
}

/// Builds the flat, sentinel-terminated attribute list from which the
/// GL driver creates a platform image.
pub fn egl_image_attribs(
    fmt: &DmabufFrameFormat,
    planes: &[FramePlane; 4],
    num_planes: usize,
) -> (r: Vec<isize>)
    requires
        num_planes <= 4,
    ensures
        r@ == spec_image_attribs(*fmt, planes@, num_planes as int),
{
    let mut vec: Vec<isize> = Vec::new();
    vec.push(0x3057);
    vec.push(fmt.width as isize);
    vec.push(0x3056);
    vec.push(fmt.height as isize);
    vec.push(0x3271);
    vec.push(fmt.format as isize);
    proof {
        assert(vec@ =~= spec_attr_header(*fmt) + spec_planes_attribs(*fmt, planes@, 0));
    }

    let mod_lo = fmt.get_mod_lo();
    let mod_hi = fmt.get_mod_hi();
    let mut i: usize = 0;
    while i < num_planes
        invariant
            i <= num_planes <= 4,
            mod_lo == ((fmt.modifier & 0xFFFF_FFFF) as u32),
            mod_hi == ((fmt.modifier >> 32) as u32),
            vec@ == spec_attr_header(*fmt) + spec_planes_attribs(*fmt, planes@, i as int),
        decreases num_planes - i,
    {
        let (c_fd, c_off, c_stride, c_mlo, c_mhi) = plane_attr_codes(i);
        vec.push(c_fd);
        vec.push(planes[i].fd as isize);
        vec.push(c_off);
        vec.push(planes[i].offset as isize);
        vec.push(c_stride);
        vec.push(planes[i].stride as isize);
        vec.push(c_mlo);
        vec.push(mod_lo as isize);
        vec.push(c_mhi);
        vec.push(mod_hi as isize);
        proof {
            assert(vec@ =~= spec_attr_header(*fmt) + spec_planes_attribs(*fmt, planes@, i + 1));
        }
        i = i + 1;
    }

    vec.push(0x3038);
    proof {
        assert(vec@ =~= spec_image_attribs(*fmt, planes@, num_planes as int));
    }
    vec
}

/// The internal/external GL format pair for uploading a fourcc, given
/// the cached BGRA internal-format choice; byte-swapped sources take the
/// vendor-dependent internal format, straight sources plain RGBA, and
/// any other fourcc has no upload pair.
pub open spec fn spec_upload_pair(format: u32, bgra_internal: u32) -> Option<(u32, u32)> {
    if format == DRM_FORMAT_ARGB8888 || format == DRM_FORMAT_XRGB8888 {
        Some((bgra_internal, GL_BGRA))
    } else if format == DRM_FORMAT_ABGR8888 || format == DRM_FORMAT_XBGR8888 {
        Some((GL_RGBA8, GL_RGBA))
    } else {
        None
    }
}

/// The upload format pair for a frame's fourcc, or nothing for a fourcc
/// the table does not know.
pub fn fmt_to_gl(fmt: &FrameFormat, bgra_internal: u32) -> (r: Option<(u32, u32)>)
    ensures
        r == spec_upload_pair(fmt.format, bgra_internal),
{
    if fmt.format == DRM_FORMAT_ARGB8888 || fmt.format == DRM_FORMAT_XRGB8888 {
        Some((bgra_internal, GL_BGRA))
    } else if fmt.format == DRM_FORMAT_ABGR8888 || fmt.format == DRM_FORMAT_XBGR8888 {
        Some((GL_RGBA8, GL_RGBA))
    } else {
        None
    }
}

/// The vendor string of the driver family that needs the driver-tagged
/// BGRA internal format.
pub open spec fn spec_nvidia_tag() -> Seq<u8> {
    seq![0x4Eu8, 0x56u8, 0x49u8, 0x44u8, 0x49u8, 0x41u8]
}

/// Whether a vendor string names that driver family.
pub open spec fn spec_vendor_is_nvidia(s: Seq<u8>) -> bool {
    exists|i: int| 0 <= i && i + 6 <= s.len() && #[trigger] s.subrange(i, i + 6) == spec_nvidia_tag()
}

/// The BGRA internal format to cache for a driver vendor string: the
/// driver-tagged format for the family that requires it, plain RGBA
/// otherwise.
pub fn bgra_internal_format(vendor: &[u8]) -> (r: u32)
    ensures
        r == if spec_vendor_is_nvidia(vendor@) {
            GL_BGRA8_EXT
        } else {
            GL_RGBA8
        },
{
    if vendor.len() < 6 {
        return GL_RGBA8;
    }
    let mut i: usize = 0;
    while i <= vendor.len() - 6
        invariant
            vendor@.len() >= 6,
            i <= vendor@.len(),
            forall|j: int| 0 <= j < i ==> #[trigger] vendor@.subrange(j, j + 6) != spec_nvidia_tag(),
        decreases vendor@.len() - i,
    {
        let hit = vendor[i] == 0x4E && vendor[i + 1] == 0x56 && vendor[i + 2] == 0x49
            && vendor[i + 3] == 0x44 && vendor[i + 4] == 0x49 && vendor[i + 5] == 0x41;
        if hit {
            proof {
                assert(vendor@.subrange(i as int, i as int + 6) =~= spec_nvidia_tag());
            }
            return GL_BGRA8_EXT;
        }
        proof {
            let sub = vendor@.subrange(i as int, i as int + 6);
            assert(sub != spec_nvidia_tag()) by {
                if sub == spec_nvidia_tag() {
                    assert(sub[0] == 0x4Eu8);
                    assert(sub[1] == 0x56u8);
                    assert(sub[2] == 0x49u8);
                    assert(sub[3] == 0x44u8);
                    assert(sub[4] == 0x49u8);
                    assert(sub[5] == 0x41u8);
                }
            }
        }
        i = i + 1;
    }
    GL_RGBA8
}

/// What the GL shell must do with one captured frame.
pub enum ImportAction {
    /// Create a platform image from this attribute list and attach it as
    /// the texture's storage; no pixel copy.
    AttachImage { attribs: Vec<isize> },
    /// Map this descriptor read-only for exactly `size` bytes and upload
    /// with the given internal/external format pair.
    UploadFd { fd: i32, size: usize, width: u32, height: u32, internal: u32, external: u32 },
    /// Upload straight from this process-local address with the given
    /// internal/external format pair.
    UploadPtr { ptr: usize, width: u32, height: u32, internal: u32, external: u32 },
    /// No usable frame this tick; the texture keeps its previous
    /// content.
    Skip,
}

/// Whether a shared-memory frame can be uploaded: an open descriptor, a
/// positive stride, a known fourcc and a byte size that fits.
pub open spec fn spec_memfd_uploadable(f: MemFdSpec, bgra_internal: u32) -> bool {
    &&& f.fd > 0
    &&& f.stride > 0
    &&& spec_upload_pair(f.format, bgra_internal) is Some
    &&& f.height * f.stride <= usize::MAX
}

/// The fields of a shared-memory frame that decide its upload.
pub ghost struct MemFdSpec {
    pub fd: int,
    pub stride: int,
    pub format: u32,
    pub height: int,
}

/// The decision view of a shared-memory frame.
pub open spec fn spec_memfd_view(f: crate::frame::MemFdFrame) -> MemFdSpec {
    MemFdSpec {
        fd: f.plane.fd as int,
        stride: f.plane.stride as int,
        format: f.fmt.format,
        height: f.fmt.h as int,
    }
}

/// Whether an import action is the right plan for a captured frame: a
/// DMA-BUF frame with at least one usable descriptor is attached as a
/// platform image; a shared-memory frame is mapped and uploaded when
/// its descriptor, stride and fourcc allow it; a raw-pointer frame is
/// uploaded straight from memory; everything else is skipped, leaving
/// the texture's previous content untouched.
pub open spec fn spec_import_plan_ok(frame: PipewireFrame, bgra_internal: u32, r: ImportAction) -> bool {
    match frame {
        PipewireFrame::Dmabuf(f) => {
            if exists|i: int| 0 <= i < f.num_planes && f.planes[i].fd > 0 {
                r matches ImportAction::AttachImage { attribs } && attribs@ == spec_image_attribs(
                    spec_import_format(f.fmt),
                    f.planes@,
                    f.num_planes as int,
                )
            } else {
                r is Skip
            }
        },
        PipewireFrame::MemFd(f) => {
            if spec_memfd_uploadable(spec_memfd_view(f), bgra_internal) {
                r matches ImportAction::UploadFd { fd, size, width, height, internal, external }
                    && fd == f.plane.fd && size == f.fmt.h * f.plane.stride && width == f.fmt.w
                    && height == f.fmt.h && Some((internal, external)) == spec_upload_pair(
                    f.fmt.format,
                    bgra_internal,
                )
            } else {
                r is Skip
            }
        },
        PipewireFrame::MemPtr(f) => {
            match spec_upload_pair(f.fmt.format, bgra_internal) {
                Some(pair) => r matches ImportAction::UploadPtr {
                    ptr,
                    width,
                    height,
                    internal,
                    external,
                } && ptr == f.ptr && width == f.fmt.w && height == f.fmt.h && (
                internal,
                external,
                ) == pair,
                None => r is Skip,
            }
        },
    }
}

/// Plans the import of one captured frame.
pub fn plan_import(frame: &PipewireFrame, bgra_internal: u32) -> (r: ImportAction)
    requires
        frame matches PipewireFrame::Dmabuf(f) ==> f.wf(),
    ensures
        spec_import_plan_ok(*frame, bgra_internal, r),
{
    match frame {
        PipewireFrame::Dmabuf(f) => {
            if f.is_valid() {
                ImportAction::AttachImage { attribs: f.get_attribs() }
            } else {
                ImportAction::Skip
            }
        },
        PipewireFrame::MemFd(f) => {
            if f.plane.fd <= 0 || f.plane.stride <= 0 {
                return ImportAction::Skip;
            }
            let pair = match fmt_to_gl(&f.fmt, bgra_internal) {
                Some(p) => p,
                None => {
                    return ImportAction::Skip;
                },
            };
            let h64: u64 = f.fmt.h as u64;
            let s64: u64 = f.plane.stride as u64;
            proof {
                assert(h64 * s64 <= 0xFFFF_FFFFu64 * 0x7FFF_FFFFu64) by (nonlinear_arith)
                    requires
                        h64 <= 0xFFFF_FFFFu64,
                        s64 <= 0x7FFF_FFFFu64,
                ;
            }
            let size64: u64 = h64 * s64;
            if size64 > usize::MAX as u64 {
                return ImportAction::Skip;
            }
            ImportAction::UploadFd {
                fd: f.plane.fd,
                size: size64 as usize,
                width: f.fmt.w,
                height: f.fmt.h,
                internal: pair.0,
                external: pair.1,
            }
        },
        PipewireFrame::MemPtr(f) => {
            match fmt_to_gl(&f.fmt, bgra_internal) {
                Some(pair) => ImportAction::UploadPtr {
                    ptr: f.ptr,
                    width: f.fmt.w,
                    height: f.fmt.h,
                    internal: pair.0,
                    external: pair.1,
                },
                None => ImportAction::Skip,
            }
        },
    }
}

/// One render tick of the PipeWire backend: consumes the frame waiting
/// in the handoff slot, if any, and plans its import; with nothing
/// published since the last tick the texture keeps its previous
/// content.
pub fn render_pipewire_frame(slot: &mut FrameSlot, bgra_internal: u32) -> (r: ImportAction)
    requires
        old(slot).wf(),
    ensures
        final(slot).slot is None,
        final(slot).wf(),
        old(slot).slot is None ==> r is Skip,
        old(slot).slot matches Some(f) ==> spec_import_plan_ok(f, bgra_internal, r),
{
    match slot.take() {
        Some(frame) => plan_import(&frame, bgra_internal),
        None => ImportAction::Skip,
    }
}

} // verus!
