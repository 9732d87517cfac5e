//! The stream parameters offered to the media-streaming producer.
//!
//! Negotiation sends an ordered candidate list: one format object per
//! importable DRM format (when zero-copy buffers are allowed), then one
//! unrestricted-memory object as universal fallback.  After the producer
//! picks an entry, a buffer-parameter object widens the accepted buffer
//! kinds.  Every builder's contract states the exact byte encoding.

use vstd::prelude::*;

use crate::frame::{
    DrmFormat, DRM_FORMAT_ABGR8888, DRM_FORMAT_ARGB8888, DRM_FORMAT_XBGR8888, DRM_FORMAT_XRGB8888,
};
use crate::pod::{
    le32, spec_choice_id_enum, spec_choice_long_enum, spec_choice_pair_range, spec_pod_id,
    spec_pod_int, spec_pod_object, spec_prop, push_choice_id_enum, push_choice_long_enum,
    push_choice_pair_range, push_pod_id, push_pod_int, push_u32_le, lemma_le32_concat_len,
    lemma_le64_concat_len, SPA_TYPE_FRACTION, SPA_TYPE_OBJECT, SPA_TYPE_RECTANGLE,
};

verus! {

/// Object type code of a format description.
pub const SPA_TYPE_OBJECT_FORMAT: u32 = 0x40003;

/// Object type code of a buffer-requirements description.
pub const SPA_TYPE_OBJECT_PARAM_BUFFERS: u32 = 0x40004;

/// Parameter id under which candidate formats are enumerated.
pub const SPA_PARAM_ENUM_FORMAT: u32 = 3;

/// Parameter id of buffer requirements.
pub const SPA_PARAM_BUFFERS: u32 = 5;

/// Buffer-parameter key: accepted backing-memory kinds, as a bit mask.
pub const SPA_PARAM_BUFFERS_DATA_TYPE: u32 = 6;

/// Format key: the media type.
pub const SPA_FORMAT_MEDIA_TYPE: u32 = 1;

/// Format key: the media subtype.
pub const SPA_FORMAT_MEDIA_SUBTYPE: u32 = 2;

/// Format key: the concrete video pixel format.
pub const SPA_FORMAT_VIDEO_FORMAT: u32 = 0x20001;

/// Format key: the DRM modifier of the video format.
pub const SPA_FORMAT_VIDEO_MODIFIER: u32 = 0x20002;

/// Format key: the frame size.
pub const SPA_FORMAT_VIDEO_SIZE: u32 = 0x20003;

/// Format key: the frame rate.
pub const SPA_FORMAT_VIDEO_FRAMERATE: u32 = 0x20004;

/// Media type: video.
pub const SPA_MEDIA_TYPE_VIDEO: u32 = 2;

/// Media subtype: raw frames.
pub const SPA_MEDIA_SUBTYPE_RAW: u32 = 1;

/// Video format id: RGBA byte order, alpha ignored.
pub const SPA_VIDEO_FORMAT_RGBX: u32 = 7;

/// Video format id: BGRA byte order, alpha ignored.
pub const SPA_VIDEO_FORMAT_BGRX: u32 = 8;

/// Video format id: RGBA byte order with alpha.
pub const SPA_VIDEO_FORMAT_RGBA: u32 = 11;

/// Video format id: BGRA byte order with alpha.
pub const SPA_VIDEO_FORMAT_BGRA: u32 = 12;

/// Property flag: the producer must honour the property.
pub const SPA_PROP_FLAG_MANDATORY: u32 = 8;

/// Property flag: the producer must not fixate the property by itself.
pub const SPA_PROP_FLAG_DONT_FIXATE: u32 = 16;

/// Backing-memory kinds accepted once negotiation settled: a bit each
/// for process-local pointers, shared-memory descriptors and zero-copy
/// buffers.
pub const SPA_DATA_TYPE_MASK: i32 = (1 << 1) | (1 << 2) | (1 << 3);

/// The fourcc codes the importer understands.
pub open spec fn is_wanted_fourcc(code: u32) -> bool {
    ||| code == DRM_FORMAT_ARGB8888
    ||| code == DRM_FORMAT_ABGR8888
    ||| code == DRM_FORMAT_XRGB8888
    ||| code == DRM_FORMAT_XBGR8888
}

/// The producer-side id of an importable fourcc code; zero outside the
/// importable set.
pub open spec fn spec_fourcc_to_spa(code: u32) -> u32 {
    if code == DRM_FORMAT_ARGB8888 {
        SPA_VIDEO_FORMAT_BGRA
    } else if code == DRM_FORMAT_ABGR8888 {
        SPA_VIDEO_FORMAT_RGBA
    } else if code == DRM_FORMAT_XRGB8888 {
        SPA_VIDEO_FORMAT_BGRX
    } else if code == DRM_FORMAT_XBGR8888 {
        SPA_VIDEO_FORMAT_RGBX
    } else {
        0
    }
}

/// The fourcc code of a producer-side video format id; zero outside the
/// importable set.
pub open spec fn spec_spa_to_fourcc(spa: u32) -> u32 {
    if spa == SPA_VIDEO_FORMAT_BGRA {
        DRM_FORMAT_ARGB8888
    } else if spa == SPA_VIDEO_FORMAT_RGBA {
        DRM_FORMAT_ABGR8888
    } else if spa == SPA_VIDEO_FORMAT_BGRX {
        DRM_FORMAT_XRGB8888
    } else if spa == SPA_VIDEO_FORMAT_RGBX {
        DRM_FORMAT_XBGR8888
    } else {
        0
    }
}

/// The producer-side video format ids the importer understands.
pub open spec fn is_wanted_spa(spa: u32) -> bool {
    ||| spa == SPA_VIDEO_FORMAT_BGRA
    ||| spa == SPA_VIDEO_FORMAT_RGBA
    ||| spa == SPA_VIDEO_FORMAT_BGRX
    ||| spa == SPA_VIDEO_FORMAT_RGBX
}

/// Translates an importable fourcc code to its producer-side id.
pub fn fourcc_to_spa(fourcc: u32) -> (r: u32)
    requires
        is_wanted_fourcc(fourcc),
    ensures
        r == spec_fourcc_to_spa(fourcc),
{
    if fourcc == DRM_FORMAT_ARGB8888 {
        SPA_VIDEO_FORMAT_BGRA
    } else if fourcc == DRM_FORMAT_ABGR8888 {
        SPA_VIDEO_FORMAT_RGBA
    } else if fourcc == DRM_FORMAT_XRGB8888 {
        SPA_VIDEO_FORMAT_BGRX
    } else {
        SPA_VIDEO_FORMAT_RGBX
    }
}

/// Translates a producer-side video format id back to its fourcc code,
/// or reports one outside the importable set.
pub fn spa_to_fourcc(spa: u32) -> (r: Option<u32>)
    ensures
        match r {
            Some(code) => is_wanted_spa(spa) && code == spec_spa_to_fourcc(spa),
            None => !is_wanted_spa(spa),
        },
{
    if spa == SPA_VIDEO_FORMAT_BGRA {
        Some(DRM_FORMAT_ARGB8888)
    } else if spa == SPA_VIDEO_FORMAT_RGBA {
        Some(DRM_FORMAT_ABGR8888)
    } else if spa == SPA_VIDEO_FORMAT_BGRX {
        Some(DRM_FORMAT_XRGB8888)
    } else if spa == SPA_VIDEO_FORMAT_RGBX {
        Some(DRM_FORMAT_XBGR8888)
    } else {
        None
    }
}

/// The property body shared by every candidate format object: video,
/// raw, a size range and a frame-rate range around the requested rate.
pub open spec fn spec_common_props(fps: u32) -> Seq<u8> {
    spec_prop(SPA_FORMAT_MEDIA_TYPE, 0, spec_pod_id(SPA_MEDIA_TYPE_VIDEO)) + spec_prop(
        SPA_FORMAT_MEDIA_SUBTYPE,
        0,
        spec_pod_id(SPA_MEDIA_SUBTYPE_RAW),
    ) + spec_prop(
        SPA_FORMAT_VIDEO_SIZE,
        0,
        spec_choice_pair_range(SPA_TYPE_RECTANGLE, (256, 256), (1, 1), (8192, 8192)),
    ) + spec_prop(
        SPA_FORMAT_VIDEO_FRAMERATE,
        0,
        spec_choice_pair_range(SPA_TYPE_FRACTION, (fps, 1), (0, 1), (1000, 1)),
    )
}

/// The fallback format ids offered when no zero-copy format is named:
/// every importable id, RGBA first as the default.
pub open spec fn spec_fallback_ids() -> Seq<u32> {
    seq![
        SPA_VIDEO_FORMAT_RGBA,
        SPA_VIDEO_FORMAT_BGRA,
        SPA_VIDEO_FORMAT_RGBX,
        SPA_VIDEO_FORMAT_BGRX,
    ]
}

/// The property body of one candidate format object.  A named format
/// adds its producer-side id, and — when it has modifiers — a mandatory,
/// non-fixating modifier enumeration; the fallback instead offers every
/// importable id.
pub open spec fn spec_format_props(fmt: Option<DrmFormat>, fps: u32) -> Seq<u8> {
    match fmt {
        Some(f) => spec_common_props(fps) + spec_prop(
            SPA_FORMAT_VIDEO_FORMAT,
            0,
            spec_pod_id(spec_fourcc_to_spa(f.code)),
        ) + if f.modifiers@.len() > 0 {
            spec_prop(
                SPA_FORMAT_VIDEO_MODIFIER,
                (SPA_PROP_FLAG_MANDATORY | SPA_PROP_FLAG_DONT_FIXATE) as u32,
                spec_choice_long_enum(f.modifiers@),
            )
        } else {
            Seq::<u8>::empty()
        },
        None => spec_common_props(fps) + spec_prop(
            SPA_FORMAT_VIDEO_FORMAT,
            0,
            spec_choice_id_enum(spec_fallback_ids()),
        ),
    }
}

/// One whole candidate format object.
pub open spec fn spec_format_params(fmt: Option<DrmFormat>, fps: u32) -> Seq<u8> {
    spec_pod_object(SPA_TYPE_OBJECT_FORMAT, SPA_PARAM_ENUM_FORMAT, spec_format_props(fmt, fps))
}

/// The buffer-parameter object that widens the accepted backing-memory
/// kinds after the format settled.
pub open spec fn spec_format_dmabuf_params() -> Seq<u8> {
    spec_pod_object(
        SPA_TYPE_OBJECT_PARAM_BUFFERS,
        SPA_PARAM_BUFFERS,
        spec_prop(SPA_PARAM_BUFFERS_DATA_TYPE, 0, spec_pod_int(SPA_DATA_TYPE_MASK)),
    )
}

/// A candidate format's property body is a few fixed-size properties
/// plus eight bytes per modifier.
pub proof fn lemma_format_props_len(fmt: Option<DrmFormat>, fps: u32)
    ensures
        spec_format_props(fmt, fps).len() <= 216 + 8 * (match fmt {
            Some(f) => f.modifiers@.len(),
            None => 0,
        }),
{
    match fmt {
        Some(f) => {
            lemma_le64_concat_len(f.modifiers@);
        },
        None => {
            lemma_le32_concat_len(spec_fallback_ids());
        },
    }
}

/// The plain value a format option refers to.
pub open spec fn spec_opt_format(fmt: Option<&DrmFormat>) -> Option<DrmFormat> {
    match fmt {
        Some(f) => Some(*f),
        None => None,
    }
}

/// Builds one candidate format object: the common properties, then the
/// named format with its modifier enumeration, or the fallback offering
/// every importable id.
pub fn format_get_params(fmt: Option<&DrmFormat>, fps: u32) -> (r: Vec<u8>)
    requires
        match fmt {
            Some(f) => is_wanted_fourcc(f.code) && f.modifiers@.len() <= 0x00FF_FFFF,
            None => true,
        },
    ensures
        r@ == spec_format_params(spec_opt_format(fmt), fps),
{
    let mut body: Vec<u8> = Vec::new();
    push_u32_le(&mut body, SPA_FORMAT_MEDIA_TYPE);
    push_u32_le(&mut body, 0);
    push_pod_id(&mut body, SPA_MEDIA_TYPE_VIDEO);
    push_u32_le(&mut body, SPA_FORMAT_MEDIA_SUBTYPE);
    push_u32_le(&mut body, 0);
    push_pod_id(&mut body, SPA_MEDIA_SUBTYPE_RAW);
    push_u32_le(&mut body, SPA_FORMAT_VIDEO_SIZE);
    push_u32_le(&mut body, 0);
    push_choice_pair_range(&mut body, SPA_TYPE_RECTANGLE, (256, 256), (1, 1), (8192, 8192));
    push_u32_le(&mut body, SPA_FORMAT_VIDEO_FRAMERATE);
    push_u32_le(&mut body, 0);
    push_choice_pair_range(&mut body, SPA_TYPE_FRACTION, (fps, 1), (0, 1), (1000, 1));
    proof {
        assert(body@ =~= spec_common_props(fps));
    }

    match fmt {
        Some(f) => {
            push_u32_le(&mut body, SPA_FORMAT_VIDEO_FORMAT);
            push_u32_le(&mut body, 0);
            push_pod_id(&mut body, fourcc_to_spa(f.code));
            if f.modifiers.len() > 0 {
                push_u32_le(&mut body, SPA_FORMAT_VIDEO_MODIFIER);
                push_u32_le(&mut body, SPA_PROP_FLAG_MANDATORY | SPA_PROP_FLAG_DONT_FIXATE);
                push_choice_long_enum(&mut body, &f.modifiers);
            }
            proof {
                assert(body@ =~= spec_format_props(spec_opt_format(fmt), fps));
            }
        },
        None => {
            let mut ids: Vec<u32> = Vec::new();
            ids.push(SPA_VIDEO_FORMAT_RGBA);
            ids.push(SPA_VIDEO_FORMAT_BGRA);
            ids.push(SPA_VIDEO_FORMAT_RGBX);
            ids.push(SPA_VIDEO_FORMAT_BGRX);
            proof {
                assert(ids@ =~= spec_fallback_ids());
            }
            push_u32_le(&mut body, SPA_FORMAT_VIDEO_FORMAT);
            push_u32_le(&mut body, 0);
            push_choice_id_enum(&mut body, &ids);
            proof {
                assert(body@ =~= spec_format_props(spec_opt_format(fmt), fps));
            }
        },
    }

    proof {
        lemma_format_props_len(spec_opt_format(fmt), fps);
    }
    let mut out: Vec<u8> = Vec::new();
    push_u32_le(&mut out, (body.len() + 8) as u32);
    push_u32_le(&mut out, SPA_TYPE_OBJECT);
    push_u32_le(&mut out, SPA_TYPE_OBJECT_FORMAT);
    push_u32_le(&mut out, SPA_PARAM_ENUM_FORMAT);
    out.append(&mut body);
    proof {
        assert(out@ =~= spec_format_params(spec_opt_format(fmt), fps));
    }
    out
}

/// Builds the buffer-parameter object sent as a live update once the
/// producer has picked a format.
pub fn format_dmabuf_params() -> (r: Vec<u8>)
    ensures
        r@ == spec_format_dmabuf_params(),
{
    let mut body: Vec<u8> = Vec::new();
    push_u32_le(&mut body, SPA_PARAM_BUFFERS_DATA_TYPE);
    push_u32_le(&mut body, 0);
    push_pod_int(&mut body, SPA_DATA_TYPE_MASK);
    let mut out: Vec<u8> = Vec::new();
    push_u32_le(&mut out, (body.len() + 8) as u32);
    push_u32_le(&mut out, SPA_TYPE_OBJECT);
    push_u32_le(&mut out, SPA_TYPE_OBJECT_PARAM_BUFFERS);
    push_u32_le(&mut out, SPA_PARAM_BUFFERS);
    out.append(&mut body);
    proof {
        assert(out@ =~= spec_format_dmabuf_params());
    }
    out
}

/// The candidate objects for the named formats, in capability order.
pub open spec fn spec_params_list(formats: Seq<DrmFormat>, fps: u32) -> Seq<Seq<u8>>
    decreases formats.len(),
{
    if formats.len() == 0 {
        Seq::empty()
    } else {
        spec_params_list(formats.drop_last(), fps) + seq![
            spec_format_params(Some(formats.last()), fps),
        ]
    }
}

/// The whole ordered candidate list offered at connect time: one entry
/// per importable format when zero-copy buffers are allowed, then the
/// unrestricted-memory fallback.
pub open spec fn spec_connect_params(formats: Seq<DrmFormat>, fps: u32, dmabuf: bool) -> Seq<
    Seq<u8>,
> {
    (if dmabuf {
        spec_params_list(formats, fps)
    } else {
        Seq::<Seq<u8>>::empty()
    }) + seq![spec_format_params(None, fps)]
}

/// Builds the ordered candidate list offered at connect time.
pub fn build_connect_params(formats: &Vec<DrmFormat>, fps: u32, dmabuf: bool) -> (r: Vec<Vec<u8>>)
    requires
        forall|i: int|
            0 <= i < formats@.len() ==> is_wanted_fourcc((#[trigger] formats@[i]).code)
                && formats@[i].modifiers@.len() <= 0x00FF_FFFF,
    ensures
        r@.map_values(|v: Vec<u8>| v@) == spec_connect_params(formats@, fps, dmabuf),
{
    let mut out: Vec<Vec<u8>> = Vec::new();
    if dmabuf {
        let mut i: usize = 0;
        while i < formats.len()
            invariant
                i <= formats@.len(),
                forall|k: int|
                    0 <= k < formats@.len() ==> is_wanted_fourcc((#[trigger] formats@[k]).code)
                        && formats@[k].modifiers@.len() <= 0x00FF_FFFF,
                out@.map_values(|v: Vec<u8>| v@) == spec_params_list(
                    formats@.take(i as int),
                    fps,
                ),
            decreases formats@.len() - i,
        {
            let p = format_get_params(Some(&formats[i]), fps);
            out.push(p);
            proof {
                assert(formats@.take(i + 1).drop_last() =~= formats@.take(i as int));
                assert(formats@.take(i + 1).last() == formats@[i as int]);
                assert(out@.map_values(|v: Vec<u8>| v@) =~= spec_params_list(
                    formats@.take(i + 1),
                    fps,
                ));
            }
            i = i + 1;
        }
        proof {
            assert(formats@.take(formats@.len() as int) =~= formats@);
        }
    }
    let fallback = format_get_params(None, fps);
    out.push(fallback);
    proof {
        assert(out@.map_values(|v: Vec<u8>| v@) =~= spec_connect_params(formats@, fps, dmabuf));
    }
    out
}

} // verus!
