use wlcapture::dmabuf::{fmt_to_gl, GL_BGRA, GL_BGRA8_EXT, GL_RGBA, GL_RGBA8};
use wlcapture::frame::{DrmFormat, DRM_FORMAT_ABGR8888, DRM_FORMAT_ARGB8888, DRM_FORMAT_XBGR8888};
use wlcapture::params::{
    build_connect_params, format_dmabuf_params, format_get_params, fourcc_to_spa, spa_to_fourcc,
    SPA_VIDEO_FORMAT_BGRA, SPA_VIDEO_FORMAT_RGBA, SPA_VIDEO_FORMAT_RGBX,
};
use wlcapture::pod::{push_pod_int, push_u32_le};
use wlcapture::pw::{
    encode_video_format, handle_param_changed, parse_video_format, ParamAction, RawVideoInfo,
    StreamData, SPA_PARAM_FORMAT,
};

#[test]
fn le32_words_are_little_endian() {
    let mut out: Vec<u8> = Vec::new();
    push_u32_le(&mut out, 0x1234_5678);
    assert_eq!(out, vec![0x78, 0x56, 0x34, 0x12]);
}

#[test]
fn int_pod_is_size_type_value_and_padding() {
    let mut out: Vec<u8> = Vec::new();
    push_pod_int(&mut out, 14);
    assert_eq!(out, vec![4, 0, 0, 0, 4, 0, 0, 0, 14, 0, 0, 0, 0, 0, 0, 0]);
}

#[test]
fn buffer_params_object_bytes_are_exact() {
    let bytes = format_dmabuf_params();
    let expected: Vec<u8> = vec![
        32, 0, 0, 0, // body size: 8 + 24
        15, 0, 0, 0, // object
        4, 0, 4, 0, // object type 0x40004
        5, 0, 0, 0, // object id: buffer params
        6, 0, 0, 0, // key: data type
        0, 0, 0, 0, // flags
        4, 0, 0, 0, 4, 0, 0, 0, 14, 0, 0, 0, 0, 0, 0, 0, // int pod: mask 0b1110
    ];
    assert_eq!(bytes, expected);
}

#[test]
fn fallback_format_object_has_expected_frame() {
    let bytes = format_get_params(None, 60);
    // object body: four common properties (24 + 24 + 56 + 56 bytes) and
    // the fallback id enumeration property (48 bytes)
    assert_eq!(bytes.len(), 16 + 208);
    assert_eq!(&bytes[0..4], &[216, 0, 0, 0]); // body size 8 + 208
    assert_eq!(&bytes[4..8], &[15, 0, 0, 0]); // object
    assert_eq!(&bytes[8..12], &[3, 0, 4, 0]); // object type 0x40003
    assert_eq!(&bytes[12..16], &[3, 0, 0, 0]); // object id: format enumeration
    assert_eq!(&bytes[16..20], &[1, 0, 0, 0]); // first key: media type
}

#[test]
fn named_format_object_carries_modifier_enumeration() {
    let fmt = DrmFormat { code: DRM_FORMAT_ARGB8888, modifiers: vec![7, 9] };
    let bytes = format_get_params(Some(&fmt), 30);
    // common properties 160, format id property 24, modifier property 8 + 40
    assert_eq!(bytes.len(), 16 + 160 + 24 + 48);
    // the whole modifier choice pod: body size 16 + 8 per modifier, the
    // choice type, the enum kind, no flags, 8-byte long children 7 then 9
    let tail = &bytes[bytes.len() - 40..];
    assert_eq!(&tail[0..4], &[32, 0, 0, 0]);
    assert_eq!(&tail[4..8], &[19, 0, 0, 0]);
    assert_eq!(&tail[8..12], &[3, 0, 0, 0]);
    assert_eq!(&tail[12..16], &[0, 0, 0, 0]);
    assert_eq!(&tail[16..20], &[8, 0, 0, 0]);
    assert_eq!(&tail[20..24], &[5, 0, 0, 0]);
    assert_eq!(&tail[24..32], &[7, 0, 0, 0, 0, 0, 0, 0]);
    assert_eq!(&tail[32..40], &[9, 0, 0, 0, 0, 0, 0, 0]);
}

#[test]
fn fourcc_and_producer_ids_translate_both_ways() {
    assert_eq!(fourcc_to_spa(DRM_FORMAT_ARGB8888), SPA_VIDEO_FORMAT_BGRA);
    assert_eq!(fourcc_to_spa(DRM_FORMAT_ABGR8888), SPA_VIDEO_FORMAT_RGBA);
    assert_eq!(spa_to_fourcc(SPA_VIDEO_FORMAT_RGBX), Some(DRM_FORMAT_XBGR8888));
    assert_eq!(spa_to_fourcc(SPA_VIDEO_FORMAT_RGBA), Some(DRM_FORMAT_ABGR8888));
    assert_eq!(spa_to_fourcc(999), None);
}

#[test]
fn connect_list_offers_each_format_then_the_fallback() {
    let offers = vec![
        DrmFormat { code: DRM_FORMAT_ARGB8888, modifiers: vec![10, 11] },
        DrmFormat { code: DRM_FORMAT_ABGR8888, modifiers: vec![] },
    ];
    let params = build_connect_params(&offers, 60, true);
    assert_eq!(params.len(), 3);
    assert_eq!(params[0], format_get_params(Some(&offers[0]), 60));
    assert_eq!(params[1], format_get_params(Some(&offers[1]), 60));
    assert_eq!(params[2], format_get_params(None, 60));

    let no_dmabuf = build_connect_params(&offers, 60, false);
    assert_eq!(no_dmabuf.len(), 1);
    assert_eq!(no_dmabuf[0], format_get_params(None, 60));
}

#[test]
fn scenario_producer_selects_plain_rgba_pair() {
    // negotiation offered ARGB8888 with modifiers and bare ABGR8888; the
    // producer picked ABGR8888 without a modifier
    let offers = vec![
        DrmFormat { code: DRM_FORMAT_ARGB8888, modifiers: vec![100, 200] },
        DrmFormat { code: DRM_FORMAT_ABGR8888, modifiers: vec![] },
    ];
    let params = build_connect_params(&offers, 60, true);
    assert_eq!(params.len(), 3);

    let mut stream = StreamData::new();
    let info = RawVideoInfo { format: SPA_VIDEO_FORMAT_RGBA, width: 1920, height: 1080, modifier: 0 };
    let action = handle_param_changed(&mut stream, SPA_PARAM_FORMAT, info);
    assert!(matches!(action, ParamAction::UpdateParams(_)));

    let negotiated = stream.format.expect("format must be recorded");
    assert_eq!(negotiated.format, DRM_FORMAT_ABGR8888);
    let selected = stream.selected_format().expect("a settled stream has a choice");
    assert_eq!(selected, wlcapture::dmabuf::DrmFormat { code: DRM_FORMAT_ABGR8888, modifier: 0 });

    // the importer must use the plain RGBA pair, not the swapped pair
    let pair = fmt_to_gl(&negotiated, GL_BGRA8_EXT).expect("known fourcc");
    assert_eq!(pair, (GL_RGBA8, GL_RGBA));
    assert_ne!(pair.1, GL_BGRA);
}

#[test]
fn param_changed_ignores_foreign_payloads() {
    let mut stream = StreamData::new();
    let info = RawVideoInfo { format: SPA_VIDEO_FORMAT_RGBA, width: 64, height: 64, modifier: 0 };
    assert!(matches!(handle_param_changed(&mut stream, 7, info), ParamAction::Ignore));
    assert!(stream.format.is_none());

    let odd = RawVideoInfo { format: 0, width: 64, height: 64, modifier: 0 };
    assert!(matches!(handle_param_changed(&mut stream, SPA_PARAM_FORMAT, odd), ParamAction::Ignore));
    assert!(stream.format.is_none());
}

#[test]
fn param_update_bytes_match_the_buffer_object() {
    let mut stream = StreamData::new();
    let info = RawVideoInfo { format: SPA_VIDEO_FORMAT_BGRA, width: 800, height: 600, modifier: 3 };
    match handle_param_changed(&mut stream, SPA_PARAM_FORMAT, info) {
        ParamAction::UpdateParams(bytes) => assert_eq!(bytes, format_dmabuf_params()),
        ParamAction::Ignore => panic!("a format payload must request an update"),
    }
    let f = stream.format.unwrap();
    assert_eq!(f.format, DRM_FORMAT_ARGB8888);
    assert_eq!((f.w, f.h, f.modifier), (800, 600, 3));
}

#[test]
fn fixated_format_round_trips_through_the_parser() {
    let info = RawVideoInfo {
        format: SPA_VIDEO_FORMAT_BGRA,
        width: 2560,
        height: 1440,
        modifier: 0x00FF_EEDD_CCBB_AA99,
    };
    let bytes = encode_video_format(&info, 60, 1);
    assert_eq!(bytes.len(), 160);
    assert_eq!(parse_video_format(&bytes), Some(info));
}

#[test]
fn parser_rejects_mangled_payloads() {
    let info = RawVideoInfo { format: SPA_VIDEO_FORMAT_RGBA, width: 64, height: 64, modifier: 0 };
    let good = encode_video_format(&info, 30, 1);

    let mut truncated = good.clone();
    truncated.pop();
    assert_eq!(parse_video_format(&truncated), None);

    let mut wrong_object = good.clone();
    wrong_object[8] = 0xFF; // not a format object
    assert_eq!(parse_video_format(&wrong_object), None);

    assert_eq!(parse_video_format(&[]), None);
}
