use gemini_multimodal_mcp::probe::{
    duration_from_micros, has_image_signature, kind_from_streams, looks_like_image,
    looks_like_svg, looks_like_svg_text, probe_from_facts, ContainerFacts, MediaKind, StreamFacts,
    StreamMedium,
};

#[test]
fn detects_png_as_image() {
    let probe = probe_from_facts(b"\x89PNG\r\n\x1a\nrest", None);
    assert_eq!(probe.kind, Some(MediaKind::Image));
    assert_eq!(probe.duration_micros, None);
}

#[test]
fn image_header_wins_over_container() {
    let container = ContainerFacts {
        streams: vec![StreamFacts { medium: StreamMedium::Video, attached_pic: false }],
        duration_micros: 5_000_000,
    };
    let probe = probe_from_facts(b"GIF89a....", Some(&container));
    assert_eq!(probe.kind, Some(MediaKind::Image));
    assert_eq!(probe.duration_micros, None);
}

#[test]
fn recognizes_raster_signatures() {
    assert!(has_image_signature(b"\xff\xd8\xff\xe0"));
    assert!(has_image_signature(b"GIF87a"));
    assert!(has_image_signature(b"BMxx"));
    assert!(has_image_signature(b"II*\0"));
    assert!(has_image_signature(b"MM\0*"));
    assert!(has_image_signature(b"\0\0\x01\0"));
    assert!(has_image_signature(b"RIFF\0\0\0\0WEBPVP8 "));
    assert!(has_image_signature(b"\0\0\0\x1cftypavif"));
    assert!(has_image_signature(b"\0\0\0\x1cftypheic"));
    assert!(!has_image_signature(b"\0\0\0\x1cftypisom"));
    assert!(!has_image_signature(b"RIFF\0\0\0\0WAVEfmt "));
    assert!(!has_image_signature(b"\x89PNG"));
    assert!(!has_image_signature(b""));
}

#[test]
fn recognizes_svg_text() {
    assert!(looks_like_svg(b"<svg xmlns=\"http://www.w3.org/2000/svg\"/>"));
    assert!(looks_like_svg("\u{feff}\u{feff}  \n<svg>".as_bytes()));
    assert!(looks_like_svg(b"<?xml version=\"1.0\"?>\n<svg/>"));
    assert!(!looks_like_svg(b"<?xml version=\"1.0\"?><html/>"));
    assert!(!looks_like_svg(b"<svg\xff"));
    assert!(!looks_like_svg_text("x<svg"));
    assert!(looks_like_image(b"  <svg/>"));
}

#[test]
fn kind_follows_streams() {
    let audio = StreamFacts { medium: StreamMedium::Audio, attached_pic: false };
    let video = StreamFacts { medium: StreamMedium::Video, attached_pic: false };
    let cover = StreamFacts { medium: StreamMedium::Video, attached_pic: true };
    let other = StreamFacts { medium: StreamMedium::Other, attached_pic: false };
    assert_eq!(kind_from_streams(&[audio, cover]), Some(MediaKind::Audio));
    assert_eq!(kind_from_streams(&[cover]), Some(MediaKind::Video));
    assert_eq!(kind_from_streams(&[audio, video]), Some(MediaKind::Video));
    assert_eq!(kind_from_streams(&[other]), None);
    assert_eq!(kind_from_streams(&[]), None);
}

#[test]
fn duration_is_known_only_when_positive() {
    assert_eq!(duration_from_micros(0), None);
    assert_eq!(duration_from_micros(-5), None);
    assert_eq!(duration_from_micros(1_500_000), Some(1_500_000));
}

#[test]
fn unopened_container_gives_nothing() {
    let probe = probe_from_facts(b"not media", None);
    assert_eq!(probe.kind, None);
    assert_eq!(probe.duration_micros, None);
    let container = ContainerFacts {
        streams: vec![StreamFacts { medium: StreamMedium::Audio, attached_pic: false }],
        duration_micros: 42,
    };
    let probe = probe_from_facts(b"ID3", Some(&container));
    assert_eq!(probe.kind, Some(MediaKind::Audio));
    assert_eq!(probe.duration_micros, Some(42));
}

#[test]
fn kind_names() {
    assert_eq!(MediaKind::Image.as_str(), "image");
    assert_eq!(MediaKind::Audio.as_str(), "audio");
    assert_eq!(MediaKind::Video.as_str(), "video");
}
