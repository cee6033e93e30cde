use gemini_multimodal_mcp::error::AppError;
use gemini_multimodal_mcp::input::{
    extension_for_mime, file_ref, parse_data_uri, parse_data_uri_meta, resolve_target, url_target,
    InputTarget,
};

fn meta(s: &str) -> (String, bool) {
    parse_data_uri_meta(s)
}

#[test]
fn parses_data_uri_meta_with_base64_and_mime() {
    assert_eq!(meta("image/png;base64"), ("image/png".to_string(), true));
    assert_eq!(meta("base64;image/jpeg"), ("image/jpeg".to_string(), true));
    assert_eq!(
        meta("image/png;charset=utf-8;base64"),
        ("image/png".to_string(), true)
    );
    assert_eq!(meta("audio/wav"), ("audio/wav".to_string(), false));
    assert_eq!(meta(";base64"), ("".to_string(), true));
}

#[test]
fn extension_mapping_covers_common_types() {
    assert_eq!(extension_for_mime("image/png"), "png");
    assert_eq!(extension_for_mime("image/jpeg"), "jpg");
    assert_eq!(extension_for_mime("audio/wav"), "wav");
    assert_eq!(extension_for_mime("video/mp4"), "mp4");
    assert_eq!(extension_for_mime("application/octet-stream"), "bin");
    assert_eq!(extension_for_mime("IMAGE/PNG"), "png");
}

#[test]
fn extension_mapping_covers_the_whole_table() {
    let table = [
        ("image/gif", "gif"),
        ("image/webp", "webp"),
        ("image/bmp", "bmp"),
        ("image/tiff", "tiff"),
        ("image/svg+xml", "svg"),
        ("audio/x-wav", "wav"),
        ("audio/wave", "wav"),
        ("audio/mpeg", "mp3"),
        ("audio/mp3", "mp3"),
        ("audio/ogg", "ogg"),
        ("audio/mp4", "m4a"),
        ("audio/m4a", "m4a"),
        ("audio/aac", "aac"),
        ("audio/flac", "flac"),
        ("audio/webm", "weba"),
        ("video/webm", "webm"),
        ("video/quicktime", "mov"),
        ("Video/X-Matroska", "mkv"),
        ("video/x-msvideo", "avi"),
        ("", "bin"),
        ("image/png ", "bin"),
    ];
    for (mime, ext) in table {
        assert_eq!(extension_for_mime(mime), ext, "{mime}");
    }
}

#[test]
fn meta_keeps_first_mime_and_ignores_base64_case() {
    assert_eq!(meta("BASE64;a;b"), ("a".to_string(), true));
    assert_eq!(meta(""), ("".to_string(), false));
    assert_eq!(meta(";;video/mp4"), ("video/mp4".to_string(), false));
    assert_eq!(meta("base64x;image/png"), ("base64x".to_string(), false));
}

fn input_message(r: Result<InputTarget, AppError>) -> String {
    match r {
        Err(AppError::Input(msg)) => msg,
        other => panic!("expected Input error, got {other:?}"),
    }
}

#[test]
fn rejects_empty_input() {
    assert_eq!(input_message(resolve_target("")), "empty input");
    assert_eq!(input_message(resolve_target(" \t\n ")), "empty input");
}

#[test]
fn rejects_https_url_with_download_hint() {
    let msg = input_message(resolve_target("https://example.com/x.png"));
    assert!(msg.contains("download"), "error should mention downloading: {msg}");
    assert!(msg.contains("https://example.com/x.png"));
}

#[test]
fn rejects_http_url_with_download_hint() {
    let msg = input_message(resolve_target("  http://example.com/x.png\n"));
    assert_eq!(
        msg,
        "remote URLs are not supported — download the file to a local path first, then pass that path. Got: http://example.com/x.png"
    );
}

#[test]
fn rejects_unsupported_scheme() {
    let msg = input_message(resolve_target("ftp://example.com/x.png"));
    assert_eq!(
        msg,
        "unsupported URL scheme: ftp — only local paths and data URIs are accepted"
    );
}

#[test]
fn treats_colon_without_url_slashes_as_local_path() {
    match resolve_target("foo:bar.png") {
        Ok(InputTarget::Path(p)) => assert_eq!(p, "foo:bar.png"),
        other => panic!("colon path should be treated as local path: {other:?}"),
    }
}

#[test]
fn plain_paths_are_trimmed() {
    match resolve_target("  /tmp/some file.png \n") {
        Ok(InputTarget::Path(p)) => assert_eq!(p, "/tmp/some file.png"),
        other => panic!("expected a path, got {other:?}"),
    }
}

#[test]
fn rejects_non_base64_data_uri() {
    let msg = input_message(resolve_target("data:image/png,rawbytesthatarenotbase64"));
    assert_eq!(msg, "only base64 data URIs are supported (use `;base64,`)");
}

#[test]
fn rejects_data_uri_without_comma() {
    let msg = input_message(resolve_target("data:image/png;base64"));
    assert_eq!(msg, "malformed data URI: missing comma");
}

#[test]
fn rejects_undecodable_payload() {
    let msg = input_message(resolve_target("data:image/png;base64,@@@@"));
    assert!(
        msg.starts_with("failed to decode base64 payload: "),
        "unexpected message: {msg}"
    );
}

#[test]
fn resolves_base64_data_uri_to_tempfile() {
    const ONE_PIXEL_RED_PNG: &str = "data:image/png;base64,iVBORw0KGgoAAAANSUhEUgAAAAEAAAABCAYAAAAfFcSJAAAADUlEQVR4\
         nGP8z8DwHwAFBQIAX8jx0gAAAABJRU5ErkJggg==";

    match resolve_target(ONE_PIXEL_RED_PNG) {
        Ok(InputTarget::Data { extension, bytes }) => {
            assert_eq!(extension, "png");
            assert_eq!(&bytes[..8], b"\x89PNG\r\n\x1a\n");
        }
        other => panic!("expected Data, got {other:?}"),
    }
}

#[test]
fn data_prefix_ignores_case_and_decodes_payload() {
    match resolve_target("DaTa:AUDIO/WAV;BASE64,aGVsbG8=") {
        Ok(InputTarget::Data { extension, bytes }) => {
            assert_eq!(extension, "wav");
            assert_eq!(bytes, b"hello".to_vec());
        }
        other => panic!("expected Data, got {other:?}"),
    }
}

#[test]
fn data_uri_parts_split_at_first_comma() {
    match parse_data_uri(";base64,a,b") {
        Ok((ext, payload)) => {
            assert_eq!(ext, "bin");
            assert_eq!(payload, "a,b");
        }
        Err(e) => panic!("unexpected error {e:?}"),
    }
}

#[test]
fn url_target_decides_from_the_given_scheme() {
    assert!(matches!(
        url_target("https://x", Some("https".to_string())),
        Err(AppError::Input(_))
    ));
    assert!(matches!(
        url_target("mailto:someone", Some("mailto".to_string())),
        Ok(InputTarget::Path(_))
    ));
    assert!(matches!(
        url_target("s3://bucket/key", Some("s3".to_string())),
        Err(AppError::Input(_))
    ));
    assert!(matches!(url_target("x://y", None), Ok(InputTarget::Path(_))));
}

#[test]
fn file_ref_prefixes_at_sign() {
    assert_eq!(file_ref("/tmp/x.png"), "@/tmp/x.png");
    assert_eq!(file_ref(""), "@");
}
