use gemini_multimodal_mcp::error::AppError;
use gemini_multimodal_mcp::models::{ModelInfo, ModelTier};
use gemini_multimodal_mcp::probe::{MediaKind, MediaProbe};
use gemini_multimodal_mcp::prompts::{render, Modality};
use gemini_multimodal_mcp::server::{
    long_threshold, DescribeAudioParams, DescribeImageParams, DescribeVideoParams, ModelCache,
    ToolCall, VisionServer, VIDEO_LONG_THRESHOLD_SECS,
};

const SEC: u64 = 1_000_000;

fn call(modality: Modality, force_input_type: bool, confirm_long_media: bool) -> ToolCall<'static> {
    ToolCall {
        modality,
        input: "",
        focus: None,
        question: None,
        model: "unused",
        deadline_secs: 1,
        confirm_long_media,
        force_input_type,
    }
}

#[test]
fn rejects_mismatched_input_type_without_force() {
    let probe = MediaProbe {
        kind: Some(MediaKind::Video),
        duration_micros: Some(SEC),
    };
    let err = call(Modality::Image, false, false)
        .validate_input_type(&probe)
        .unwrap_err();
    assert!(matches!(err, AppError::InputTypeMismatch { .. }));
    match err {
        AppError::InputTypeMismatch { expected, actual } => {
            assert_eq!(expected, "image");
            assert_eq!(actual, "video");
        }
        _ => unreachable!(),
    }
}

#[test]
fn allows_mismatched_input_type_with_force() {
    let probe = MediaProbe {
        kind: Some(MediaKind::Audio),
        duration_micros: Some(SEC),
    };
    assert!(
        call(Modality::Video, true, false)
            .validate_input_type(&probe)
            .is_ok()
    );
}

#[test]
fn unknown_input_type_needs_force() {
    let probe = MediaProbe { kind: None, duration_micros: None };
    assert!(matches!(
        call(Modality::Audio, false, false).validate_input_type(&probe),
        Err(AppError::UnknownInputType { expected: "audio" })
    ));
    assert!(call(Modality::Audio, true, false).validate_input_type(&probe).is_ok());
}

#[test]
fn requires_confirm_when_duration_is_unknown() {
    let probe = MediaProbe {
        kind: Some(MediaKind::Video),
        duration_micros: None,
    };
    let err = call(Modality::Video, false, false)
        .enforce_long_media_policy(&probe)
        .unwrap_err();
    assert!(matches!(err, AppError::UnknownDuration));

    assert!(
        call(Modality::Video, false, true)
            .enforce_long_media_policy(&probe)
            .is_ok()
    );
}

#[test]
fn forced_mismatch_still_enforces_actual_video_duration() {
    let probe = MediaProbe {
        kind: Some(MediaKind::Video),
        duration_micros: Some(VIDEO_LONG_THRESHOLD_SECS * SEC + SEC),
    };
    let err = call(Modality::Image, true, false)
        .enforce_long_media_policy(&probe)
        .unwrap_err();
    assert!(matches!(err, AppError::LongMedia { .. }));
}

#[test]
fn long_media_thresholds_are_exact() {
    let at = |kind, micros| MediaProbe { kind: Some(kind), duration_micros: Some(micros) };
    let c = call(Modality::Audio, false, false);
    assert!(c.enforce_long_media_policy(&at(MediaKind::Audio, 1800 * SEC)).is_ok());
    assert!(matches!(
        c.enforce_long_media_policy(&at(MediaKind::Audio, 1800 * SEC + 1)),
        Err(AppError::LongMedia { secs: 1800, threshold: 1800 })
    ));
    assert!(matches!(
        c.enforce_long_media_policy(&at(MediaKind::Video, 301 * SEC + 999_999)),
        Err(AppError::LongMedia { secs: 301, threshold: 300 })
    ));
    assert!(c.enforce_long_media_policy(&at(MediaKind::Image, u64::MAX)).is_ok());
    let unknown = MediaProbe { kind: None, duration_micros: None };
    assert!(call(Modality::Image, false, false).enforce_long_media_policy(&unknown).is_ok());
    assert!(matches!(
        call(Modality::Audio, false, false).enforce_long_media_policy(&unknown),
        Err(AppError::UnknownDuration)
    ));
    assert_eq!(long_threshold(MediaKind::Video), Some(300));
    assert_eq!(long_threshold(MediaKind::Audio), Some(1800));
    assert_eq!(long_threshold(MediaKind::Image), None);
}

#[test]
fn resolves_model_successfully_when_provided() {
    let server = VisionServer::new(Some("default-model".to_string()));
    assert_eq!(server.resolve_model(Some("requested-model"), &[]).unwrap(), "requested-model");

    let server_no_default = VisionServer::new(None);
    assert_eq!(
        server_no_default.resolve_model(Some("requested-model"), &[]).unwrap(),
        "requested-model"
    );
}

#[test]
fn resolves_model_successfully_from_default() {
    let server = VisionServer::new(Some("default-model".to_string()));
    assert_eq!(server.resolve_model(None, &[]).unwrap(), "default-model");
}

#[test]
fn fails_resolving_model_when_missing_and_no_default() {
    let server = VisionServer::new(None);
    let err = server.resolve_model(None, &[]).unwrap_err();
    assert!(err.contains("Missing required parameter: `model`"));
    assert!(err.contains("WARNING"));
}

#[test]
fn instructions_mention_the_default_model() {
    let with_default = VisionServer::new(Some("Gemini X".to_string())).instructions(&[]);
    assert!(with_default.contains("(default: `Gemini X`)"));
    let without = VisionServer::default().instructions(&[]);
    assert!(without.contains("REQUIRED on every call"));
    assert!(without.starts_with("Gives text-only LLMs"));
}

#[test]
fn tool_calls_carry_their_parameters() {
    let image = DescribeImageParams {
        image: "a.png".to_string(),
        model: None,
        focus: Some("f".to_string()),
        question: None,
        force_input_type: true,
        confirm_long_media: false,
    };
    let c = ToolCall::image(&image, "m");
    assert_eq!(c.modality, Modality::Image);
    assert_eq!(c.input, "a.png");
    assert_eq!(c.focus, Some("f"));
    assert_eq!(c.question, None);
    assert_eq!(c.model, "m");
    assert_eq!(c.deadline_secs, 600);
    assert!(c.force_input_type);
    assert!(!c.confirm_long_media);
    assert_eq!(c.expected_kind(), MediaKind::Image);

    let video = DescribeVideoParams {
        video: "v.mp4".to_string(),
        model: None,
        focus: None,
        question: Some("q".to_string()),
        confirm_long_media: true,
        force_input_type: false,
    };
    let c = ToolCall::video(&video, "m");
    assert_eq!(c.modality, Modality::Video);
    assert_eq!(c.question, Some("q"));
    assert!(c.confirm_long_media);
    assert_eq!(c.expected_kind(), MediaKind::Video);

    let audio = DescribeAudioParams {
        audio: "a.wav".to_string(),
        model: Some("x".to_string()),
        focus: None,
        question: None,
        confirm_long_media: false,
        force_input_type: false,
    };
    let c = ToolCall::audio(&audio, "m");
    assert_eq!(c.modality, Modality::Audio);
    assert_eq!(c.input, "a.wav");
    assert_eq!(c.expected_kind(), MediaKind::Audio);
}

#[test]
fn plan_checks_in_order_then_renders() {
    let models = vec![ModelInfo { name: "good".to_string(), tier: ModelTier::Flash }];
    let mut c = call(Modality::Video, false, false);
    c.model = "bad";
    let long_audio = MediaProbe { kind: Some(MediaKind::Audio), duration_micros: Some(u64::MAX) };
    assert!(matches!(
        c.plan(&long_audio, &models, "@f"),
        Err(AppError::InputTypeMismatch { .. })
    ));
    let long_video = MediaProbe { kind: Some(MediaKind::Video), duration_micros: Some(400 * SEC) };
    assert!(matches!(c.plan(&long_video, &models, "@f"), Err(AppError::LongMedia { .. })));
    let short_video = MediaProbe { kind: Some(MediaKind::Video), duration_micros: Some(SEC) };
    match c.plan(&short_video, &models, "@f") {
        Err(AppError::Input(msg)) => assert!(msg.starts_with("Unknown model: \"bad\"")),
        other => panic!("expected a model error, got {other:?}"),
    }
    assert!(c.plan(&short_video, &[], "@f").is_ok());
    c.model = "good";
    c.focus = Some("the cat");
    assert_eq!(
        c.plan(&short_video, &models, "@f").unwrap(),
        render(Modality::Video, Some("the cat"), None, "@f")
    );
}

#[test]
fn model_cache_keeps_first_nonempty_listing() {
    let mut cache = ModelCache::new();
    assert!(cache.get().is_none());
    assert!(cache.current().is_empty());
    cache.offer(Vec::new());
    assert!(cache.get().is_none());
    cache.offer(vec![ModelInfo { name: "a".to_string(), tier: ModelTier::Other }]);
    assert_eq!(cache.current().len(), 1);
    cache.offer(vec![
        ModelInfo { name: "b".to_string(), tier: ModelTier::Other },
        ModelInfo { name: "c".to_string(), tier: ModelTier::Other },
    ]);
    assert_eq!(cache.current().len(), 1);
    assert_eq!(cache.get().unwrap()[0].name, "a");
}
