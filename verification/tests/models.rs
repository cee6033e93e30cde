use gemini_multimodal_mcp::models::{
    classify, guidance_text, parse_models, tier_hint, validate, ModelInfo, ModelTier,
};

#[test]
fn parses_and_classifies_models() {
    let stdout = "Gemini 3.5 Flash (Medium)\n\
                  Gemini 3.5 Flash (High)\n\
                  Gemini 3.5 Flash (Low)\n\
                  Gemini 3.1 Pro (Low)\n\
                  Gemini 3.1 Pro (High)\n\
                  Sonnet 4.6 (Thinking)\n\
                  Opus 4.6 (Thinking)\n\
                  GPT-OSS 120B (Medium)\n";
    let models = parse_models(stdout);
    assert_eq!(models.len(), 8);
    assert_eq!(models[0].tier, ModelTier::Flash);
    assert_eq!(models[3].tier, ModelTier::Pro);
    assert_eq!(models[5].tier, ModelTier::Other);
    assert_eq!(models[6].tier, ModelTier::Other);
}

#[test]
fn parse_models_trims_and_skips_blank_lines() {
    let models = parse_models("\r\n  Gemini Flash  \r\n\n\t\nx\n");
    assert_eq!(models.len(), 2);
    assert_eq!(models[0].name, "Gemini Flash");
    assert_eq!(models[1].name, "x");
    assert!(parse_models("").is_empty());
    assert!(parse_models("\n \n").is_empty());
}

#[test]
fn classify_is_case_insensitive_and_prefers_flash() {
    assert_eq!(classify("FLASH"), ModelTier::Flash);
    assert_eq!(classify("pro flash"), ModelTier::Flash);
    assert_eq!(classify("Approach"), ModelTier::Pro);
    assert_eq!(classify("Gemini"), ModelTier::Other);
}

#[test]
fn validate_rejects_unknown_and_accepts_known() {
    let models = parse_models("Gemini 3.5 Flash (High)\nGemini 3.1 Pro (Low)\n");
    assert!(validate(&models, "Gemini 3.5 Flash (High)").is_ok());
    assert!(validate(&models, "Gemini 3.1 Pro (Low)").is_ok());
    let err = validate(&models, "gpt-4").unwrap_err();
    assert!(err.contains("Unknown model"));
    assert!(err.contains("Gemini 3.5 Flash (High)"));
}

#[test]
fn validate_message_is_exact() {
    let models = vec![
        ModelInfo { name: "A".to_string(), tier: ModelTier::Other },
        ModelInfo { name: "B".to_string(), tier: ModelTier::Other },
    ];
    let err = validate(&models, "C").unwrap_err();
    let expected = format!(
        "Unknown model: \"C\".\nValid models:\n  • A\n  • B\n\n{}",
        guidance_text(&models)
    );
    assert_eq!(err, expected);
    assert!(validate(&models, "a").is_err());
}

#[test]
fn validate_passes_through_when_list_empty() {
    assert!(validate(&[], "anything").is_ok());
}

#[test]
fn guidance_text_lists_all_models_with_hints() {
    let models = parse_models("Gemini 3.5 Flash (High)\nGemini 3.1 Pro (Low)\n");
    let g = guidance_text(&models);
    assert!(g.contains("Gemini 3.5 Flash (High)"));
    assert!(g.contains("cheaper"));
    assert!(g.contains("world knowledge"));
}

#[test]
fn guidance_text_has_exact_layout() {
    let models = vec![ModelInfo { name: "M".to_string(), tier: ModelTier::Other }];
    let g = guidance_text(&models);
    assert_eq!(
        g,
        format!(
            "Available models (you MUST choose one explicitly):\n  • M{}\n\nGuidance: prefer Flash for routine description tasks. Switch to Pro only when the task requires real-world knowledge or high-precision transcription. Do NOT use Other-tier models for this MCP.",
            tier_hint(ModelTier::Other)
        )
    );
}

#[test]
fn guidance_text_warns_when_empty() {
    let g = guidance_text(&[]);
    assert!(g.contains("WARNING"));
    assert!(g.contains("validation is disabled"));
}
