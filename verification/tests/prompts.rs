use gemini_multimodal_mcp::input::file_ref;
use gemini_multimodal_mcp::prompts::{body_for, render, Modality, HARD_CONSTRAINTS};

#[test]
fn default_image_prompt_has_all_eight_categories_and_file_ref() {
    let p = render(Modality::Image, None, None, "@/tmp/x.png");
    for n in 1..=8 {
        let header = format!("{n}.");
        assert!(p.contains(&header), "missing category {n}");
    }
    assert!(p.contains("/tmp/x.png"));
    assert!(p.contains("PERCEPTION-ONLY"));
}

#[test]
fn question_override_skips_default_body() {
    let p = render(
        Modality::Image,
        None,
        Some("Is there a red hat?"),
        "@/tmp/x.png",
    );
    assert!(p.contains("Is there a red hat?"));
    assert!(p.contains("PERCEPTION-ONLY"));
    assert!(!p.contains("Every visible object & person"));
}

#[test]
fn focus_block_is_only_inserted_when_focus_given() {
    let with_focus = render(Modality::Video, Some("the dog"), None, "@/tmp/x.mp4");
    assert!(with_focus.contains("specifically interested in: the dog"));

    let without = render(Modality::Video, None, None, "@/tmp/x.mp4");
    assert!(!without.contains("specifically interested in"));
}

#[test]
fn question_prompt_has_exact_layout() {
    let p = render(Modality::Audio, Some("ignored"), Some("Who speaks?"), "@/a b.wav");
    let expected = format!(
        "{HARD_CONSTRAINTS}\n\nWho speaks?\n\nThe file to view (call your file-viewing tool on this exact path): /a b.wav\n"
    );
    assert_eq!(p, expected);
}

#[test]
fn structured_prompt_has_exact_layout() {
    let p = render(Modality::Audio, Some("the drums"), None, "/no/at.wav");
    let expected = format!(
        "{HARD_CONSTRAINTS}\n\n{}\n\nThe caller is specifically interested in: the drums. Still complete all\ncategories, but give extra attention to this aspect within the\nrelevant categories.\n\nThe file to view (call your file-viewing tool on this exact path): /no/at.wav\n",
        body_for(Modality::Audio)
    );
    assert_eq!(p, expected);
}

#[test]
fn prompt_names_the_resolved_path() {
    let path = "@weird/@path.png";
    let p = render(Modality::Image, None, None, &file_ref(path));
    assert!(p.ends_with(&format!(
        "The file to view (call your file-viewing tool on this exact path): {path}\n"
    )));
}

#[test]
fn each_modality_has_its_own_body() {
    assert!(body_for(Modality::Image).starts_with("Describe this image"));
    assert!(body_for(Modality::Video).starts_with("Describe this video"));
    assert!(body_for(Modality::Audio).starts_with("Describe this audio recording"));
}
