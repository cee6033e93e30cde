use gemini_multimodal_mcp::cli::parse_args;

fn args(v: &[&str]) -> Vec<String> {
    v.iter().map(|s| s.to_string()).collect()
}

fn model_of(v: &[&str]) -> Option<String> {
    parse_args(&args(v)).unwrap().unwrap().default_model
}

#[test]
fn no_arguments_means_no_default_model() {
    assert_eq!(model_of(&[]), None);
}

#[test]
fn model_options_set_the_default() {
    assert_eq!(model_of(&["-m", "A"]), Some("A".to_string()));
    assert_eq!(model_of(&["--model", "B C"]), Some("B C".to_string()));
    assert_eq!(model_of(&["--model=D"]), Some("D".to_string()));
    assert_eq!(model_of(&["-m=E"]), Some("E".to_string()));
    assert_eq!(model_of(&["-m=", "--model", "F"]), Some("F".to_string()));
}

#[test]
fn help_is_asked_for() {
    assert!(parse_args(&args(&["--help", "--bogus"])).unwrap().is_none());
    assert!(parse_args(&args(&["-m", "x", "-h"])).unwrap().is_none());
}

#[test]
fn bad_arguments_are_errors() {
    assert_eq!(
        parse_args(&args(&["--model"])).unwrap_err(),
        "error: option '--model' requires an argument"
    );
    assert_eq!(
        parse_args(&args(&["x"])).unwrap_err(),
        "error: unknown argument 'x'\n\nUsage: gemini-multimodal-mcp [OPTIONS]\n\nFor more information, try '--help'."
    );
}
