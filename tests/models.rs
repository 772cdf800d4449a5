use aicommits::models::{fallback_models, model_choices, model_short_name, supports_generation, ModelInfo};

fn info(name: &str, methods: Option<&[&str]>) -> ModelInfo {
    ModelInfo {
        name: name.to_string(),
        supported_methods: methods.map(|ms| ms.iter().map(|m| m.to_string()).collect()),
    }
}

#[test]
fn choices_are_filtered_stripped_and_descending() {
    let listing = vec![
        info("models/gemini-1.5-flash", Some(&["generateContent", "countTokens"])),
        info("models/embedding-001", Some(&["embedContent"])),
        info("models/gemini-2.0-flash", Some(&["countTokens", "generateContent"])),
        info("models/aqa", None),
        info("models/gemini-1.5-pro", Some(&["generateContent"])),
    ];
    assert_eq!(
        model_choices(&listing),
        Some(vec![
            "gemini-2.0-flash".to_string(),
            "gemini-1.5-pro".to_string(),
            "gemini-1.5-flash".to_string(),
        ])
    );
}

#[test]
fn no_compatible_model_gives_none() {
    let listing = vec![info("models/embedding-001", Some(&["embedContent"])), info("models/aqa", None)];
    assert_eq!(model_choices(&listing), None);
    assert_eq!(model_choices(&vec![]), None);
}

#[test]
fn capability_must_match_exactly() {
    assert!(supports_generation(&info("m", Some(&["generateContent"]))));
    assert!(!supports_generation(&info("m", Some(&["generateContentStream"]))));
    assert!(!supports_generation(&info("m", Some(&[]))));
    assert!(!supports_generation(&info("m", None)));
}

#[test]
fn short_names() {
    assert_eq!(model_short_name("models/gemini-pro"), "gemini-pro");
    assert_eq!(model_short_name("tunedModels/models/x"), "tunedModels/models/x");
    assert_eq!(model_short_name("models/"), "");
}

#[test]
fn fallback_list() {
    assert_eq!(fallback_models(), vec!["gemini-2.0-flash", "gemini-1.5-flash", "gemini-1.5-pro"]);
}
