use picrust::agent::{default_system_prompt, SYSTEM_PROMPT};

#[test]
fn test_system_prompt_exists() {
    let prompt = default_system_prompt();
    assert!(!prompt.is_empty());
    assert!(prompt.contains("coding assistant"));
}

#[test]
fn default_prompt_is_the_constant() {
    assert_eq!(default_system_prompt(), SYSTEM_PROMPT);
    assert!(SYSTEM_PROMPT.starts_with("You are an AI coding assistant."));
    assert!(SYSTEM_PROMPT.ends_with("explaining progress along the way.\n"));
    assert!(SYSTEM_PROMPT.contains("- **view**: Read file contents with line numbers"));
}
