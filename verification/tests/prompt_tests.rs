use ushidashi::dispatch::{get_history, system_prompt};

#[test]
fn consts_test_readme_includes_system_prompt() {
    let history = get_history(&vec![]);
    assert!(
        history[0].text.contains(system_prompt()),
        "the outbound history does not contain the system prompt."
    );
}

#[test]
fn system_prompt_test_readme_includes_system_prompt() {
    let prompt = system_prompt();
    let history = get_history(&vec![]);
    assert!(
        history[0].text.contains(prompt),
        "the outbound history does not contain the system prompt."
    );
    assert!(!prompt.trim().is_empty());
}
