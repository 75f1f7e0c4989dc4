use sqlgen::transcript::{compose, SYSTEM_PROMPT};

#[test]
fn compose_renders_chatml_exactly() {
    let out = compose("How many users signed up?", "CREATE TABLE users(id INT);").unwrap();
    let expected = format!(
        "<|im_start|>system\n{}<|im_end|>\n<|im_start|>user\n{}\nSCHEMA: {}<|im_end|>\n<|im_start|>assistant\n",
        SYSTEM_PROMPT, "How many users signed up?", "CREATE TABLE users(id INT);"
    );
    assert_eq!(out, expected);
}

#[test]
fn compose_matches_template_crate() {
    let question = "Which rows have x over 2?";
    let schema = "CREATE TABLE t(x INT);";
    let out = compose(question, schema).unwrap();
    let messages = vec![
        chat_templates::Message {
            role: "system".to_string(),
            content: SYSTEM_PROMPT.to_string(),
        },
        chat_templates::Message {
            role: "user".to_string(),
            content: format!("{}\nSCHEMA: {}", question, schema),
        },
    ];
    let reference =
        chat_templates::apply_template(chat_templates::ChatTemplate::ChatML, &messages, true)
            .unwrap();
    assert_eq!(out, reference);
}

#[test]
fn compose_handles_empty_inputs() {
    let out = compose("", "").unwrap();
    assert!(out.starts_with("<|im_start|>system\n"));
    assert!(out.ends_with("<|im_start|>assistant\n"));
    assert!(out.contains("\nSCHEMA: <|im_end|>\n"));
}
