use bambumate::commands::models::{answer_text, local_chat_url};
use bambumate::scraper::extraction::read_knowledge_response;

#[test]
fn anthropic_reply_text_is_the_first_content_block() {
    let body = "{\"content\":[{\"type\":\"text\",\"text\":\"hello\"}],\"model\":\"m\"}";
    assert_eq!(answer_text("anthropic", false, body), Ok("hello".to_string()));
    assert_eq!(answer_text("anthropic", true, body), Ok("hello".to_string()));
}

#[test]
fn openai_style_reply_text_is_the_first_choice_message() {
    let body = "{\"choices\":[{\"message\":{\"role\":\"assistant\",\"content\":\"{\\\"a\\\":1}\"}}]}";
    for p in ["openai", "kimi", "openrouter", "local"] {
        assert_eq!(answer_text(p, false, body), Ok("{\"a\":1}".to_string()));
        assert_eq!(answer_text(p, true, body), Ok("{\"a\":1}".to_string()));
    }
}

#[test]
fn reply_that_is_not_json_is_refused() {
    let e = answer_text("openai", false, "<html>oops</html>").unwrap_err();
    assert!(e.starts_with("Failed to parse OpenAI API response wrapper: "));
    let e = answer_text("openai", true, "<html>oops</html>").unwrap_err();
    assert!(e.starts_with("Failed to parse OpenAI response: "));
    let e = answer_text("kimi", false, "").unwrap_err();
    assert!(e.starts_with("Failed to parse Kimi API response wrapper: "));
    let e = answer_text("local", false, "nope").unwrap_err();
    assert!(e.starts_with("Failed to parse local server response: "));
    let e = answer_text("local", true, "nope").unwrap_err();
    assert!(e.starts_with("Failed to parse local server response: "));
}

#[test]
fn reply_without_the_answer_is_refused() {
    assert_eq!(
        answer_text("anthropic", false, "{\"choices\":[{\"message\":{\"content\":\"x\"}}]}"),
        Err("No text content in Anthropic API response".to_string())
    );
    assert_eq!(answer_text("anthropic", true, "{}"), Err("No text content in Anthropic vision response".to_string()));
    assert_eq!(
        answer_text("openai", false, "{\"choices\":[{\"message\":{\"content\":null}}]}"),
        Err("No content in OpenAI API response".to_string())
    );
    assert_eq!(answer_text("kimi", false, "{\"choices\":[]}"), Err("No content in Kimi API response".to_string()));
    assert_eq!(answer_text("openrouter", true, "{}"), Err("No content in OpenRouter vision response".to_string()));
    assert_eq!(answer_text("local", false, "{}"), Err("No content in local server response".to_string()));
    assert_eq!(answer_text("local", true, "{}"), Err("No content in local server vision response".to_string()));
}

#[test]
fn local_server_url_defaults_and_trims() {
    assert_eq!(local_chat_url(""), "http://localhost:1234/v1/chat/completions");
    assert_eq!(local_chat_url("http://h:1/"), "http://h:1/v1/chat/completions");
    assert_eq!(local_chat_url("http://h:1//"), "http://h:1/v1/chat/completions");
    assert_eq!(local_chat_url("http://h:1"), "http://h:1/v1/chat/completions");
}

#[test]
fn knowledge_answer_is_marked_as_model_knowledge() {
    let text = "{\"brand\": \"Polymaker\", \"material\": \"PLA\", \"nozzle_temp_min\": 190, \"confidence\": 0.8}";
    let specs = read_knowledge_response(text, "PolyLite PLA").unwrap().unwrap();
    assert_eq!(specs.source_url, "ai-knowledge");
    assert_eq!(specs.name, "PolyLite PLA");
    assert_eq!(specs.brand, "Polymaker");
    assert_eq!(specs.extraction_confidence, 800);
}

#[test]
fn knowledge_answer_errors_pass_through() {
    let e = read_knowledge_response("not json", "X").unwrap().unwrap_err();
    assert!(e.starts_with("Failed to parse LLM response as JSON: "));
    assert!(e.ends_with(". Raw response: not json"));
    let long = format!("{{{}", "x".repeat(600));
    let e = read_knowledge_response(&long, "X").unwrap().unwrap_err();
    assert!(e.ends_with(&format!(". Raw response: {{{}...", "x".repeat(499))));
    let e = read_knowledge_response("{\"material\": \"PLA\"}", "X").unwrap().unwrap_err();
    assert_eq!(e, "LLM response JSON does not match FilamentSpecs schema: Missing 'brand' field");
}
