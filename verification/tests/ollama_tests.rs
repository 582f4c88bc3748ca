use voxbridge::ollama::{
    ollama_chat_request, ollama_chat_url, ollama_completion_outcome, ollama_tags_url,
    reachable_from_status, OllamaReply,
};

#[test]
fn endpoints_ignore_trailing_slashes() {
    assert_eq!(ollama_chat_url("http://localhost:11434"), "http://localhost:11434/api/chat");
    assert_eq!(ollama_chat_url("http://localhost:11434/"), "http://localhost:11434/api/chat");
    assert_eq!(ollama_tags_url("http://10.0.0.2:11434//"), "http://10.0.0.2:11434/api/tags");
    assert_eq!(ollama_chat_url("http://h"), ollama_chat_url("http://h/"));
}

#[test]
fn reachable_only_on_200() {
    assert!(reachable_from_status(Some(200)));
    assert!(!reachable_from_status(Some(404)));
    assert!(!reachable_from_status(Some(204)));
    assert!(!reachable_from_status(None));
}

#[test]
fn chat_request_with_system_prompt() {
    let r = ollama_chat_request("qwen3:4b", Some("Fix punctuation."), "hello world", 128);
    assert_eq!(r.model, "qwen3:4b");
    assert_eq!(r.messages.len(), 2);
    assert_eq!(r.messages[0].role, "system");
    assert_eq!(r.messages[0].content, "Fix punctuation.");
    assert_eq!(r.messages[1].role, "user");
    assert_eq!(r.messages[1].content, "hello world");
    assert!(!r.stream);
    assert!(!r.think);
    assert_eq!(r.options.num_predict, 128);
}

#[test]
fn chat_request_without_system_prompt_defaults_budget() {
    let r = ollama_chat_request("m", None, "u", 0);
    assert_eq!(r.messages.len(), 1);
    assert_eq!(r.messages[0].role, "user");
    assert_eq!(r.options.num_predict, 512);
    assert_eq!(ollama_chat_request("m", None, "u", -7).options.num_predict, 512);
    assert_eq!(ollama_chat_request("m", None, "u", 1).options.num_predict, 1);
}

#[test]
fn completion_outcomes() {
    let url = "http://h/api/chat";
    assert_eq!(
        ollama_completion_outcome(url, OllamaReply::Message("  Hello. \n".to_string())),
        Ok("Hello.".to_string())
    );
    assert_eq!(
        ollama_completion_outcome(url, OllamaReply::RequestFailed("connection refused".to_string())),
        Err("Ollama request to http://h/api/chat failed: connection refused".to_string())
    );
    assert_eq!(
        ollama_completion_outcome(url, OllamaReply::InvalidJson("missing field `message`".to_string())),
        Err("Ollama response from http://h/api/chat was not valid JSON: missing field `message`".to_string())
    );
}
