use inference_gateway::inference::error::InferenceError;
use inference_gateway::inference::{default_rerank_top_n, Capability, RequestInput, ChatMessage};

#[test]
fn test_capability_from_str() {
    assert_eq!(Capability::from_str("chat").unwrap(), Capability::Chat);
    assert_eq!(Capability::from_str("embedding").unwrap(), Capability::Embedding);
    assert_eq!(Capability::from_str("rerank").unwrap(), Capability::Rerank);
    assert_eq!(Capability::from_str("classification").unwrap(), Capability::Classification);
    assert_eq!(Capability::from_str("detection").unwrap(), Capability::Detection);
    assert_eq!(Capability::from_str("ocr").unwrap(), Capability::OcR);
    assert_eq!(Capability::from_str("asr").unwrap(), Capability::Asr);
    assert_eq!(Capability::from_str("tts").unwrap(), Capability::Tts);
}

#[test]
fn test_capability_from_str_case_insensitive() {
    assert_eq!(Capability::from_str("CHAT").unwrap(), Capability::Chat);
    assert_eq!(Capability::from_str("Chat").unwrap(), Capability::Chat);
    assert_eq!(Capability::from_str("EMBEDDING").unwrap(), Capability::Embedding);
}

#[test]
fn test_capability_from_str_invalid() {
    assert!(Capability::from_str("invalid").is_err());
    assert!(Capability::from_str("").is_err());
}

#[test]
fn test_capability_display() {
    assert_eq!(Capability::Chat.to_string(), "chat");
    assert_eq!(Capability::Embedding.to_string(), "embedding");
    assert_eq!(Capability::Rerank.to_string(), "rerank");
    assert_eq!(Capability::OcR.to_string(), "ocr");
}

#[test]
fn capability_names_round_trip() {
    let all = [
        Capability::Chat,
        Capability::Embedding,
        Capability::Rerank,
        Capability::Classification,
        Capability::Detection,
        Capability::OcR,
        Capability::Asr,
        Capability::Tts,
    ];
    for c in all {
        assert_eq!(Capability::from_str(&c.to_string()).unwrap(), c);
    }
}

#[test]
fn unknown_capability_message_quotes_the_input() {
    assert_eq!(Capability::from_str("Vision").unwrap_err(), "Unknown capability: Vision");
}

#[test]
fn error_status_codes() {
    let s = || "x".to_string();
    assert_eq!(InferenceError::ModelNotFound(s()).status_code(), 404);
    assert_eq!(InferenceError::ModelNotLoaded(s()).status_code(), 503);
    assert_eq!(InferenceError::ModelLoading(s()).status_code(), 202);
    assert_eq!(InferenceError::BackendError(s()).status_code(), 500);
    assert_eq!(InferenceError::InvalidRequest(s()).status_code(), 400);
    assert_eq!(InferenceError::CapabilityNotSupported(s()).status_code(), 400);
    assert_eq!(InferenceError::SerializationError(s()).status_code(), 500);
    let io = std::io::Error::new(std::io::ErrorKind::Other, "disk");
    assert_eq!(InferenceError::IoError(io).status_code(), 500);
    assert_eq!(InferenceError::TokenizationError(s()).status_code(), 400);
    assert_eq!(InferenceError::InferenceExecutionError(s()).status_code(), 500);
}

#[test]
fn error_messages() {
    let s = || "m".to_string();
    assert_eq!(InferenceError::ModelNotFound(s()).to_string(), "Model not found: m");
    assert_eq!(InferenceError::ModelNotLoaded(s()).to_string(), "Model not loaded: m");
    assert_eq!(InferenceError::ModelLoading(s()).to_string(), "Model is loading, please wait: m");
    assert_eq!(InferenceError::BackendError(s()).to_string(), "Backend error: m");
    assert_eq!(InferenceError::InvalidRequest(s()).to_string(), "Invalid request: m");
    assert_eq!(InferenceError::CapabilityNotSupported(s()).to_string(), "Capability not supported: m");
    assert_eq!(InferenceError::SerializationError(s()).to_string(), "Serialization error: m");
    assert_eq!(InferenceError::TokenizationError(s()).to_string(), "Tokenization error: m");
    assert_eq!(InferenceError::InferenceExecutionError(s()).to_string(), "Inference error: m");
    let io = std::io::Error::new(std::io::ErrorKind::Other, "disk full");
    assert_eq!(InferenceError::IoError(io).to_string(), "IO error: disk full");
}

#[test]
fn rerank_top_n_default() {
    assert_eq!(default_rerank_top_n(), Some(10));
}

fn empty_input() -> RequestInput {
    RequestInput {
        capability: None,
        messages: None,
        text: None,
        input_text: None,
        input_items: None,
        max_tokens: None,
        timeout: None,
    }
}

#[test]
fn chat_messages_from_messages_array() {
    let mut input = empty_input();
    input.messages = Some(vec![ChatMessage { role: "user".to_string(), content: "hi".to_string() }]);
    input.text = Some("ignored".to_string());
    let msgs = input.into_chat_messages().unwrap();
    assert_eq!(msgs.len(), 1);
    assert_eq!(msgs[0].content, "hi");
}

#[test]
fn chat_messages_empty_array_is_refused() {
    let mut input = empty_input();
    input.messages = Some(vec![]);
    match input.into_chat_messages() {
        Err(InferenceError::InvalidRequest(m)) => {
            assert_eq!(m, "messages array is empty, at least one message is required")
        }
        other => panic!("unexpected {:?}", other),
    }
}

#[test]
fn chat_messages_from_plain_text() {
    let mut input = empty_input();
    input.text = Some("Hello".to_string());
    let msgs = input.into_chat_messages().unwrap();
    assert_eq!(msgs.len(), 1);
    assert_eq!(msgs[0].role, "user");
    assert_eq!(msgs[0].content, "Hello");

    let mut input = empty_input();
    input.input_text = Some("From input".to_string());
    let msgs = input.into_chat_messages().unwrap();
    assert_eq!(msgs[0].role, "user");
    assert_eq!(msgs[0].content, "From input");
}

#[test]
fn chat_messages_missing_is_refused() {
    match empty_input().into_chat_messages() {
        Err(InferenceError::InvalidRequest(m)) => assert_eq!(
            m,
            "No messages or string input found. Provide 'messages' array or a string 'input'."
        ),
        other => panic!("unexpected {:?}", other),
    }
}

#[test]
fn embedding_texts_rules() {
    let mut input = empty_input();
    input.input_text = Some("one".to_string());
    assert_eq!(input.into_embedding_texts().unwrap(), vec!["one".to_string()]);

    let mut input = empty_input();
    input.input_items = Some(vec![Some("a".to_string()), None, Some("b".to_string())]);
    assert_eq!(input.into_embedding_texts().unwrap(), vec!["a".to_string(), "b".to_string()]);

    let mut input = empty_input();
    input.input_items = Some(vec![None]);
    match input.into_embedding_texts() {
        Err(InferenceError::InvalidRequest(m)) => assert_eq!(m, "Embedding input is empty"),
        other => panic!("unexpected {:?}", other),
    }

    match empty_input().into_embedding_texts() {
        Err(InferenceError::InvalidRequest(m)) => {
            assert_eq!(m, "Embedding input must be a string or array of strings")
        }
        other => panic!("unexpected {:?}", other),
    }
}

#[test]
fn chat_limits() {
    let mut input = empty_input();
    assert_eq!(input.chat_max_tokens(), 64);
    assert_eq!(input.chat_timeout(300), 300);
    input.max_tokens = Some(32);
    input.timeout = Some(5);
    assert_eq!(input.chat_max_tokens(), 32);
    assert_eq!(input.chat_timeout(300), 5);
}
