use inference_gateway::api::{fallback_chat_response, fresh_id};
use inference_gateway::backends::candle::CandleBackend;
use inference_gateway::backends::gguf::{finish_generation, embedding_usage, EngineSlot, EngineStep, GenerationOutcome, GgufBackend};
use inference_gateway::backends::onnx::{OnnxAnswer, OnnxBackend};
use inference_gateway::backends::prompt::{build_chat_prompt, PromptTemplate};
use inference_gateway::backends::BackendType;
use inference_gateway::config::{DeviceConfig, DeviceType, ModelConfig};
use inference_gateway::inference::error::InferenceError;
use inference_gateway::inference::{Capability, ChatMessage, RequestInput};
use llama_rs::ChatTemplate;
use std::path::PathBuf;

fn config(backend: BackendType, caps: Vec<Capability>) -> ModelConfig {
    ModelConfig {
        id: "test-model".to_string(),
        name: "Test Model".to_string(),
        backend,
        path: PathBuf::from("/models/missing.gguf"),
        capabilities: caps,
        metadata: Default::default(),
        device: DeviceConfig { device_type: DeviceType::Auto, device_ids: vec![] },
        batch_size: None,
        max_sequence_length: None,
        inference_timeout_secs: 300,
        use_gpu: false,
        max_concurrent_requests: None,
    }
}

fn msg(role: &str, content: &str) -> ChatMessage {
    ChatMessage { role: role.to_string(), content: content.to_string() }
}

#[test]
fn single_user_message_prompt() {
    let prompt = build_chat_prompt(PromptTemplate::UserAssistant, &vec![msg("user", "Hello")]);
    assert_eq!(prompt, "<|user|>\nHello<|assistant|>\n");
}

#[test]
fn system_and_user_prompt() {
    let prompt = build_chat_prompt(
        PromptTemplate::ChatML,
        &vec![msg("system", "Be brief."), msg("user", "Hi")],
    );
    assert_eq!(
        prompt,
        "<|im_start|>system\nBe brief.<|im_end|>\n<|im_start|>user\nHi<|im_end|>\n<|im_start|>assistant\n"
    );
}

#[test]
fn multi_turn_prompt() {
    let prompt = build_chat_prompt(
        PromptTemplate::Llama2,
        &vec![msg("user", "A"), msg("assistant", "B"), msg("user", "C"), msg("tool", "ignored"), msg("assistant", "D")],
    );
    assert_eq!(prompt, "[INST] A [/INST]B [INST] C [/INST]D\n");
}

#[test]
fn system_only_prompt_is_empty() {
    let prompt = build_chat_prompt(PromptTemplate::UserAssistant, &vec![msg("system", "S")]);
    assert_eq!(prompt, "");
}

#[test]
fn plain_template_prompt() {
    let prompt = build_chat_prompt(PromptTemplate::Plain, &vec![msg("system", "S"), msg("user", "U")]);
    assert_eq!(prompt, "System: S\n\nUser: U\n\nAssistant:");
}

#[test]
fn gguf_capability_decisions() {
    let backend = GgufBackend::new(&config(BackendType::Gguf, vec![Capability::Chat])).unwrap();
    assert_eq!(backend.determine_capability(None).unwrap(), Capability::Chat);
    assert_eq!(backend.determine_capability(Some("CHAT")).unwrap(), Capability::Chat);
    match backend.determine_capability(Some("embedding")) {
        Err(InferenceError::CapabilityNotSupported(m)) => {
            assert_eq!(m, "Capability 'embedding' is not supported by model 'test-model'")
        }
        other => panic!("unexpected {:?}", other),
    }
    match backend.determine_capability(Some("vision")) {
        Err(InferenceError::CapabilityNotSupported(m)) => assert_eq!(m, "vision"),
        other => panic!("unexpected {:?}", other),
    }
    let reranker = GgufBackend::new(&config(BackendType::Gguf, vec![Capability::Rerank])).unwrap();
    assert_eq!(reranker.determine_capability(None).unwrap(), Capability::Rerank);
    match reranker.plan_inference(None) {
        Err(InferenceError::CapabilityNotSupported(m)) => assert_eq!(m, "rerank"),
        other => panic!("unexpected {:?}", other),
    }
    let none = GgufBackend::new(&config(BackendType::Gguf, vec![])).unwrap();
    assert_eq!(none.plan_inference(None).unwrap(), Capability::Chat);
}

#[test]
fn gguf_concurrency_and_engine_steps() {
    let mut c = config(BackendType::Gguf, vec![Capability::Chat]);
    assert_eq!(GgufBackend::new(&c).unwrap().max_concurrent(), 1);
    c.max_concurrent_requests = Some(0);
    assert_eq!(GgufBackend::new(&c).unwrap().max_concurrent(), 1);
    c.max_concurrent_requests = Some(4);
    let backend = GgufBackend::new(&c).unwrap();
    assert_eq!(backend.max_concurrent(), 4);
    assert!(matches!(backend.engine_step(true, false), EngineStep::Reuse));
    assert!(matches!(backend.engine_step(false, true), EngineStep::Load));
    match backend.engine_step(false, false) {
        EngineStep::Fail(InferenceError::BackendError(m)) => {
            assert_eq!(m, "Model file not found: \"/models/missing.gguf\"")
        }
        other => panic!("unexpected {:?}", other),
    }
    match GgufBackend::engine_load_failed("Io") {
        InferenceError::BackendError(m) => assert_eq!(m, "Failed to load GGUF model: Io"),
        other => panic!("unexpected {:?}", other),
    }
}

#[test]
fn generation_outcomes() {
    assert_eq!(finish_generation(GenerationOutcome::Generated("ok".to_string()), 60).unwrap(), "ok");
    match finish_generation(GenerationOutcome::TimedOut, 60) {
        Err(InferenceError::InferenceExecutionError(m)) => assert_eq!(m, "Inference timeout after 60 seconds"),
        other => panic!("unexpected {:?}", other),
    }
    match finish_generation(GenerationOutcome::TimedOut, 0) {
        Err(InferenceError::InferenceExecutionError(m)) => assert_eq!(m, "Inference timeout after 0 seconds"),
        other => panic!("unexpected {:?}", other),
    }
    match finish_generation(GenerationOutcome::EngineFailed("Oom".to_string()), 60) {
        Err(InferenceError::BackendError(m)) => assert_eq!(m, "Inference failed: Oom"),
        other => panic!("unexpected {:?}", other),
    }
    match finish_generation(GenerationOutcome::WorkerFailed("Panic".to_string()), 60) {
        Err(InferenceError::BackendError(m)) => assert_eq!(m, "Join error: Panic"),
        other => panic!("unexpected {:?}", other),
    }
}

#[test]
fn gguf_chat_completion() {
    let backend = GgufBackend::new(&config(BackendType::Gguf, vec![Capability::Chat])).unwrap();
    let r = backend.chat_completion("Hi there".to_string(), 1234567890);
    assert!(r.id.starts_with("chat-"));
    assert_eq!(r.id.len(), 41);
    assert_eq!(r.object, "chat.completion");
    assert_eq!(r.created, 1234567890);
    assert_eq!(r.model, "test-model");
    assert_eq!(r.choices.len(), 1);
    assert_eq!(r.choices[0].index, 0);
    assert_eq!(r.choices[0].message.role, "assistant");
    assert_eq!(r.choices[0].message.content, "Hi there");
    assert_eq!(r.choices[0].finish_reason.as_deref(), Some("stop"));
    assert_eq!(r.usage.total_tokens, 0);
}

#[test]
fn embedding_usage_counts_bytes() {
    let usage = embedding_usage(&vec!["hello".to_string(), "héllo".to_string()]);
    assert_eq!(usage.prompt_tokens, 11);
    assert_eq!(usage.completion_tokens, 0);
    assert_eq!(usage.total_tokens, 11);
}

#[test]
fn onnx_session_and_capabilities() {
    let mut backend = OnnxBackend::new(&config(BackendType::Onnx, vec![Capability::Embedding])).unwrap();
    match backend.ensure_session(false) {
        Err(InferenceError::BackendError(m)) => assert!(m.starts_with("Model file not found: ")),
        other => panic!("unexpected {:?}", other),
    }
    assert!(backend.ensure_session(true).is_ok());
    assert!(backend.ensure_session(false).is_ok());
    assert_eq!(backend.determine_capability(None).unwrap(), Capability::Embedding);
    assert_eq!(backend.determine_capability(Some("Rerank")).unwrap(), Capability::Rerank);
    match backend.determine_capability(Some("nope")) {
        Err(InferenceError::CapabilityNotSupported(m)) => assert_eq!(m, "nope"),
        other => panic!("unexpected {:?}", other),
    }
    let info = backend.get_model_info();
    assert_eq!(info.backend, BackendType::Onnx);
    assert_eq!(info.id, "test-model");
    let chat = backend.infer_chat(7);
    assert!(chat.choices.is_empty());
    assert_eq!(chat.model, "test-model");
    assert!(chat.id.starts_with("chat-"));
}

#[test]
fn candle_backend_is_reserved() {
    let backend = CandleBackend::new(&config(BackendType::Candle, vec![Capability::Chat])).unwrap();
    let info = backend.get_model_info();
    assert_eq!(info.backend, BackendType::Candle);
    assert_eq!(info.name, "Test Model");
    assert_eq!(backend.capabilities(), vec![Capability::Chat]);
    match CandleBackend::unimplemented() {
        InferenceError::BackendError(m) => assert_eq!(m, "Candle backend not yet implemented"),
        other => panic!("unexpected {:?}", other),
    }
}

#[test]
fn chat_fallback_and_ids() {
    let id = fresh_id("rerank-");
    assert!(id.starts_with("rerank-"));
    assert_eq!(id.len(), 43);
    assert_ne!(fresh_id("x"), fresh_id("x"));
    let u: Vec<char> = id["rerank-".len()..].chars().collect();
    for (i, c) in u.iter().enumerate() {
        if i == 8 || i == 13 || i == 18 || i == 23 {
            assert_eq!(*c, '-');
        } else {
            assert!(c.is_ascii_digit() || ('a'..='f').contains(c));
        }
    }
    assert_eq!(u[14], '4');
    assert!(matches!(u[19], '8' | '9' | 'a' | 'b'));
    let r = fallback_chat_response("gpt", 5);
    assert_eq!(r.model, "gpt");
    assert_eq!(r.created, 5);
    assert_eq!(r.choices.len(), 1);
    assert_eq!(r.choices[0].message.content, "Model response");
    assert_eq!(r.choices[0].message.role, "assistant");
}

#[test]
fn engine_leaves_built_prompts_alone() {
    let conversation = vec![msg("system", "Be kind."), msg("user", "Hello"), msg("assistant", "Hi"), msg("user", "Bye")];
    let cases = [
        (PromptTemplate::UserAssistant, ChatTemplate::UserAssistant),
        (PromptTemplate::ChatML, ChatTemplate::ChatML),
        (PromptTemplate::Llama2, ChatTemplate::Llama2),
        (PromptTemplate::Plain, ChatTemplate::None),
    ];
    for (ours, engine) in cases {
        let prompt = build_chat_prompt(ours, &conversation);
        assert_eq!(engine.wrap_prompt(&prompt), prompt);
        let single = build_chat_prompt(ours, &vec![msg("user", "Hello, who are you?")]);
        assert_eq!(engine.wrap_prompt(&single), single);
    }
}

#[test]
fn missing_model_file_message_names_the_path() {
    let e = inference_gateway::backends::model_file_missing("\"/models/x.gguf\"");
    match e {
        InferenceError::BackendError(s) => assert_eq!(s, "Model file not found: \"/models/x.gguf\""),
        other => panic!("unexpected error {:?}", other),
    }
}

#[test]
fn chat_prompt_and_limit_ignore_everything_but_texts() {
    let conversation = vec![msg("system", "Be brief."), msg("user", "Hello")];
    let a = RequestInput {
        capability: None,
        messages: Some(conversation.clone()),
        text: None,
        input_text: None,
        input_items: None,
        max_tokens: Some(32),
        timeout: Some(5),
    };
    let b = RequestInput { capability: Some("chat".to_string()), timeout: None, ..a.clone() };
    assert_eq!(a.chat_max_tokens(), b.chat_max_tokens());
    let ma = a.into_chat_messages().unwrap();
    let mb = b.into_chat_messages().unwrap();
    for t in [PromptTemplate::UserAssistant, PromptTemplate::ChatML, PromptTemplate::Llama2, PromptTemplate::Plain] {
        assert_eq!(build_chat_prompt(t, &ma), build_chat_prompt(t, &mb));
    }
}

#[test]
fn gguf_chat_plan_of_a_request() {
    let backend = GgufBackend::new(&config(BackendType::Gguf, vec![Capability::Chat])).unwrap();
    let input = RequestInput {
        capability: None,
        messages: None,
        text: Some("Hello".to_string()),
        input_text: None,
        input_items: None,
        max_tokens: None,
        timeout: Some(7),
    };
    let plan = backend.infer_chat_plan(PromptTemplate::UserAssistant, input).unwrap();
    assert_eq!(plan.prompt, "<|user|>\nHello<|assistant|>\n");
    assert_eq!(plan.max_tokens, 64);
    assert_eq!(plan.timeout_secs, 7);
    let empty = RequestInput {
        capability: None,
        messages: Some(vec![]),
        text: None,
        input_text: None,
        input_items: None,
        max_tokens: Some(3),
        timeout: None,
    };
    match backend.infer_chat_plan(PromptTemplate::ChatML, empty) {
        Err(InferenceError::InvalidRequest(m)) => assert_eq!(m, "messages array is empty, at least one message is required"),
        other => panic!("unexpected {:?}", other),
    }
}

#[test]
fn gguf_engine_is_loaded_once_and_reused() {
    let backend = GgufBackend::new(&config(BackendType::Gguf, vec![Capability::Chat])).unwrap();
    let mut slot: EngineSlot<u32> = EngineSlot::new();
    assert!(matches!(backend.ensure_engine(&slot, true), Ok(None)));
    assert!(matches!(backend.ensure_engine(&slot, false), Err(InferenceError::BackendError(_))));
    match GgufBackend::store_engine(&mut slot, Err("boom".to_string())) {
        Err(InferenceError::BackendError(m)) => assert_eq!(m, "Failed to load GGUF model: boom"),
        other => panic!("unexpected {:?}", other),
    }
    assert!(!slot.is_loaded());
    GgufBackend::store_engine(&mut slot, Ok(7)).unwrap();
    let first = backend.ensure_engine(&slot, true).unwrap().unwrap().clone();
    let again = backend.ensure_engine(&slot, false).unwrap().unwrap().clone();
    assert_eq!(*first, 7);
    assert!(std::sync::Arc::ptr_eq(&first, &again));
}

#[test]
fn onnx_infer_answers_by_capability() {
    let mut backend = OnnxBackend::new(&config(BackendType::Onnx, vec![Capability::Embedding])).unwrap();
    assert!(matches!(backend.infer(None, false, 1), Err(InferenceError::BackendError(_))));
    match backend.infer(None, true, 1).unwrap() {
        OnnxAnswer::EmptyEmbedding { model, usage } => {
            assert_eq!(model, "test-model");
            assert_eq!(usage.total_tokens, 0);
        }
        other => panic!("unexpected {:?}", other),
    }
    match backend.infer(Some("chat"), false, 9).unwrap() {
        OnnxAnswer::Chat(r) => {
            assert_eq!(r.created, 9);
            assert!(r.choices.is_empty());
            assert!(r.id.starts_with("chat-"));
        }
        other => panic!("unexpected {:?}", other),
    }
    assert!(matches!(backend.infer(Some("ocr"), false, 1).unwrap(), OnnxAnswer::Placeholder));
    match backend.infer(Some("telepathy"), false, 1) {
        Err(InferenceError::CapabilityNotSupported(m)) => assert_eq!(m, "telepathy"),
        other => panic!("unexpected {:?}", other),
    }
}
