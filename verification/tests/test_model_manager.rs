use inference_gateway::backends::BackendType;
use inference_gateway::config::{DeviceConfig, DeviceType, ModelConfig};
use inference_gateway::inference::error::InferenceError;
use inference_gateway::inference::Capability;
use inference_gateway::models::ModelManager;
use std::path::PathBuf;

fn create_test_model_config(id: &str) -> ModelConfig {
    ModelConfig {
        id: id.to_string(),
        name: id.to_string(),
        backend: BackendType::Onnx,
        path: PathBuf::from(format!("/tmp/test-model-{}.onnx", id)),
        capabilities: vec![Capability::Chat, Capability::Embedding],
        metadata: Default::default(),
        device: DeviceConfig {
            device_type: DeviceType::Auto,
            device_ids: vec![],
        },
        batch_size: None,
        max_sequence_length: None,
        inference_timeout_secs: 300,
        use_gpu: false,
        max_concurrent_requests: None,
    }
}

fn load(manager: &mut ModelManager, config: ModelConfig) {
    let backend = manager.plan_load(&config).unwrap();
    assert_eq!(backend, config.backend);
    manager.finish_load(config, Ok(())).unwrap();
}

#[test]
fn test_model_manager_list_empty() {
    let manager = ModelManager::new();
    let models = manager.list_models();
    assert!(models.is_empty());
}

#[test]
fn test_model_manager_default_model_none() {
    let manager = ModelManager::new();
    let default = manager.get_default_model();
    assert!(default.is_none());
}

#[test]
fn test_model_manager_is_model_loaded_false() {
    let manager = ModelManager::new();
    assert!(!manager.is_model_loaded("nonexistent"));
}

#[test]
fn test_model_manager_get_model_info_none() {
    let manager = ModelManager::new();
    let info = manager.get_model_info("nonexistent");
    assert!(info.is_none());
}

#[test]
fn test_model_manager_unload_nonexistent() {
    let mut manager = ModelManager::new();
    let result = manager.unload_model("nonexistent");
    assert!(result.is_err());
}

#[test]
fn test_model_manager_set_default_model_not_loaded() {
    let mut manager = ModelManager::new();
    let result = manager.set_default_model("nonexistent");
    assert!(result.is_err());
}

#[test]
fn test_model_manager_get_models_by_capability() {
    let manager = ModelManager::new();
    let models = manager.get_models_by_capability(Capability::Chat);
    assert!(models.is_empty());
}

#[test]
fn test_model_config_default_device() {
    let config = create_test_model_config("test");
    assert_eq!(config.device.device_type, DeviceType::Auto);
}

#[test]
fn test_model_config_capabilities() {
    let config = create_test_model_config("test");
    assert!(config.capabilities.contains(&Capability::Chat));
    assert!(config.capabilities.contains(&Capability::Embedding));
}

#[test]
fn test_backend_type_display() {
    assert_eq!(BackendType::Onnx.to_string(), "onnx");
    assert_eq!(BackendType::Gguf.to_string(), "gguf");
    assert_eq!(BackendType::Candle.to_string(), "candle");
    assert_eq!(BackendType::TensorRT.to_string(), "tensorrt");
}

#[test]
fn load_registers_and_describes_the_model() {
    let mut manager = ModelManager::new();
    let mut config = create_test_model_config("qwen");
    config.name = "Qwen Chat".to_string();
    config.metadata.insert("family".to_string(), "qwen".to_string());
    let info = {
        let backend = manager.plan_load(&config).unwrap();
        assert_eq!(backend, BackendType::Onnx);
        manager.finish_load(config, Ok(())).unwrap()
    };
    assert_eq!(info.id, "qwen");
    assert_eq!(info.name, "Qwen Chat");
    assert_eq!(info.backend, BackendType::Onnx);
    assert!(manager.is_model_loaded("qwen"));
    let found = manager.get_model_info("qwen").unwrap();
    assert_eq!(found.name, "Qwen Chat");
    assert_eq!(found.metadata.get("family").map(|s| s.as_str()), Some("qwen"));
    assert_eq!(manager.list_models().len(), 1);
}

#[test]
fn loading_twice_is_refused() {
    let mut manager = ModelManager::new();
    load(&mut manager, create_test_model_config("m1"));
    match manager.plan_load(&create_test_model_config("m1")) {
        Err(InferenceError::BackendError(m)) => assert_eq!(m, "Model m1 is already loaded"),
        other => panic!("unexpected {:?}", other),
    }
}

#[test]
fn reserved_backends_are_refused() {
    let manager = ModelManager::new();
    let mut config = create_test_model_config("c");
    config.backend = BackendType::Candle;
    match manager.plan_load(&config) {
        Err(InferenceError::BackendError(m)) => assert_eq!(m, "Candle backend not yet implemented"),
        other => panic!("unexpected {:?}", other),
    }
    config.backend = BackendType::TensorRT;
    match manager.plan_load(&config) {
        Err(InferenceError::BackendError(m)) => assert_eq!(m, "TensorRT backend not yet implemented"),
        other => panic!("unexpected {:?}", other),
    }
    config.backend = BackendType::Gguf;
    assert_eq!(manager.plan_load(&config).unwrap(), BackendType::Gguf);
}

#[test]
fn failed_warmup_registers_nothing() {
    let mut manager = ModelManager::new();
    let config = create_test_model_config("broken");
    let result = manager.finish_load(config, Err(InferenceError::BackendError("no file".to_string())));
    match result {
        Err(InferenceError::BackendError(m)) => assert_eq!(m, "no file"),
        other => panic!("unexpected {:?}", other),
    }
    assert!(!manager.is_model_loaded("broken"));
}

#[test]
fn unload_undoes_load() {
    let mut manager = ModelManager::new();
    load(&mut manager, create_test_model_config("a"));
    load(&mut manager, create_test_model_config("b"));
    manager.unload_model("a").unwrap();
    assert!(!manager.is_model_loaded("a"));
    assert!(manager.is_model_loaded("b"));
    let ids: Vec<String> = manager.list_models().into_iter().map(|i| i.id).collect();
    assert_eq!(ids, vec!["b".to_string()]);
    match manager.unload_model("a") {
        Err(InferenceError::ModelNotFound(m)) => assert_eq!(m, "Model a not found"),
        other => panic!("unexpected {:?}", other),
    }
}

#[test]
fn models_by_capability_filters() {
    let mut manager = ModelManager::new();
    load(&mut manager, create_test_model_config("chatty"));
    let mut embed = create_test_model_config("embedder");
    embed.capabilities = vec![Capability::Embedding];
    load(&mut manager, embed);
    let chat: Vec<String> = manager.get_models_by_capability(Capability::Chat).into_iter().map(|i| i.id).collect();
    assert_eq!(chat, vec!["chatty".to_string()]);
    let mut emb: Vec<String> =
        manager.get_models_by_capability(Capability::Embedding).into_iter().map(|i| i.id).collect();
    emb.sort();
    assert_eq!(emb, vec!["chatty".to_string(), "embedder".to_string()]);
    assert!(manager.get_models_by_capability(Capability::Tts).is_empty());
    assert_eq!(manager.list_models().len(), 2);
}

#[test]
fn default_model_rules() {
    let mut manager = ModelManager::new();
    match manager.set_default_model("ghost") {
        Err(InferenceError::ModelNotFound(m)) => assert_eq!(m, "Model ghost not found"),
        other => panic!("unexpected {:?}", other),
    }
    load(&mut manager, create_test_model_config("main"));
    manager.set_default_model("main").unwrap();
    assert_eq!(manager.get_default_model().as_deref(), Some("main"));
    manager.unload_model("main").unwrap();
    assert_eq!(manager.get_default_model().as_deref(), Some("main"));
}

#[test]
fn inference_target_needs_a_loaded_model() {
    let mut manager = ModelManager::new();
    match manager.inference_target("x") {
        Err(InferenceError::ModelNotFound(m)) => assert_eq!(m, "x"),
        other => panic!("unexpected {:?}", other),
    }
    load(&mut manager, create_test_model_config("x"));
    assert_eq!(manager.inference_target("x").unwrap(), "x");
}
