use inference_gateway::backends::BackendType;
use inference_gateway::config::{
    AppConfig, DeviceConfig, DeviceType, LogFormat, LoggingConfig, ModelConfig, ServerConfig, TlsConfig,
};
use inference_gateway::inference::Capability;
use std::path::PathBuf;

fn create_test_model_config() -> ModelConfig {
    ModelConfig {
        id: "test-model".to_string(),
        name: "Test Model".to_string(),
        backend: BackendType::Onnx,
        path: PathBuf::from("/models/test.onnx"),
        capabilities: vec![Capability::Chat, Capability::Embedding],
        metadata: Default::default(),
        device: DeviceConfig {
            device_type: DeviceType::Auto,
            device_ids: vec![],
        },
        batch_size: Some(32),
        max_sequence_length: Some(2048),
        inference_timeout_secs: 300,
        use_gpu: false,
        max_concurrent_requests: None,
    }
}

#[test]
fn test_app_config_default() {
    let config = AppConfig::default();

    assert_eq!(config.server.host, "0.0.0.0");
    assert_eq!(config.server.port, 8080);
    assert!(config.models.is_empty());
    assert_eq!(config.logging.level, "info");
}

#[test]
fn test_server_config_default_workers() {
    let config = ServerConfig {
        host: "0.0.0.0".to_string(),
        port: 8080,
        workers: num_cpus::get(),
        tls: None,
    };

    assert!(config.workers > 0);
}

#[test]
fn test_server_config_with_tls() {
    let config = ServerConfig {
        host: "0.0.0.0".to_string(),
        port: 8443,
        workers: 4,
        tls: Some(TlsConfig {
            cert_path: PathBuf::from("/certs/cert.pem"),
            key_path: PathBuf::from("/certs/key.pem"),
        }),
    };

    assert!(config.tls.is_some());
    let tls = config.tls.unwrap();
    assert_eq!(tls.cert_path, PathBuf::from("/certs/cert.pem"));
}

#[test]
fn test_model_config_batch_size() {
    let mut config = create_test_model_config();
    config.batch_size = Some(64);
    assert_eq!(config.batch_size, Some(64));
}

#[test]
fn test_model_config_max_sequence_length() {
    let mut config = create_test_model_config();
    config.max_sequence_length = Some(4096);
    assert_eq!(config.max_sequence_length, Some(4096));
}

#[test]
fn test_logging_config_default() {
    let config = LoggingConfig::default();
    assert_eq!(config.level, "info");
}

#[test]
fn builtin_config_is_complete() {
    let config = AppConfig::default();
    assert!(config.server.workers >= 1);
    assert!(config.server.tls.is_none());
    assert_eq!(config.logging.format, LogFormat::Pretty);
    assert!(config.default_model.is_none());
}

#[test]
fn load_or_default_prefers_the_loaded_config() {
    let mut loaded = AppConfig::default();
    loaded.server.port = 3000;
    loaded.default_model = Some("qwen".to_string());
    let config = AppConfig::load_or_default(Some(loaded));
    assert_eq!(config.server.port, 3000);
    assert_eq!(config.default_model.as_deref(), Some("qwen"));

    let fallback = AppConfig::load_or_default(None);
    assert_eq!(fallback.server.port, 8080);
    assert_eq!(fallback.server.host, "0.0.0.0");
}

#[test]
fn config_defaults() {
    assert_eq!(inference_gateway::config::default_inference_timeout(), 300);
    assert_eq!(inference_gateway::config::default_log_level(), "info");
    assert_eq!(inference_gateway::config::default_device(), DeviceType::Auto);
    assert!(inference_gateway::config::default_workers() >= 1);
    assert_eq!(LogFormat::default(), LogFormat::Pretty);
    assert_eq!(DeviceType::default(), DeviceType::Auto);
    let device = DeviceConfig::default();
    assert_eq!(device.device_type, DeviceType::Auto);
    assert!(device.device_ids.is_empty());
}

#[test]
fn duplicate_keeps_the_configuration() {
    let mut config = create_test_model_config();
    config.metadata.insert("quant".to_string(), "q4".to_string());
    config.device.device_ids = vec![0, 1];
    let copy = config.duplicate();
    assert_eq!(copy.id, config.id);
    assert_eq!(copy.path, config.path);
    assert_eq!(copy.capabilities, config.capabilities);
    assert_eq!(copy.metadata, config.metadata);
    assert_eq!(copy.device.device_ids, vec![0, 1]);
    assert_eq!(copy.batch_size, Some(32));
}
