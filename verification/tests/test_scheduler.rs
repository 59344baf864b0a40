use inference_gateway::backends::BackendType;
use inference_gateway::config::{DeviceConfig, DeviceType, ModelConfig};
use inference_gateway::inference::error::InferenceError;
use inference_gateway::inference::Capability;
use inference_gateway::models::ModelManager;
use inference_gateway::scheduler::{QueueManager, RoutingStrategy, Scheduler};
use std::path::PathBuf;
use std::sync::Arc;

fn config(id: &str) -> ModelConfig {
    ModelConfig {
        id: id.to_string(),
        name: id.to_string(),
        backend: BackendType::Gguf,
        path: PathBuf::from("/models/m.gguf"),
        capabilities: vec![Capability::Chat],
        metadata: Default::default(),
        device: DeviceConfig { device_type: DeviceType::Cpu, device_ids: vec![] },
        batch_size: None,
        max_sequence_length: None,
        inference_timeout_secs: 60,
        use_gpu: false,
        max_concurrent_requests: Some(2),
    }
}

fn load(manager: &mut ModelManager, id: &str) {
    let c = config(id);
    manager.plan_load(&c).unwrap();
    manager.finish_load(c, Ok(())).unwrap();
}

#[test]
fn test_scheduler_creation() {
    let scheduler = Arc::new(Scheduler::new());
    assert!(Arc::ptr_eq(&scheduler, &scheduler));
}

#[test]
fn test_scheduler_schedule_inference_no_model() {
    let manager = ModelManager::new();
    let scheduler = Scheduler::new();
    let result = scheduler.schedule_inference(&manager, "nonexistent");
    assert!(result.is_err());
    let err = result.unwrap_err();
    assert!(matches!(err, InferenceError::ModelNotFound(_)));
}

#[test]
fn select_prefers_the_requested_model() {
    let mut manager = ModelManager::new();
    load(&mut manager, "a");
    load(&mut manager, "b");
    manager.set_default_model("b").unwrap();
    let mut scheduler = Scheduler::new();
    scheduler.set_routing_strategy(RoutingStrategy::RoundRobin);
    assert_eq!(scheduler.select_model(&manager, "a").unwrap(), "a");
    assert_eq!(scheduler.schedule_inference(&manager, "a").unwrap(), "a");
    assert_eq!(scheduler.select_model(&manager, "zzz").unwrap(), "b");
    assert_eq!(scheduler.schedule_inference(&manager, "zzz").unwrap(), "b");
}

#[test]
fn no_suitable_model_message() {
    let manager = ModelManager::new();
    match Scheduler::new().select_model(&manager, "q") {
        Err(InferenceError::ModelNotFound(m)) => assert_eq!(m, "No suitable model found for request"),
        other => panic!("unexpected {:?}", other),
    }
}

#[test]
fn unloaded_default_is_not_served() {
    let mut manager = ModelManager::new();
    load(&mut manager, "d");
    manager.set_default_model("d").unwrap();
    manager.unload_model("d").unwrap();
    let scheduler = Scheduler::new();
    assert_eq!(scheduler.select_model(&manager, "other").unwrap(), "d");
    match scheduler.schedule_inference(&manager, "other") {
        Err(InferenceError::ModelNotFound(m)) => assert_eq!(m, "d"),
        other => panic!("unexpected {:?}", other),
    }
}

#[test]
fn queue_admits_below_the_limit() {
    let mut queue = QueueManager::new(2);
    assert!(queue.try_enqueue());
    assert!(queue.try_enqueue());
    assert!(!queue.try_enqueue());
    queue.dequeue();
    queue.dequeue();
    assert!(queue.try_enqueue());
}

#[test]
fn queue_enqueue_then_dequeue_restores() {
    let mut queue = QueueManager::new(1);
    assert!(queue.try_enqueue());
    queue.dequeue();
    assert!(queue.try_enqueue());
    queue.dequeue();
    queue.dequeue();
    assert!(!queue.try_enqueue());
    assert!(queue.try_enqueue());
}

#[test]
fn enqueues_accept_exactly_up_to_the_limit() {
    for limit in 0..4usize {
        let mut queue = QueueManager::new(limit);
        let accepted: Vec<bool> = (0..6).map(|_| queue.try_enqueue()).collect();
        let expected: Vec<bool> = (0..6).map(|i| i < limit).collect();
        assert_eq!(accepted, expected);
        assert_eq!(accepted.iter().filter(|b| **b).count(), limit.min(6));
    }
}
