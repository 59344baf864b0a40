//! Configuration of the gateway and of the models it serves.
use crate::backends::BackendType;
use crate::inference::Capability;
use std::collections::HashMap;
use std::path::PathBuf;
use vstd::prelude::*;

verus! {

/// `std::path::PathBuf`, carried as an opaque value.
#[verifier::external_type_specification]
#[verifier::external_body]
pub struct ExPathBuf(std::path::PathBuf);

/// `PathBuf::clone`: the copy holds the same path.
pub assume_specification[ <std::path::PathBuf as std::clone::Clone>::clone ](p: &PathBuf) -> (r: PathBuf)
    ensures
        r == *p,
;

/// Calls `num_cpus::get`, the number of logical CPUs available to this process,
/// which its documentation promises is at least 1.
#[verifier::external_body]
fn available_cpus() -> (r: usize)
    ensures
        r >= 1,
{
    num_cpus::get()
}

/// The whole configuration of the gateway.
#[derive(Debug, Clone)]
pub struct AppConfig {
    pub server: ServerConfig,
    pub models: Vec<ModelConfig>,
    pub logging: LoggingConfig,
    pub default_model: Option<String>,
}

/// Where and how the HTTP server listens.
#[derive(Debug, Clone)]
pub struct ServerConfig {
    pub host: String,
    pub port: u16,
    pub workers: usize,
    pub tls: Option<TlsConfig>,
}

/// Certificate and key of a TLS listener.
#[derive(Debug, Clone)]
pub struct TlsConfig {
    pub cert_path: PathBuf,
    pub key_path: PathBuf,
}

/// Log level and format.
#[derive(Debug, Clone)]
pub struct LoggingConfig {
    pub level: String,
    pub format: LogFormat,
}

/// How log lines are written.
#[derive(Debug, Clone, Copy, PartialEq, Eq, Structural)]
pub enum LogFormat {
    Json,
    Pretty,
}

/// Everything needed to load one model.
#[derive(Debug, Clone)]
pub struct ModelConfig {
    pub id: String,
    pub name: String,
    pub backend: BackendType,
    pub path: PathBuf,
    pub capabilities: Vec<Capability>,
    pub metadata: HashMap<String, String>,
    pub device: DeviceConfig,
    pub batch_size: Option<usize>,
    pub max_sequence_length: Option<usize>,
    pub inference_timeout_secs: u64,
    pub use_gpu: bool,
    pub max_concurrent_requests: Option<usize>,
}

/// The devices a model runs on.
#[derive(Debug, Clone)]
pub struct DeviceConfig {
    pub device_type: DeviceType,
    pub device_ids: Vec<usize>,
}

/// A kind of compute device.
#[derive(Debug, Clone, Copy, PartialEq, Eq, Structural)]
pub enum DeviceType {
    Auto,
    Cpu,
    Cuda,
    Metal,
    TensorRT,
}

/// The content of a model configuration as plain values.
#[verifier::ext_equal]
pub struct ModelConfigView {
    pub id: Seq<char>,
    pub name: Seq<char>,
    pub backend: BackendType,
    pub path: PathBuf,
    pub capabilities: Seq<Capability>,
    pub metadata: Map<String, String>,
    pub device_type: DeviceType,
    pub device_ids: Seq<usize>,
    pub batch_size: Option<usize>,
    pub max_sequence_length: Option<usize>,
    pub inference_timeout_secs: u64,
    pub use_gpu: bool,
    pub max_concurrent_requests: Option<usize>,
}

impl View for ModelConfig {
    type V = ModelConfigView;

    open spec fn view(&self) -> ModelConfigView {
        ModelConfigView {
            id: self.id@,
            name: self.name@,
            backend: self.backend,
            path: self.path,
            capabilities: self.capabilities@,
            metadata: self.metadata@,
            device_type: self.device.device_type,
            device_ids: self.device.device_ids@,
            batch_size: self.batch_size,
            max_sequence_length: self.max_sequence_length,
            inference_timeout_secs: self.inference_timeout_secs,
            use_gpu: self.use_gpu,
            max_concurrent_requests: self.max_concurrent_requests,
        }
    }
}

/// A copy of a vector of plain values.
pub fn copy_vec<T: Copy>(v: &Vec<T>) -> (r: Vec<T>)
    ensures
        r@ == v@,
{
    let mut out: Vec<T> = Vec::new();
    let n = v.len();
    for i in 0..n
        invariant
            n == v@.len(),
            out@ == v@.take(i as int),
    {
        out.push(v[i]);
        assert(out@ =~= v@.take(i + 1));
    }
    assert(v@.take(n as int) =~= v@);
    out
}

impl ModelConfig {
    /// A copy of this configuration with the same content.
    pub fn duplicate(&self) -> (r: ModelConfig)
        ensures
            r@ == self@,
    {
        ModelConfig {
            id: self.id.clone(),
            name: self.name.clone(),
            backend: self.backend,
            path: self.path.clone(),
            capabilities: copy_vec(&self.capabilities),
            metadata: self.metadata.clone(),
            device: DeviceConfig {
                device_type: self.device.device_type,
                device_ids: copy_vec(&self.device.device_ids),
            },
            batch_size: self.batch_size,
            max_sequence_length: self.max_sequence_length,
            inference_timeout_secs: self.inference_timeout_secs,
            use_gpu: self.use_gpu,
            max_concurrent_requests: self.max_concurrent_requests,
        }
    }
}

/// The number of server workers when the configuration names none: one per available CPU.
pub fn default_workers() -> (r: usize)
    ensures
        r >= 1,
{
    available_cpus()
}

/// The log level when the configuration names none.
pub fn default_log_level() -> (r: String)
    ensures
        r@ == "info"@,
{
    String::from_str("info")
}

/// The number of seconds an inference may take when the model configuration names none.
pub fn default_inference_timeout() -> (r: u64)
    ensures
        r == 300,
{
    300
}

/// The device type when the configuration names none.
pub fn default_device() -> (r: DeviceType)
    ensures
        r == DeviceType::Auto,
{
    DeviceType::Auto
}

impl Default for LogFormat {
    fn default() -> (r: Self)
        ensures
            r == LogFormat::Pretty,
    {
        LogFormat::Pretty
    }
}

impl Default for DeviceType {
    fn default() -> (r: Self)
        ensures
            r == DeviceType::Auto,
    {
        DeviceType::Auto
    }
}

impl Default for DeviceConfig {
    fn default() -> (r: Self)
        ensures
            r.device_type == DeviceType::Auto,
            r.device_ids@.len() == 0,
    {
        DeviceConfig { device_type: DeviceType::Auto, device_ids: Vec::new() }
    }
}

impl Default for LoggingConfig {
    fn default() -> (r: Self)
        ensures
            r.level@ == "info"@,
            r.format == LogFormat::Pretty,
    {
        LoggingConfig { level: default_log_level(), format: LogFormat::Pretty }
    }
}

/// `c` is the built-in configuration: listen on 0.0.0.0:8080 without TLS with at least one
/// worker, no models, log at level "info" in the pretty format, no default model.
pub open spec fn is_builtin_config(c: AppConfig) -> bool {
    &&& c.server.host@ == "0.0.0.0"@
    &&& c.server.port == 8080
    &&& c.server.workers >= 1
    &&& c.server.tls is None
    &&& c.models@.len() == 0
    &&& c.logging.level@ == "info"@
    &&& c.logging.format == LogFormat::Pretty
    &&& c.default_model is None
}

impl Default for AppConfig {
    fn default() -> (r: Self)
        ensures
            is_builtin_config(r),
    {
        AppConfig {
            server: ServerConfig {
                host: String::from_str("0.0.0.0"),
                port: 8080,
                workers: default_workers(),
                tls: None,
            },
            models: Vec::new(),
            logging: LoggingConfig { level: default_log_level(), format: LogFormat::Pretty },
            default_model: None,
        }
    }
}

impl AppConfig {
    /// The configuration that was read, or the built-in one when none could be read.
    pub fn load_or_default(loaded: Option<AppConfig>) -> (r: AppConfig)
        ensures
            loaded matches Some(c) ==> r == c,
            loaded is None ==> is_builtin_config(r),
    {
        match loaded {
            Some(c) => c,
            None => AppConfig::default(),
        }
    }
}

} // verus!
