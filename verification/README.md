# inference_gateway

A gateway that loads AI models of several formats (ONNX, GGUF; Candle and TensorRT
reserved) and serves them behind one HTTP API: chat completions, embeddings, rerank and
generic inference, plus model management and Prometheus metrics.

- `src/` is the verified library (Verus): configuration and its defaults, capabilities and
  their names, errors and their HTTP status, the registry of loaded models, model selection
  and the request queue bound, and the decisions of each backend — which capability serves a
  request, how chat messages and embedding texts are read from a request, how a chat prompt
  is built with the engine's chat template, when an engine is loaded and reused, and how a generation's outcome becomes an answer.
- `app/` is the server around it: HTTP routes (axum), JSON and YAML (serde), engine loading
  and generation (llama-rs) on worker threads with time limits (tokio), and metrics.
- `tests/` exercises the library.

Run the server with `cargo run`; it listens on `0.0.0.0:8080` unless a configuration says
otherwise. `INFERENCE_CONFIG=/path/to/config.yaml cargo run` reads that YAML file.
