//! The GGUF backend: which requests it serves, when it loads its engine, and how it turns
//! generations into answers.
use crate::api::{chat_reply, final_choice, is_chat_reply, is_final_choice};
use crate::backends::{default_capability, default_capability_of, has_capability, info_of, is_missing_file_error, model_file_missing, model_info_for, path_debug_text, BackendType, ModelInfo};
use crate::config::{copy_vec, ModelConfig, ModelConfigView};
use crate::inference::{capability_name, parse_capability_spec, lowercase_of, Capability, ChatResponse, InferenceError, Usage};
use crate::backends::prompt::{build_chat_prompt, chat_prompt, law_prompt_depends_only_on_texts, PromptTemplate};
use crate::inference::request::{chat_request_texts, chat_time_limit, chat_token_limit, is_invalid_request, message_texts, RequestInput};
use crate::inference::ChatMessage;
use crate::text::{decimal, joined, push_decimal};
use std::sync::Arc;
use vstd::prelude::*;

verus! {

/// A model configured for the GGUF backend, and how many requests it runs at once.
pub struct GgufBackend {
    config: ModelConfig,
    max_concurrent: usize,
}

/// The number of requests a GGUF model runs at once: as configured, and at least one.
pub open spec fn concurrency_of(config: ModelConfigView) -> usize {
    match config.max_concurrent_requests {
        Some(n) => if n >= 1 { n } else { 1 },
        None => 1,
    }
}

/// What a GGUF backend decides a request is for, as a capability or the refusal message: a
/// named capability must be known (else the name is the message) and configured for the
/// model; with none named, the model's default capability.
pub open spec fn gguf_capability(config: ModelConfigView, requested: Option<Seq<char>>) -> Result<Capability, Seq<char>> {
    match requested {
        Some(name) => match parse_capability_spec(lowercase_of(name), name) {
            Ok(c) => if config.capabilities.contains(c) {
                Ok(c)
            } else {
                Err("Capability '"@ + name + "' is not supported by model '"@ + config.id + "'"@)
            },
            Err(_) => Err(name),
        },
        None => Ok(default_capability_of(config.capabilities)),
    }
}

/// What a GGUF backend does with a request: it serves chat and embedding; any other
/// capability is refused with its name.
pub open spec fn gguf_plan(config: ModelConfigView, requested: Option<Seq<char>>) -> Result<Capability, Seq<char>> {
    match gguf_capability(config, requested) {
        Ok(c) => if c == Capability::Chat || c == Capability::Embedding { Ok(c) } else { Err(capability_name(c)) },
        Err(m) => Err(m),
    }
}

/// Views a capability decision as plain values: a refusal becomes its message.
pub open spec fn plan_view(r: Result<Capability, InferenceError>) -> Result<Capability, Seq<char>> {
    match r {
        Ok(c) => Ok(c),
        Err(InferenceError::CapabilityNotSupported(s)) => Err(s@),
        Err(_) => Err(Seq::empty()),
    }
}

/// What to do to have an engine for the model.
#[derive(Debug)]
pub enum EngineStep {
    /// The engine is loaded: use it.
    Reuse,
    /// Load the engine from the model file.
    Load,
    /// Loading cannot start.
    Fail(InferenceError),
}

/// How a generation ended.
#[derive(Debug)]
pub enum GenerationOutcome {
    /// The engine produced this text.
    Generated(String),
    /// The engine reported an error, written with `Debug`.
    EngineFailed(String),
    /// The worker that ran the engine failed, written with `Debug`.
    WorkerFailed(String),
    /// The time limit passed first.
    TimedOut,
}

/// The byte length of a text in UTF-8.
pub open spec fn utf8_len(s: Seq<char>) -> nat {
    vstd::utf8::encode_utf8(s).len()
}

/// The sum of the UTF-8 byte lengths of `texts`.
pub open spec fn total_bytes(texts: Seq<String>) -> nat
    decreases texts.len(),
{
    if texts.len() == 0 {
        0
    } else {
        total_bytes(texts.drop_last()) + utf8_len(texts.last()@)
    }
}

/// `e` is a backend error with exactly this message.
pub open spec fn is_backend_error(e: InferenceError, msg: Seq<char>) -> bool {
    e matches InferenceError::BackendError(s) && s@ == msg
}

/// `r` is what a generation that ended in `o` gives, under a time limit of `timeout_secs`.
pub open spec fn generation_answer(o: GenerationOutcome, r: Result<String, InferenceError>, timeout_secs: u64) -> bool {
    match o {
        GenerationOutcome::Generated(s) => r matches Ok(t) && t@ == s@,
        GenerationOutcome::EngineFailed(d) => r matches Err(e) && is_backend_error(e, "Inference failed: "@ + d@),
        GenerationOutcome::WorkerFailed(d) => r matches Err(e) && is_backend_error(e, "Join error: "@ + d@),
        GenerationOutcome::TimedOut => r matches Err(e) && (e matches InferenceError::InferenceExecutionError(s)
            && s@ == "Inference timeout after "@ + decimal(timeout_secs as nat) + " seconds"@),
    }
}

/// The answer of a generation that ended in `outcome` under a limit of `timeout_secs` seconds.
pub fn finish_generation(outcome: GenerationOutcome, timeout_secs: u64) -> (r: Result<String, InferenceError>)
    ensures
        generation_answer(outcome, r, timeout_secs),
{
    match outcome {
        GenerationOutcome::Generated(s) => Ok(s),
        GenerationOutcome::EngineFailed(d) => Err(InferenceError::BackendError(joined("Inference failed: ", d.as_str()))),
        GenerationOutcome::WorkerFailed(d) => Err(InferenceError::BackendError(joined("Join error: ", d.as_str()))),
        GenerationOutcome::TimedOut => {
            let mut s = String::from_str("Inference timeout after ");
            push_decimal(&mut s, timeout_secs);
            s.append(" seconds");
            Err(InferenceError::InferenceExecutionError(s))
        },
    }
}

/// Token accounting of an embedding request: the prompt and total counts are the summed
/// UTF-8 byte lengths of the texts; nothing is completed.
pub fn embedding_usage(texts: &Vec<String>) -> (r: Usage)
    requires
        total_bytes(texts@) <= usize::MAX,
    ensures
        r.prompt_tokens == total_bytes(texts@),
        r.completion_tokens == 0,
        r.total_tokens == total_bytes(texts@),
{
    let n = texts.len();
    let mut sum: usize = 0;
    for i in 0..n
        invariant
            n == texts@.len(),
            total_bytes(texts@) <= usize::MAX,
            sum == total_bytes(texts@.take(i as int)),
    {
        assert(texts@.take(i + 1).drop_last() =~= texts@.take(i as int));
        proof { lemma_total_bytes_prefix(texts@, i + 1); }
        let len = texts[i].as_str().len();
        sum = sum + len;
    }
    assert(texts@.take(n as int) =~= texts@);
    Usage { prompt_tokens: sum, completion_tokens: 0, total_tokens: sum }
}

/// The byte total of a prefix never exceeds that of the whole sequence.
pub proof fn lemma_total_bytes_prefix(texts: Seq<String>, k: int)
    requires
        0 <= k <= texts.len(),
    ensures
        total_bytes(texts.take(k)) <= total_bytes(texts),
    decreases texts.len() - k,
{
    if k < texts.len() {
        lemma_total_bytes_prefix(texts, k + 1);
        assert(texts.take(k + 1).drop_last() =~= texts.take(k));
    } else {
        assert(texts.take(k) =~= texts);
    }
}

/// Where a GGUF model keeps its engine once loaded; the engine is shared from here.
pub struct EngineSlot<E> {
    engine: Option<Arc<E>>,
}

/// What `GgufBackend::ensure_engine` does with an engine slot that holds `stored`:
/// `Some(Some(e))` hands out the stored engine `e`, `Some(None)` asks for the engine to be
/// loaded, `None` refuses because the model file is missing.
pub open spec fn engine_plan<E>(stored: Option<E>, model_file_present: bool) -> Option<Option<E>> {
    match stored {
        Some(e) => Some(Some(e)),
        None => if model_file_present { Some(None) } else { None },
    }
}

impl<E> EngineSlot<E> {
    /// The engine held, if one was stored.
    pub closed spec fn stored(&self) -> Option<E> {
        match self.engine {
            Some(a) => Some(*a),
            None => None,
        }
    }

    /// A slot with no engine.
    pub fn new() -> (r: Self)
        ensures
            r.stored() is None,
    {
        EngineSlot { engine: None }
    }

    /// Whether an engine is stored.
    pub fn is_loaded(&self) -> (r: bool)
        ensures
            r == self.stored() is Some,
    {
        self.engine.is_some()
    }

    /// The stored engine, to be shared.
    pub fn engine(&self) -> (r: Option<&Arc<E>>)
        ensures
            r is None <==> self.stored() is None,
            r matches Some(a) ==> self.stored() == Some(**a),
    {
        match &self.engine {
            Some(a) => Some(a),
            None => None,
        }
    }
}

/// What the engine is handed for a chat request.
#[derive(Debug)]
pub struct ChatPlan {
    /// The prompt, written with the engine's chat template.
    pub prompt: String,
    /// The number of tokens the engine may generate.
    pub max_tokens: usize,
    /// The number of seconds the generation may take.
    pub timeout_secs: u64,
}

/// `p` is the plan of a chat request `input` under template `t`, with `default_secs` as the
/// model's time limit: the prompt of the messages the request yields, its token limit and
/// its time limit.
pub open spec fn is_chat_plan(t: PromptTemplate, input: RequestInput, default_secs: u64, p: ChatPlan) -> bool {
    &&& exists|m: Seq<ChatMessage>| chat_request_texts(input) == Some(#[trigger] message_texts(m)) && p.prompt@ == chat_prompt(t, m)
    &&& p.max_tokens == chat_token_limit(input)
    &&& p.timeout_secs == chat_time_limit(input, default_secs)
}

impl GgufBackend {
    #[verifier::type_invariant]
    spec fn well_formed(&self) -> bool {
        self.max_concurrent == concurrency_of(self.config@)
    }

    /// The configuration this backend was created from.
    pub closed spec fn model_config(&self) -> ModelConfigView {
        self.config@
    }

    /// Creates the backend for `config`; this always succeeds.
    pub fn new(config: &ModelConfig) -> (r: Result<Self, InferenceError>)
        ensures
            r matches Ok(b) && b.model_config() == config@,
    {
        let max_concurrent = match config.max_concurrent_requests {
            Some(n) => if n >= 1 { n } else { 1 },
            None => 1,
        };
        Ok(GgufBackend { config: config.duplicate(), max_concurrent })
    }

    /// How many requests run at once: as configured, and at least one.
    pub fn max_concurrent(&self) -> (r: usize)
        ensures
            r == concurrency_of(self.model_config()),
            r >= 1,
    {
        proof { use_type_invariant(self); }
        self.max_concurrent
    }

    /// What to do to have an engine: use the loaded one; else load it when the model file is
    /// there; else fail with the missing path.
    pub fn engine_step(&self, engine_loaded: bool, model_file_present: bool) -> (r: EngineStep)
        ensures
            engine_loaded ==> r is Reuse,
            !engine_loaded && model_file_present ==> r is Load,
            !engine_loaded && !model_file_present ==> (r matches EngineStep::Fail(e) && is_missing_file_error(e)),
    {
        if engine_loaded {
            EngineStep::Reuse
        } else if !model_file_present {
            EngineStep::Fail(model_file_missing(path_debug_text(&self.config.path).as_str()))
        } else {
            EngineStep::Load
        }
    }

    /// Has an engine for the model: hands out the one in `slot` when there is one, whether
    /// or not the model file is still there; else asks for it to be loaded (`Ok(None)`) when
    /// the model file is there; else fails with the missing path.
    pub fn ensure_engine<'a, E>(&self, slot: &'a EngineSlot<E>, model_file_present: bool) -> (r: Result<Option<&'a Arc<E>>, InferenceError>)
        ensures
            match engine_plan(slot.stored(), model_file_present) {
                Some(Some(e)) => r matches Ok(Some(a)) && **a == e,
                Some(None) => r matches Ok(None),
                None => r matches Err(err) && is_missing_file_error(err),
            },
    {
        match self.engine_step(slot.is_loaded(), model_file_present) {
            EngineStep::Reuse => Ok(slot.engine()),
            EngineStep::Load => Ok(None),
            EngineStep::Fail(e) => Err(e),
        }
    }

    /// Records the outcome of loading the engine: a loaded engine is stored in `slot` from
    /// then on; a failure, its error written with `Debug`, leaves the slot as it was.
    pub fn store_engine<E>(slot: &mut EngineSlot<E>, loaded: Result<E, String>) -> (r: Result<(), InferenceError>)
        ensures
            match loaded {
                Ok(e) => r is Ok && final(slot).stored() == Some(e),
                Err(d) => (r matches Err(err) && is_backend_error(err, "Failed to load GGUF model: "@ + d@))
                    && final(slot).stored() == old(slot).stored(),
            },
    {
        match loaded {
            Ok(e) => {
                slot.engine = Some(Arc::new(e));
                Ok(())
            },
            Err(d) => Err(GgufBackend::engine_load_failed(d.as_str())),
        }
    }

    /// The error of an engine that failed to load, its error written with `Debug`.
    pub fn engine_load_failed(debug_text: &str) -> (r: InferenceError)
        ensures
            is_backend_error(r, "Failed to load GGUF model: "@ + debug_text@),
    {
        InferenceError::BackendError(joined("Failed to load GGUF model: ", debug_text))
    }

    /// Decides which capability serves a request that names `requested`, if anything.
    pub fn determine_capability(&self, requested: Option<&str>) -> (r: Result<Capability, InferenceError>)
        ensures
            plan_view(r) == gguf_capability(self.model_config(), match requested { Some(s) => Some(s@), None => None }),
            r is Err ==> (r matches Err(e) && e is CapabilityNotSupported),
    {
        match requested {
            Some(name) => match Capability::from_str(name) {
                Ok(c) => {
                    if !has_capability(&self.config.capabilities, c) {
                        let mut s = String::from_str("Capability '");
                        s.append(name);
                        s.append("' is not supported by model '");
                        s.append(self.config.id.as_str());
                        s.append("'");
                        Err(InferenceError::CapabilityNotSupported(s))
                    } else {
                        Ok(c)
                    }
                },
                Err(_) => Err(InferenceError::CapabilityNotSupported(String::from_str(name))),
            },
            None => Ok(default_capability(&self.config.capabilities)),
        }
    }

    /// Decides how to serve a request that names `requested`, if anything: chat and
    /// embedding are served, other capabilities refused.
    pub fn plan_inference(&self, requested: Option<&str>) -> (r: Result<Capability, InferenceError>)
        ensures
            plan_view(r) == gguf_plan(self.model_config(), match requested { Some(s) => Some(s@), None => None }),
            r is Err ==> (r matches Err(e) && e is CapabilityNotSupported),
    {
        let c = self.determine_capability(requested)?;
        match c {
            Capability::Chat => Ok(c),
            Capability::Embedding => Ok(c),
            _ => Err(InferenceError::CapabilityNotSupported(c.to_string())),
        }
    }

    /// The chat answer carrying the generated text as its single finished choice.
    pub fn chat_completion(&self, generated: String, created: u64) -> (r: ChatResponse)
        ensures
            is_chat_reply(r, self.model_config().id, created),
            r.choices@.len() == 1,
            is_final_choice(r.choices@[0], generated@),
    {
        let mut choices = Vec::new();
        choices.push(final_choice(generated));
        chat_reply(self.config.id.as_str(), created, choices)
    }

    /// Plans a chat request for the engine: the prompt of its messages in the engine's
    /// template `t`, its token limit (64 unless named) and its time limit (the model's
    /// unless named). A request without messages or text is refused as `into_chat_messages`
    /// refuses it.
    pub fn infer_chat_plan(&self, t: PromptTemplate, input: RequestInput) -> (r: Result<ChatPlan, InferenceError>)
        ensures
            r is Err <==> chat_request_texts(input) is None,
            r matches Ok(p) ==> is_chat_plan(t, input, self.model_config().inference_timeout_secs, p),
            input.messages matches Some(m) && m@.len() == 0 ==> (r matches Err(e) && is_invalid_request(e,
                "messages array is empty, at least one message is required"@)),
            input.messages is None && input.text is None && input.input_text is None ==>
                (r matches Err(e) && is_invalid_request(e,
                    "No messages or string input found. Provide 'messages' array or a string 'input'."@)),
    {
        let max_tokens = input.chat_max_tokens();
        let timeout_secs = input.chat_timeout(self.config.inference_timeout_secs);
        let ghost original = input;
        let messages = input.into_chat_messages()?;
        let prompt = build_chat_prompt(t, &messages);
        assert(chat_request_texts(original) == Some(message_texts(messages@)));
        Ok(ChatPlan { prompt, max_tokens, timeout_secs })
    }

    /// Describes the model: the configuration's id, name, capabilities and metadata, on GGUF.
    pub fn get_model_info(&self) -> (r: ModelInfo)
        ensures
            r@ == info_of(self.model_config(), BackendType::Gguf),
    {
        model_info_for(&self.config, BackendType::Gguf)
    }

    /// The configured capabilities.
    pub fn capabilities(&self) -> (r: Vec<Capability>)
        ensures
            r@ == self.model_config().capabilities,
    {
        copy_vec(&self.config.capabilities)
    }

    /// The id of the configured model.
    pub fn model_id(&self) -> (r: &str)
        ensures
            r@ == self.model_config().id,
    {
        self.config.id.as_str()
    }

    /// The configured time limit of an inference, in seconds.
    pub fn inference_timeout_secs(&self) -> (r: u64)
        ensures
            r == self.model_config().inference_timeout_secs,
    {
        self.config.inference_timeout_secs
    }

    /// Whether the model is configured to run on a GPU.
    pub fn use_gpu(&self) -> (r: bool)
        ensures
            r == self.model_config().use_gpu,
    {
        self.config.use_gpu
    }

    /// The path of the model file.
    pub fn model_path(&self) -> (r: &std::path::PathBuf)
        ensures
            *r == self.model_config().path,
    {
        &self.config.path
    }
}

/// The GGUF backend serves only chat and embedding requests.
pub proof fn law_gguf_serves_chat_and_embedding(config: ModelConfigView, requested: Option<Seq<char>>)
    ensures
        gguf_plan(config, requested) matches Ok(c) ==> c == Capability::Chat || c == Capability::Embedding,
{
}

/// A named capability the GGUF model is not configured with is refused.
pub proof fn law_gguf_refuses_unconfigured(config: ModelConfigView, name: Seq<char>, c: Capability)
    requires
        parse_capability_spec(lowercase_of(name), name) == Ok::<Capability, Seq<char>>(c),
        !config.capabilities.contains(c),
    ensures
        gguf_plan(config, Some(name)) is Err,
{
}

/// Once an engine is stored, every later `ensure_engine` hands out that same engine, whether
/// or not the model file is still there: the engine is loaded at most once.
pub proof fn law_stored_engine_is_reused<E>(e: E, model_file_present: bool)
    ensures
        engine_plan(Some(e), model_file_present) == Some(Some(e)),
{
}

/// A load is asked for exactly when no engine is stored and the model file is there.
pub proof fn law_engine_loaded_only_when_absent<E>(stored: Option<E>, model_file_present: bool)
    ensures
        engine_plan(stored, model_file_present) == Some(None::<E>) <==> (stored is None && model_file_present),
{
}

/// Per-request sampling settings have no effect on a GGUF chat: the engine samples as it
/// was configured when loaded, and is handed only what `GgufBackend::infer_chat_plan`
/// gives, a prompt and a token limit. Those are fixed by the role and content texts of the
/// request's messages and by its `max_tokens`, so two requests that agree on these
/// (whatever temperature, `top_p` or `top_k` they carry) hand the engine the same prompt,
/// with the same template, and the same limit.
pub proof fn law_sampling_parameters_have_no_effect(
    t: PromptTemplate,
    default_secs: u64,
    a: RequestInput,
    b: RequestInput,
    plan_a: ChatPlan,
    plan_b: ChatPlan,
)
    requires
        chat_request_texts(a) == chat_request_texts(b),
        a.max_tokens == b.max_tokens,
        is_chat_plan(t, a, default_secs, plan_a),
        is_chat_plan(t, b, default_secs, plan_b),
    ensures
        plan_a.prompt@ == plan_b.prompt@,
        plan_a.max_tokens == plan_b.max_tokens,
{
    let ma = choose|m: Seq<ChatMessage>| chat_request_texts(a) == Some(message_texts(m)) && plan_a.prompt@ == chat_prompt(t, m);
    let mb = choose|m: Seq<ChatMessage>| chat_request_texts(b) == Some(message_texts(m)) && plan_b.prompt@ == chat_prompt(t, m);
    law_prompt_depends_only_on_texts(t, ma, mb);
}

/// The GGUF backend serves every request decided for chat or embedding with that very
/// capability, and refuses every other decided capability with its name; a refused decision
/// stays refused.
pub proof fn law_gguf_plan_serves_chat_and_embedding_requests(config: ModelConfigView, requested: Option<Seq<char>>)
    ensures
        gguf_capability(config, requested) == Ok::<Capability, Seq<char>>(Capability::Chat)
            ==> gguf_plan(config, requested) == Ok::<Capability, Seq<char>>(Capability::Chat),
        gguf_capability(config, requested) == Ok::<Capability, Seq<char>>(Capability::Embedding)
            ==> gguf_plan(config, requested) == Ok::<Capability, Seq<char>>(Capability::Embedding),
        gguf_capability(config, requested) matches Ok(c) ==> (c != Capability::Chat && c != Capability::Embedding
            ==> gguf_plan(config, requested) == Err::<Capability, Seq<char>>(capability_name(c))),
        gguf_capability(config, requested) matches Err(m) ==> gguf_plan(config, requested) == Err::<Capability, Seq<char>>(m),
{
}

/// A request naming embedding (in any case) on a GGUF model that offers embedding is served
/// as an embedding request, and one naming chat on a model that offers chat as a chat request.
pub proof fn law_gguf_serves_named_chat_and_embedding(config: ModelConfigView, name: Seq<char>)
    ensures
        lowercase_of(name) == "embedding"@ && config.capabilities.contains(Capability::Embedding)
            ==> gguf_plan(config, Some(name)) == Ok::<Capability, Seq<char>>(Capability::Embedding),
        lowercase_of(name) == "chat"@ && config.capabilities.contains(Capability::Chat)
            ==> gguf_plan(config, Some(name)) == Ok::<Capability, Seq<char>>(Capability::Chat),
{
    reveal_strlit("chat");
    reveal_strlit("embedding");
    assert("embedding"@ != "chat"@) by {
        assert("embedding"@[0] != "chat"@[0]);
    }
}

/// A request that names no capability on a GGUF model is served by chat whenever the model
/// offers chat, and by embedding when it offers embedding but not chat.
pub proof fn law_gguf_unnamed_request_prefers_chat(config: ModelConfigView)
    ensures
        config.capabilities.contains(Capability::Chat)
            ==> gguf_plan(config, None) == Ok::<Capability, Seq<char>>(Capability::Chat),
        !config.capabilities.contains(Capability::Chat) && config.capabilities.contains(Capability::Embedding)
            ==> gguf_plan(config, None) == Ok::<Capability, Seq<char>>(Capability::Embedding),
{
    crate::backends::law_default_capability_prefers_chat(config.capabilities);
}

/// The engine is handed exactly the token limit a chat request names (64 when it names
/// none), and exactly the time limit it names (the model's own when it names none).
pub proof fn law_chat_plan_passes_limits_through(t: PromptTemplate, input: RequestInput, default_secs: u64, p: ChatPlan)
    requires
        is_chat_plan(t, input, default_secs, p),
    ensures
        input.max_tokens matches Some(n) ==> (n <= usize::MAX ==> p.max_tokens == n),
        input.max_tokens is None ==> p.max_tokens == 64,
        input.timeout matches Some(s) ==> p.timeout_secs == s,
        input.timeout is None ==> p.timeout_secs == default_secs,
{
}

} // verus!
