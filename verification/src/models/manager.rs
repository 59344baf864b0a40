//! The registry of loaded models: which models are loaded, from which configuration,
//! and which one serves requests that name no loaded model.
use crate::backends::{info_of, model_info_for, BackendType, ModelInfo, ModelInfoView};
use crate::config::{copy_vec, ModelConfig, ModelConfigView};
use crate::inference::{Capability, InferenceError};
use dashmap::DashMap;
use std::collections::HashMap;
use vstd::prelude::*;

verus! {

/// `dashmap::DashMap`, an opaque concurrent map whose entries are named by
/// `loaded_entries` and `config_entries`.
#[verifier::external_type_specification]
#[verifier::external_body]
#[verifier::reject_recursive_types(K)]
#[verifier::reject_recursive_types(V)]
#[verifier::reject_recursive_types(S)]
pub struct ExDashMap<K, V, S>(DashMap<K, V, S>);

/// What a loaded model is registered with.
#[derive(Debug, Clone)]
pub struct LoadedModel {
    pub info: ModelInfo,
    pub backend_type: BackendType,
    pub capabilities: Vec<Capability>,
    pub metadata: HashMap<String, String>,
}

/// The content of a registry entry as plain values.
#[verifier::ext_equal]
pub struct LoadedModelView {
    pub info: ModelInfoView,
    pub backend_type: BackendType,
    pub capabilities: Seq<Capability>,
    pub metadata: Map<String, String>,
}

impl View for LoadedModel {
    type V = LoadedModelView;

    open spec fn view(&self) -> LoadedModelView {
        LoadedModelView {
            info: self.info@,
            backend_type: self.backend_type,
            capabilities: self.capabilities@,
            metadata: self.metadata@,
        }
    }
}

/// The registry entry of a model loaded from `config`.
pub open spec fn entry_of(config: ModelConfigView) -> LoadedModelView {
    LoadedModelView {
        info: info_of(config, config.backend),
        backend_type: config.backend,
        capabilities: config.capabilities,
        metadata: config.metadata,
    }
}

/// The entries of the map of loaded models, by model id.
pub uninterp spec fn loaded_entries(m: DashMap<String, LoadedModel>) -> Map<Seq<char>, LoadedModel>;

/// The entries of the map of model configurations, by model id.
pub uninterp spec fn config_entries(m: DashMap<String, ModelConfig>) -> Map<Seq<char>, ModelConfig>;

/// Calls `DashMap::new`: the map is empty.
#[verifier::external_body]
fn new_loaded_map() -> (r: DashMap<String, LoadedModel>)
    ensures
        loaded_entries(r).dom() == Set::<Seq<char>>::empty(),
{
    DashMap::new()
}

/// Calls `DashMap::insert`: the key now maps to the value, other keys are untouched.
#[verifier::external_body]
fn insert_loaded(m: &mut DashMap<String, LoadedModel>, key: String, value: LoadedModel)
    ensures
        loaded_entries(*final(m)) == loaded_entries(*old(m)).insert(key@, value),
{
    m.insert(key, value);
}

/// Calls `DashMap::remove`: the key is gone, and its entry is handed back if it was there.
#[verifier::external_body]
fn remove_loaded(m: &mut DashMap<String, LoadedModel>, key: &str) -> (r: Option<(String, LoadedModel)>)
    ensures
        loaded_entries(*final(m)) == loaded_entries(*old(m)).remove(key@),
        r is Some <==> loaded_entries(*old(m)).contains_key(key@),
        r matches Some(p) ==> p.0@ == key@ && p.1 == loaded_entries(*old(m))[key@],
{
    m.remove(key)
}

/// Calls `DashMap::contains_key`.
#[verifier::external_body]
fn contains_loaded(m: &DashMap<String, LoadedModel>, key: &str) -> (r: bool)
    ensures
        r == loaded_entries(*m).contains_key(key@),
{
    m.contains_key(key)
}

/// Calls `DashMap::get` and clones the entry found; the clone has the same content.
#[verifier::external_body]
fn get_loaded(m: &DashMap<String, LoadedModel>, key: &str) -> (r: Option<LoadedModel>)
    ensures
        r is Some <==> loaded_entries(*m).contains_key(key@),
        r matches Some(v) ==> v@ == loaded_entries(*m)[key@]@,
{
    m.get(key).map(|e| e.value().clone())
}

/// `entry` is a key of `entries` with a copy of its value.
pub open spec fn is_listed(entries: Map<Seq<char>, LoadedModel>, entry: (String, LoadedModel)) -> bool {
    entries.contains_key(entry.0@) && entry.1@ == entries[entry.0@]@
}

/// Calls `DashMap::iter` and clones each entry: every entry comes out once, in an order
/// the source leaves open.
#[verifier::external_body]
fn list_loaded(m: &DashMap<String, LoadedModel>) -> (r: Vec<(String, LoadedModel)>)
    ensures
        forall|i: int| 0 <= i < r@.len() ==> #[trigger] is_listed(loaded_entries(*m), r@[i]),
        forall|i: int, j: int| 0 <= i < r@.len() && 0 <= j < r@.len() && i != j ==> #[trigger] r@[i].0@ != #[trigger] r@[j].0@,
        forall|k: Seq<char>| #[trigger] loaded_entries(*m).contains_key(k) ==> exists|i: int| 0 <= i < r@.len() && r@[i].0@ == k,
{
    m.iter().map(|e| (e.key().clone(), e.value().clone())).collect()
}

/// Calls `DashMap::new`: the map is empty.
#[verifier::external_body]
fn new_config_map() -> (r: DashMap<String, ModelConfig>)
    ensures
        config_entries(r).dom() == Set::<Seq<char>>::empty(),
{
    DashMap::new()
}

/// Calls `DashMap::insert`: the key now maps to the value, other keys are untouched.
#[verifier::external_body]
fn insert_config(m: &mut DashMap<String, ModelConfig>, key: String, value: ModelConfig)
    ensures
        config_entries(*final(m)) == config_entries(*old(m)).insert(key@, value),
{
    m.insert(key, value);
}

/// Calls `DashMap::remove`: the key is gone, and its entry is handed back if it was there.
#[verifier::external_body]
fn remove_config(m: &mut DashMap<String, ModelConfig>, key: &str) -> (r: Option<(String, ModelConfig)>)
    ensures
        config_entries(*final(m)) == config_entries(*old(m)).remove(key@),
        r is Some <==> config_entries(*old(m)).contains_key(key@),
        r matches Some(p) ==> p.0@ == key@ && p.1 == config_entries(*old(m))[key@],
{
    m.remove(key)
}

/// The registry of loaded models.
pub struct ModelManager {
    backends: DashMap<String, LoadedModel>,
    model_configs: DashMap<String, ModelConfig>,
    default_model: Option<String>,
}

/// `caps` offers the wanted capability; anything is wanted when none is named.
pub open spec fn offers(wanted: Option<Capability>, caps: Seq<Capability>) -> bool {
    match wanted {
        Some(c) => caps.contains(c),
        None => true,
    }
}

/// `e` is a model-not-found error with exactly this message.
pub open spec fn is_not_found(e: InferenceError, msg: Seq<char>) -> bool {
    e matches InferenceError::ModelNotFound(s) && s@ == msg
}

/// `e` is a backend error with exactly this message.
pub open spec fn is_backend_failure(e: InferenceError, msg: Seq<char>) -> bool {
    e matches InferenceError::BackendError(s) && s@ == msg
}

impl ModelManager {
    /// The configurations of the loaded models, by id.
    pub closed spec fn configs(&self) -> Map<Seq<char>, ModelConfigView> {
        config_entries(self.model_configs).map_values(|c: ModelConfig| c@)
    }

    /// The id of the default model, if one was chosen.
    pub closed spec fn default_id(&self) -> Option<Seq<char>> {
        match self.default_model {
            Some(s) => Some(s@),
            None => None,
        }
    }

    /// The registry is consistent: finitely many models, each registered under its own
    /// id with the entry its configuration gives.
    pub closed spec fn wf(&self) -> bool {
        &&& loaded_entries(self.backends).dom().finite()
        &&& loaded_entries(self.backends).dom() == config_entries(self.model_configs).dom()
        &&& forall|k: Seq<char>| #[trigger] config_entries(self.model_configs).contains_key(k) ==> {
            &&& config_entries(self.model_configs)[k].id@ == k
            &&& loaded_entries(self.backends)[k]@ == entry_of(config_entries(self.model_configs)[k]@)
        }
    }

    /// An empty registry with no default model.
    pub fn new() -> (r: Self)
        ensures
            r.wf(),
            r.configs() == Map::<Seq<char>, ModelConfigView>::empty(),
            r.default_id() is None,
    {
        let r = ModelManager { backends: new_loaded_map(), model_configs: new_config_map(), default_model: None };
        assert(r.configs() =~= Map::<Seq<char>, ModelConfigView>::empty());
        r
    }

    /// Whether a model with this id is loaded.
    pub fn is_model_loaded(&self, model_id: &str) -> (r: bool)
        requires
            self.wf(),
        ensures
            r == self.configs().contains_key(model_id@),
    {
        contains_loaded(&self.backends, model_id)
    }

    /// Decides whether `config` can be loaded and on which backend: a model with the same id
    /// must not be loaded, and its backend must be ONNX or GGUF.
    pub fn plan_load(&self, config: &ModelConfig) -> (r: Result<BackendType, InferenceError>)
        requires
            self.wf(),
        ensures
            self.configs().contains_key(config.id@) ==> (r matches Err(e)
                && is_backend_failure(e, "Model "@ + config.id@ + " is already loaded"@)),
            !self.configs().contains_key(config.id@) ==> match config.backend {
                BackendType::Onnx => r == Ok::<BackendType, InferenceError>(BackendType::Onnx),
                BackendType::Gguf => r == Ok::<BackendType, InferenceError>(BackendType::Gguf),
                BackendType::Candle => r matches Err(e) && is_backend_failure(e, "Candle backend not yet implemented"@),
                BackendType::TensorRT => r matches Err(e) && is_backend_failure(e, "TensorRT backend not yet implemented"@),
            },
    {
        if contains_loaded(&self.backends, config.id.as_str()) {
            let mut s = String::from_str("Model ");
            s.append(config.id.as_str());
            s.append(" is already loaded");
            return Err(InferenceError::BackendError(s));
        }
        match config.backend {
            BackendType::Onnx => Ok(BackendType::Onnx),
            BackendType::Gguf => Ok(BackendType::Gguf),
            BackendType::Candle => Err(InferenceError::BackendError(String::from_str("Candle backend not yet implemented"))),
            BackendType::TensorRT => Err(InferenceError::BackendError(String::from_str("TensorRT backend not yet implemented"))),
        }
    }

    /// Records the outcome of bringing up the backend for `config`: when the backend warmed
    /// up, the model is registered under its id (replacing any entry with that id) and its
    /// description returned; otherwise the warm-up error is returned and nothing changes.
    pub fn finish_load(&mut self, config: ModelConfig, warmed_up: Result<(), InferenceError>) -> (r: Result<ModelInfo, InferenceError>)
        requires
            old(self).wf(),
        ensures
            final(self).wf(),
            final(self).default_id() == old(self).default_id(),
            match warmed_up {
                Err(e0) => (r matches Err(e) && e == e0) && final(self).configs() == old(self).configs(),
                Ok(_) => (r matches Ok(info) && info@ == info_of(config@, config.backend))
                    && final(self).configs() == old(self).configs().insert(config.id@, config@),
            },
    {
        match warmed_up {
            Err(e) => Err(e),
            Ok(()) => {
                let entry = LoadedModel {
                    info: model_info_for(&config, config.backend),
                    backend_type: config.backend,
                    capabilities: copy_vec(&config.capabilities),
                    metadata: config.metadata.clone(),
                };
                let info = model_info_for(&config, config.backend);
                let ghost cv = config@;
                insert_loaded(&mut self.backends, config.id.clone(), entry);
                insert_config(&mut self.model_configs, config.id.clone(), config);
                assert(self.configs() =~= old(self).configs().insert(cv.id, cv));
                Ok(info)
            },
        }
    }

    /// Removes a loaded model and its configuration; a model that is not loaded is not found.
    /// The default model is left as it is.
    pub fn unload_model(&mut self, model_id: &str) -> (r: Result<(), InferenceError>)
        requires
            old(self).wf(),
        ensures
            final(self).wf(),
            final(self).default_id() == old(self).default_id(),
            final(self).configs() == old(self).configs().remove(model_id@),
            old(self).configs().contains_key(model_id@) ==> r is Ok,
            !old(self).configs().contains_key(model_id@) ==> (r matches Err(e)
                && is_not_found(e, "Model "@ + model_id@ + " not found"@)),
    {
        match remove_loaded(&mut self.backends, model_id) {
            Some(_) => {
                let _ = remove_config(&mut self.model_configs, model_id);
                assert(loaded_entries(self.backends).dom() =~= loaded_entries(old(self).backends).dom().remove(model_id@));
                assert(config_entries(self.model_configs).dom() =~= config_entries(old(self).model_configs).dom().remove(model_id@));
                assert(self.configs() =~= old(self).configs().remove(model_id@));
                Ok(())
            },
            None => {
                assert(loaded_entries(self.backends) =~= loaded_entries(old(self).backends));
                assert(self.configs() =~= old(self).configs().remove(model_id@));
                let mut s = String::from_str("Model ");
                s.append(model_id);
                s.append(" not found");
                Err(InferenceError::ModelNotFound(s))
            },
        }
    }

    /// The description of a loaded model.
    pub fn get_model_info(&self, model_id: &str) -> (r: Option<ModelInfo>)
        requires
            self.wf(),
        ensures
            r is Some <==> self.configs().contains_key(model_id@),
            r matches Some(info) ==> info@ == info_of(self.configs()[model_id@], self.configs()[model_id@].backend),
            r matches Some(info) ==> info.id@ == model_id@
                && info.name@ == self.configs()[model_id@].name
                && info.backend == self.configs()[model_id@].backend
                && info.capabilities@ == self.configs()[model_id@].capabilities,
    {
        match get_loaded(&self.backends, model_id) {
            Some(entry) => Some(entry.info),
            None => None,
        }
    }

    /// The descriptions of all loaded models, each once, in no particular order.
    pub fn list_models(&self) -> (r: Vec<ModelInfo>)
        requires
            self.wf(),
        ensures
            forall|i: int| #![trigger r@[i]] 0 <= i < r@.len() ==> self.configs().contains_key(r@[i].id@)
                && r@[i]@ == info_of(self.configs()[r@[i].id@], self.configs()[r@[i].id@].backend),
            forall|i: int, j: int| 0 <= i < r@.len() && 0 <= j < r@.len() && i != j ==> #[trigger] r@[i].id@ != #[trigger] r@[j].id@,
            forall|k: Seq<char>| #[trigger] self.configs().contains_key(k) ==> exists|i: int| 0 <= i < r@.len() && r@[i].id@ == k,
    {
        self.models_where(None)
    }

    /// The descriptions of the loaded models that offer `capability`, each once, in no
    /// particular order.
    pub fn get_models_by_capability(&self, capability: Capability) -> (r: Vec<ModelInfo>)
        requires
            self.wf(),
        ensures
            forall|i: int| #![trigger r@[i]] 0 <= i < r@.len() ==> self.configs().contains_key(r@[i].id@)
                && self.configs()[r@[i].id@].capabilities.contains(capability)
                && r@[i]@ == info_of(self.configs()[r@[i].id@], self.configs()[r@[i].id@].backend),
            forall|i: int, j: int| 0 <= i < r@.len() && 0 <= j < r@.len() && i != j ==> #[trigger] r@[i].id@ != #[trigger] r@[j].id@,
            forall|k: Seq<char>| #[trigger] self.configs().contains_key(k) && self.configs()[k].capabilities.contains(capability)
                ==> exists|i: int| 0 <= i < r@.len() && r@[i].id@ == k,
    {
        self.models_where(Some(capability))
    }

    /// The descriptions of the loaded models that offer `wanted` (all of them when `None`).
    fn models_where(&self, wanted: Option<Capability>) -> (r: Vec<ModelInfo>)
        requires
            self.wf(),
        ensures
            forall|i: int| #![trigger r@[i]] 0 <= i < r@.len() ==> self.configs().contains_key(r@[i].id@)
                && offers(wanted, self.configs()[r@[i].id@].capabilities)
                && r@[i]@ == info_of(self.configs()[r@[i].id@], self.configs()[r@[i].id@].backend),
            forall|i: int, j: int| 0 <= i < r@.len() && 0 <= j < r@.len() && i != j ==> #[trigger] r@[i].id@ != #[trigger] r@[j].id@,
            forall|k: Seq<char>| #[trigger] self.configs().contains_key(k)
                && offers(wanted, self.configs()[k].capabilities)
                ==> exists|i: int| 0 <= i < r@.len() && r@[i].id@ == k,
    {
        let all = list_loaded(&self.backends);
        let n = all.len();
        let mut out: Vec<ModelInfo> = Vec::new();
        let ghost mut picked: Seq<int> = Seq::empty();
        for i in 0..n
            invariant
                n == all@.len(),
                self.wf(),
                forall|q: int| 0 <= q < all@.len() ==> #[trigger] is_listed(loaded_entries(self.backends), all@[q]),
                forall|p: int, q: int| 0 <= p < all@.len() && 0 <= q < all@.len() && p != q ==> #[trigger] all@[p].0@ != #[trigger] all@[q].0@,
                out@.len() == picked.len(),
                forall|x: int| 0 <= x < picked.len() ==> 0 <= #[trigger] picked[x] < i
                    && out@[x].id@ == all@[picked[x]].0@
                    && out@[x]@ == all@[picked[x]].1@.info,
                forall|x: int, y: int| 0 <= x < y < picked.len() ==> #[trigger] picked[x] < #[trigger] picked[y],
                forall|x: int| 0 <= x < picked.len() ==> offers(wanted, all@[#[trigger] picked[x]].1@.capabilities),
                forall|q: int| 0 <= q < i && offers(wanted, #[trigger] all@[q].1@.capabilities)
                    ==> exists|x: int| 0 <= x < picked.len() && picked[x] == q,
        {
            let ghost prev = picked;
            let keep = match wanted {
                Some(c) => crate::backends::has_capability(&all[i].1.capabilities, c),
                None => true,
            };
            if keep {
                let info = copy_info(&all[i].1.info);
                proof {
                    let k = all@[i as int].0@;
                    assert(is_listed(loaded_entries(self.backends), all@[i as int]));
                    assert(config_entries(self.model_configs).contains_key(k));
                }
                out.push(info);
                proof { picked = picked.push(i as int); }
            }
            proof {
                assert forall|q: int| 0 <= q < i + 1 && offers(wanted, #[trigger] all@[q].1@.capabilities)
                    implies exists|x: int| 0 <= x < picked.len() && picked[x] == q by {
                    if q < i {
                        let x = choose|x: int| 0 <= x < prev.len() && prev[x] == q;
                        assert(picked[x] == q);
                    } else {
                        assert(keep);
                        assert(picked[picked.len() - 1] == q);
                    }
                }
            }
        }
        proof {
            assert forall|x: int| #![trigger out@[x]] 0 <= x < out@.len() implies self.configs().contains_key(out@[x].id@)
                && offers(wanted, self.configs()[out@[x].id@].capabilities)
                && out@[x]@ == info_of(self.configs()[out@[x].id@], self.configs()[out@[x].id@].backend) by {
                let k = all@[picked[x]].0@;
                assert(is_listed(loaded_entries(self.backends), all@[picked[x]]));
                assert(config_entries(self.model_configs).contains_key(k));
                assert(self.configs()[k] == config_entries(self.model_configs)[k]@);
                assert(out@[x].id@ == k);
            }
            assert forall|x: int, y: int| 0 <= x < out@.len() && 0 <= y < out@.len() && x != y implies #[trigger] out@[x].id@ != #[trigger] out@[y].id@ by {
                if x < y {
                    assert(picked[x] < picked[y]);
                } else {
                    assert(picked[y] < picked[x]);
                }
            }
            assert forall|k: Seq<char>| #[trigger] self.configs().contains_key(k)
                && offers(wanted, self.configs()[k].capabilities)
                implies exists|x: int| 0 <= x < out@.len() && out@[x].id@ == k by {
                assert(loaded_entries(self.backends).contains_key(k));
                let q = choose|q: int| 0 <= q < all@.len() && all@[q].0@ == k;
                assert(is_listed(loaded_entries(self.backends), all@[q]));
                assert(config_entries(self.model_configs).contains_key(k));
                assert(all@[q].1@.capabilities == self.configs()[k].capabilities);
                let x = choose|x: int| 0 <= x < picked.len() && picked[x] == q;
                assert(out@[x].id@ == k);
            }
        }
        out
    }

    /// Chooses the model that serves requests naming no loaded model; it must be loaded.
    pub fn set_default_model(&mut self, model_id: &str) -> (r: Result<(), InferenceError>)
        requires
            old(self).wf(),
        ensures
            final(self).wf(),
            final(self).configs() == old(self).configs(),
            old(self).configs().contains_key(model_id@) ==> r is Ok && final(self).default_id() == Some(model_id@),
            !old(self).configs().contains_key(model_id@) ==> final(self).default_id() == old(self).default_id()
                && (r matches Err(e) && is_not_found(e, "Model "@ + model_id@ + " not found"@)),
    {
        if !contains_loaded(&self.backends, model_id) {
            let mut s = String::from_str("Model ");
            s.append(model_id);
            s.append(" not found");
            return Err(InferenceError::ModelNotFound(s));
        }
        self.default_model = Some(String::from_str(model_id));
        Ok(())
    }

    /// The id of the default model, if one was chosen.
    pub fn get_default_model(&self) -> (r: Option<String>)
        ensures
            match r { Some(s) => self.default_id() == Some(s@), None => self.default_id() is None },
    {
        match &self.default_model {
            Some(s) => Some(s.clone()),
            None => None,
        }
    }

    /// Where an inference for `model_id` goes: to that model, which must be loaded;
    /// otherwise the error names the id alone.
    pub fn inference_target(&self, model_id: &str) -> (r: Result<String, InferenceError>)
        requires
            self.wf(),
        ensures
            self.configs().contains_key(model_id@) ==> (r matches Ok(t) && t@ == model_id@),
            !self.configs().contains_key(model_id@) ==> (r matches Err(e) && is_not_found(e, model_id@)),
    {
        if contains_loaded(&self.backends, model_id) {
            Ok(String::from_str(model_id))
        } else {
            Err(InferenceError::ModelNotFound(String::from_str(model_id)))
        }
    }
}

/// A copy of a model description with the same content.
pub fn copy_info(info: &ModelInfo) -> (r: ModelInfo)
    ensures
        r@ == info@,
{
    ModelInfo {
        id: info.id.clone(),
        name: info.name.clone(),
        backend: info.backend,
        capabilities: copy_vec(&info.capabilities),
        metadata: info.metadata.clone(),
    }
}

impl Default for ModelManager {
    fn default() -> (r: Self)
        ensures
            r.wf(),
            r.configs() == Map::<Seq<char>, ModelConfigView>::empty(),
            r.default_id() is None,
    {
        ModelManager::new()
    }
}

/// A successful load registers the model under its id, described by its configuration, and
/// leaves every other model as it was.
pub proof fn law_load_registers_model(before: ModelManager, after: ModelManager, config: ModelConfigView)
    requires
        after.configs() == before.configs().insert(config.id, config),
    ensures
        after.configs().contains_key(config.id),
        info_of(after.configs()[config.id], after.configs()[config.id].backend) == info_of(config, config.backend),
        forall|k: Seq<char>| k != config.id ==> (#[trigger] after.configs().contains_key(k) == before.configs().contains_key(k))
            && (before.configs().contains_key(k) ==> after.configs()[k] == before.configs()[k]),
{
}

/// Unloading a model that a load registered, when it was not loaded before, gives back the
/// registry as it was before the load.
pub proof fn law_unload_undoes_load(before: ModelManager, loaded: ModelManager, unloaded: ModelManager, config: ModelConfigView)
    requires
        before.wf(),
        !before.configs().contains_key(config.id),
        loaded.configs() == before.configs().insert(config.id, config),
        unloaded.configs() == loaded.configs().remove(config.id),
    ensures
        unloaded.configs() == before.configs(),
{
    assert(unloaded.configs() =~= before.configs());
}

/// After a model is unloaded it is no longer loaded, so requests for it are not routed to it.
pub proof fn law_unloaded_model_is_gone(before: ModelManager, after: ModelManager, model_id: Seq<char>)
    requires
        after.configs() == before.configs().remove(model_id),
    ensures
        !after.configs().contains_key(model_id),
{
}

} // verus!
