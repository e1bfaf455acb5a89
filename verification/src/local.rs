//! The backend that runs models in an embedding engine inside the process.
//!
//! The backend does not load or run a model itself. For each request it says
//! what its caller has to do next (load the model, or run the one that is
//! loaded) and is told how that went; which models a worker has loaded is
//! kept in that worker's [`ModelCache`].

use std::collections::HashMap;
use vstd::prelude::*;
use crate::catalog::{find_by_id, find_id, has_unique_ids, lemma_find_id_of_member, model_specs};
use crate::error::EmbedError;
use crate::model::{Input, InputType, ModelInfo, ModelSpec};
use crate::shape::{flatten, is_layout_of, rows_of, EmbedResult};
use crate::text::{ascii_lowercase, eq_ignore_ascii_case, str_eq};

verus! {

/// The numeric identity of the backend.
pub const EMBED_METHOD_FASTEMBED_ID: i32 = 0;

/// Runs a model name through the engine's name parser,
/// `fastembed::EmbeddingModel::from_str`, and hands back the engine's own
/// name for the model that the parser found, as `EmbeddingModel`'s `Display`
/// writes it, or `None` where the parser found none.
///
/// The contract is not proved; it says what the engine's source shows. The
/// parser goes through the engine's list of models and takes the one whose
/// name is the given name but for the case of ASCII letters. So a name that
/// comes back is the given name in that sense. The list holds `AllMiniLML6V2`
/// and `BGELargeENV15`, and no other model whose name differs from one of
/// these in case alone, so each of the two is found under every spelling of
/// its name, and comes back spelled as here.
#[verifier::external_body]
fn canonical_engine_name(name: &str) -> (canonical: Option<String>)
    ensures
        match canonical {
            Some(c) => {
                &&& eq_ignore_ascii_case(c@, name@)
                &&& eq_ignore_ascii_case(name@, "AllMiniLML6V2"@) ==> c@ == "AllMiniLML6V2"@
                &&& eq_ignore_ascii_case(name@, "BGELargeENV15"@) ==> c@ == "BGELargeENV15"@
            },
            None => {
                &&& !eq_ignore_ascii_case(name@, "AllMiniLML6V2"@)
                &&& !eq_ignore_ascii_case(name@, "BGELargeENV15"@)
            },
        },
{
    match <::fastembed::EmbeddingModel as std::str::FromStr>::from_str(name) {
        Ok(model) => Some(model.to_string()),
        Err(_) => None,
    }
}

/// One line of the table between the catalog and the engine: a model of the
/// catalog and the engine's name for it.
#[derive(Debug, Clone, Copy)]
pub struct ModelDef {
    pub model: ModelInfo,
    pub embedding_model: &'static str,
}

/// What a [`ModelDef`] says, as mathematical values.
pub struct ModelDefSpec {
    pub model: ModelSpec,
    pub embedding_model: Seq<char>,
}

impl View for ModelDef {
    type V = ModelDefSpec;

    open spec fn view(&self) -> ModelDefSpec {
        ModelDefSpec { model: self.model@, embedding_model: self.embedding_model@ }
    }
}

/// Where a worker stands with one model.
#[derive(Debug, Clone, Copy, PartialEq, Eq, Structural)]
pub enum SlotState {
    Uninitialized,
    Initializing,
    Ready,
}

/// The models that one worker has loaded, by model id. It belongs to the
/// worker that made it and is never shared.
pub struct ModelCache {
    slots: HashMap<i32, SlotState>,
}

impl View for ModelCache {
    type V = Map<i32, SlotState>;

    /// The state of every model id; an id that was never asked for is
    /// uninitialized.
    closed spec fn view(&self) -> Map<i32, SlotState> {
        Map::total(
            |id: i32|
                if self.slots@.contains_key(id) {
                    self.slots@[id]
                } else {
                    SlotState::Uninitialized
                },
        )
    }
}

impl ModelCache {
    /// A cache in which no model is loaded.
    pub fn new() -> (cache: Self)
        ensures
            cache@ == Map::total(|id: i32| SlotState::Uninitialized),
    {
        let cache = ModelCache { slots: HashMap::new() };
        assert(cache@ =~= Map::total(|id: i32| SlotState::Uninitialized));
        cache
    }

    /// Where the worker stands with the model.
    pub fn state(&self, model_id: i32) -> (state: SlotState)
        ensures
            state == self@[model_id],
    {
        broadcast use vstd::std_specs::hash::group_hash_axioms;

        match self.slots.get(&model_id) {
            Some(state) => *state,
            None => SlotState::Uninitialized,
        }
    }

    fn set(&mut self, model_id: i32, state: SlotState)
        ensures
            final(self)@ == old(self)@.insert(model_id, state),
    {
        broadcast use vstd::std_specs::hash::group_hash_axioms;

        self.slots.insert(model_id, state);
        assert(self@ =~= old(self)@.insert(model_id, state));
    }
}

/// What the caller does next for a request that was accepted.
#[derive(Debug, Clone, Copy)]
pub enum LocalStep {
    /// Load the model and report with [`FastEmbedder::load_finished`]; if that
    /// succeeds, run it.
    Load(ModelDef),
    /// Run the model that the worker has loaded.
    Run,
}

/// The backend for the engine inside the process.
#[derive(Debug, Clone, Copy)]
pub struct FastEmbedder;

impl FastEmbedder {
    /// The models of the backend.
    pub open spec fn catalog() -> Seq<ModelSpec> {
        seq![
            ModelSpec { id: 0, name: "AllMiniLML6V2"@, supported_inputs: seq![InputType::Text] },
            ModelSpec { id: 1, name: "BGELargeENV15"@, supported_inputs: seq![InputType::Text] },
        ]
    }

    /// The table between the catalog and the engine, by model id.
    pub open spec fn model_def(model_id: i32) -> Option<ModelDefSpec> {
        if model_id == 0 {
            Some(ModelDefSpec { model: Self::catalog()[0], embedding_model: "AllMiniLML6V2"@ })
        } else if model_id == 1 {
            Some(ModelDefSpec { model: Self::catalog()[1], embedding_model: "BGELargeENV15"@ })
        } else {
            None
        }
    }

    /// The table between the catalog and the engine, by the engine's name
    /// for a model.
    pub open spec fn model_for_engine(embedding_model: Seq<char>) -> Option<ModelSpec> {
        if embedding_model == "AllMiniLML6V2"@ {
            Some(Self::catalog()[0])
        } else if embedding_model == "BGELargeENV15"@ {
            Some(Self::catalog()[1])
        } else {
            None
        }
    }

    /// The model that a name stands for: the model of the table whose name in
    /// the engine is the given name but for the case of ASCII letters.
    pub open spec fn model_named(model_name: Seq<char>) -> Option<ModelSpec> {
        if eq_ignore_ascii_case(model_name, "AllMiniLML6V2"@) {
            Some(Self::catalog()[0])
        } else if eq_ignore_ascii_case(model_name, "BGELargeENV15"@) {
            Some(Self::catalog()[1])
        } else {
            None
        }
    }

    /// Whether the backend has a model with this id that accepts this
    /// modality.
    pub open spec fn supports(model_id: i32, input_type: InputType) -> bool {
        match find_id(Self::catalog(), model_id) {
            Some(m) => m.supports(input_type),
            None => false,
        }
    }

    /// The models of the backend.
    pub fn models() -> (models: Vec<ModelInfo>)
        ensures
            model_specs(models@) == Self::catalog(),
    {
        let mut models: Vec<ModelInfo> = Vec::new();
        models.push(ModelInfo::new(0, "AllMiniLML6V2", &[InputType::Text]));
        models.push(ModelInfo::new(1, "BGELargeENV15", &[InputType::Text]));
        proof {
            assert(models@[0]@.supported_inputs =~= seq![InputType::Text]);
            assert(models@[1]@.supported_inputs =~= seq![InputType::Text]);
            assert(model_specs(models@) =~= Self::catalog());
        }
        models
    }

    /// The line of the table for a model id.
    pub fn get_model_def(model_id: i32) -> (def: Option<ModelDef>)
        ensures
            match def {
                Some(d) => Self::model_def(model_id) == Some(d@),
                None => Self::model_def(model_id) is None,
            },
    {
        let models = Self::models();
        proof {
            let specs = model_specs(models@);
            assert(specs.len() == models@.len());
            assert(specs[0] == models@[0]@);
            assert(specs[1] == models@[1]@);
        }
        match model_id {
            0 => Some(ModelDef { model: models[0], embedding_model: "AllMiniLML6V2" }),
            1 => Some(ModelDef { model: models[1], embedding_model: "BGELargeENV15" }),
            _ => None,
        }
    }

    /// The directory in which the engine keeps the files of its models.
    pub fn cache_dir() -> (dir: &'static str)
        ensures
            dir@ == "./fastembed_models"@,
    {
        "./fastembed_models"
    }

    /// The backend's numeric identity.
    pub fn method_id(&self) -> (id: i32)
        ensures
            id == EMBED_METHOD_FASTEMBED_ID,
    {
        EMBED_METHOD_FASTEMBED_ID
    }

    /// The backend's name.
    pub fn method_name(&self) -> (name: &'static str)
        ensures
            name@ == "fastembed"@,
    {
        "fastembed"
    }

    /// The model that a name stands for. The name goes through the engine's
    /// name parser, and the model that the engine makes of it is looked up in
    /// the table.
    pub fn get_model(&self, model_name: &str) -> (found: Option<ModelInfo>)
        ensures
            match found {
                Some(m) => Self::model_named(model_name@) == Some(m@),
                None => Self::model_named(model_name@) is None,
            },
    {
        match canonical_engine_name(model_name) {
            None => None,
            Some(parsed) => Self::model_for_engine_name(parsed.as_str()),
        }
    }

    /// The model of the catalog that the engine knows under the given name.
    pub fn model_for_engine_name(embedding_model: &str) -> (found: Option<ModelInfo>)
        ensures
            match found {
                Some(m) => Self::model_for_engine(embedding_model@) == Some(m@),
                None => Self::model_for_engine(embedding_model@) is None,
            },
    {
        let mut model_id: i32 = 0;
        while model_id < 2
            invariant
                0 <= model_id <= 2,
                forall|id: i32|
                    0 <= id < model_id ==> (#[trigger] Self::model_def(id)).unwrap().embedding_model
                        != embedding_model@,
            decreases 2 - model_id,
        {
            if let Some(def) = Self::get_model_def(model_id) {
                if str_eq(def.embedding_model, embedding_model) {
                    assert(model_id == 1 ==> Self::model_def(0).unwrap().embedding_model
                        != embedding_model@);
                    return Some(def.model);
                }
            }
            model_id += 1;
        }
        assert(Self::model_def(0).unwrap().embedding_model != embedding_model@);
        assert(Self::model_def(1).unwrap().embedding_model != embedding_model@);
        None
    }

    /// Whether the backend has a model with this id that accepts this
    /// modality.
    pub fn supports_model_id(&self, model_id: i32, input_type: InputType) -> (supported: bool)
        ensures
            supported == Self::supports(model_id, input_type),
    {
        let models = Self::models();
        match find_by_id(&models, model_id) {
            Some(m) => m.supports_input_type(input_type),
            None => false,
        }
    }

    /// The cache after a request for the model was accepted or refused: a
    /// model of the backend that is not ready counts as initializing.
    pub open spec fn cache_after_begin(cache: Map<i32, SlotState>, model_id: i32) -> Map<
        i32,
        SlotState,
    > {
        if Self::model_def(model_id) is Some && cache[model_id] != SlotState::Ready {
            cache.insert(model_id, SlotState::Initializing)
        } else {
            cache
        }
    }

    /// The cache after the caller reported how loading the model went: only
    /// a model that is initializing changes.
    pub open spec fn cache_after_load(
        cache: Map<i32, SlotState>,
        model_id: i32,
        success: bool,
    ) -> Map<i32, SlotState> {
        if cache[model_id] == SlotState::Initializing {
            cache.insert(
                model_id,
                if success {
                    SlotState::Ready
                } else {
                    SlotState::Uninitialized
                },
            )
        } else {
            cache
        }
    }

    /// Accepts or refuses a request and says what it needs first.
    ///
    /// A request for a model that the backend does not have is refused and
    /// leaves the cache as it is. A model that is ready is run. Any other is
    /// loaded first, and counts as initializing until the caller reports.
    pub fn begin_embed(&self, cache: &mut ModelCache, model_id: i32) -> (step: Result<
        LocalStep,
        EmbedError,
    >)
        ensures
            final(cache)@ == Self::cache_after_begin(old(cache)@, model_id),
            match step {
                Err(e) => Self::model_def(model_id) is None && e == EmbedError::UnknownModel(
                    model_id,
                ),
                Ok(LocalStep::Run) => Self::model_def(model_id) is Some && old(cache)@[model_id]
                    == SlotState::Ready,
                Ok(LocalStep::Load(def)) => Self::model_def(model_id) == Some(def@) && old(
                    cache,
                )@[model_id] != SlotState::Ready,
            },
    {
        match Self::get_model_def(model_id) {
            None => Err(EmbedError::UnknownModel(model_id)),
            Some(def) => match cache.state(model_id) {
                SlotState::Ready => Ok(LocalStep::Run),
                _ => {
                    cache.set(model_id, SlotState::Initializing);
                    Ok(LocalStep::Load(def))
                },
            },
        }
    }

    /// Takes note of how loading a model went.
    ///
    /// Only a model that is initializing changes: to ready on success, to
    /// uninitialized on failure, so that the next request loads it again. The
    /// result is `Ok` exactly when the model is ready afterwards.
    pub fn load_finished(&self, cache: &mut ModelCache, model_id: i32, success: bool) -> (result:
        Result<(), EmbedError>)
        ensures
            final(cache)@ == Self::cache_after_load(old(cache)@, model_id, success),
            result == if final(cache)@[model_id] == SlotState::Ready {
                Ok::<(), EmbedError>(())
            } else {
                Err::<(), EmbedError>(EmbedError::InitializationFailed)
            },
    {
        match cache.state(model_id) {
            SlotState::Initializing => {
                if success {
                    cache.set(model_id, SlotState::Ready);
                    Ok(())
                } else {
                    cache.set(model_id, SlotState::Uninitialized);
                    Err(EmbedError::InitializationFailed)
                }
            },
            SlotState::Ready => Ok(()),
            SlotState::Uninitialized => Err(EmbedError::InitializationFailed),
        }
    }

    /// Turns the engine's answer to a request into its result.
    ///
    /// `outcome` is `None` where the engine rejected the request, else the
    /// vectors that it computed. The result is `Ok` exactly when there is one
    /// vector for each input item and all have one length; the vectors then
    /// stand in the buffer in the order of the items.
    pub fn finish_embed<T: Copy>(&self, input: &Input, outcome: Option<Vec<Vec<T>>>) -> (result:
        Result<EmbedResult<T>, EmbedError>)
        ensures
            match outcome {
                None => result matches Err(e) && e == EmbedError::ExecutionFailed,
                Some(rows) => is_layout_of(result, input.items().len(), rows_of(rows@)),
            },
    {
        match outcome {
            None => Err(EmbedError::ExecutionFailed),
            Some(rows) => flatten(input.len(), &rows),
        }
    }
}

/// The ids of the backend's models are all different.
pub proof fn lemma_local_catalog_has_unique_ids()
    ensures
        has_unique_ids(FastEmbedder::catalog()),
{
}

/// A model that a name stands for is the model of the catalog with its id.
pub proof fn lemma_local_named_model_is_listed(model_name: Seq<char>)
    ensures
        FastEmbedder::model_named(model_name) matches Some(m) ==> find_id(
            FastEmbedder::catalog(),
            m.id,
        ) == Some(m),
{
    if let Some(m) = FastEmbedder::model_named(model_name) {
        let catalog = FastEmbedder::catalog();
        assert(catalog[0] == m || catalog[1] == m);
        lemma_local_catalog_has_unique_ids();
        lemma_find_id_of_member(catalog, m);
    }
}

/// Every model of the backend is found under its name in the catalog.
pub proof fn lemma_local_listed_model_is_named(model: ModelSpec)
    requires
        FastEmbedder::catalog().contains(model),
    ensures
        FastEmbedder::model_named(model.name) == Some(model),
{
    reveal_strlit("AllMiniLML6V2");
    reveal_strlit("BGELargeENV15");
    let catalog = FastEmbedder::catalog();
    let k = choose|k: int| 0 <= k < catalog.len() && catalog[k] == model;
    if k == 1 {
        assert(ascii_lowercase("BGELargeENV15"@)[0] != ascii_lowercase("AllMiniLML6V2"@)[0]);
    }
}

/// A model is loaded once: after a request that had it loaded with success
/// the model is ready, and a further request for it finds it ready and
/// leaves the cache as it is.
pub proof fn lemma_loaded_model_is_reused(cache: Map<i32, SlotState>, model_id: i32)
    requires
        FastEmbedder::model_def(model_id) is Some,
    ensures
        ({
            let begun = FastEmbedder::cache_after_begin(cache, model_id);
            let loaded = FastEmbedder::cache_after_load(begun, model_id, true);
            &&& loaded[model_id] == SlotState::Ready
            &&& FastEmbedder::cache_after_begin(loaded, model_id) == loaded
        }),
{
}

/// A failure to load is not kept: the model is uninitialized afterwards, and
/// the next request for it has it loaded again.
pub proof fn lemma_failed_load_is_retried(cache: Map<i32, SlotState>, model_id: i32)
    requires
        FastEmbedder::model_def(model_id) is Some,
        cache[model_id] != SlotState::Ready,
    ensures
        ({
            let begun = FastEmbedder::cache_after_begin(cache, model_id);
            let failed = FastEmbedder::cache_after_load(begun, model_id, false);
            &&& failed[model_id] == SlotState::Uninitialized
            &&& FastEmbedder::cache_after_begin(failed, model_id)[model_id]
                == SlotState::Initializing
        }),
{
}

} // verus!
