//! The backend that forwards requests to an embedding service over RPC.
//!
//! The backend does not talk to the network itself. For each request it says
//! what its caller has to do next (connect, then send) and is told how that
//! went; the connection's state is kept per worker in a [`ClientSlot`].

use vstd::prelude::*;
use crate::catalog::{
    find_by_id, find_by_name, find_id, find_name, has_unique_ids, lemma_find_id_of_member,
    lemma_find_name_is_member, model_specs,
};
use crate::error::EmbedError;
use crate::lookup::lemma_only_match;
use crate::model::{Input, InputType, ModelInfo, ModelSpec};
use crate::shape::{flatten, is_layout_of, rows_of, EmbedResult};

verus! {

/// The numeric identity of the backend.
pub const EMBED_METHOD_GRPC_ID: i32 = 1;

/// The fixed parameters of the connection to the service.
#[derive(Debug, Clone, Copy)]
pub struct ConnectionConfig {
    pub uri: &'static str,
    pub http2_keep_alive_interval_secs: u64,
    pub keep_alive_timeout_secs: u64,
    pub connect_timeout_secs: u64,
    pub tcp_nodelay: bool,
    pub http2_adaptive_window: bool,
}

/// One batch of texts as the service expects it.
#[derive(Debug)]
pub struct EmbedBatchRequest {
    pub inputs: Vec<String>,
    pub truncate: bool,
    pub normalize: bool,
    pub truncation_direction: i32,
    pub prompt_name: Option<String>,
    pub dimensions: Option<u32>,
    pub model: String,
}

/// What an [`EmbedBatchRequest`] says, as mathematical values.
pub struct RequestSpec {
    pub inputs: Seq<Seq<char>>,
    pub truncate: bool,
    pub normalize: bool,
    pub truncation_direction: i32,
    pub prompt_name: Option<Seq<char>>,
    pub dimensions: Option<u32>,
    pub model: Seq<char>,
}

impl View for EmbedBatchRequest {
    type V = RequestSpec;

    open spec fn view(&self) -> RequestSpec {
        RequestSpec {
            inputs: Seq::new(self.inputs@.len(), |i: int| self.inputs@[i]@),
            truncate: self.truncate,
            normalize: self.normalize,
            truncation_direction: self.truncation_direction,
            prompt_name: match self.prompt_name {
                Some(p) => Some(p@),
                None => None,
            },
            dimensions: self.dimensions,
            model: self.model@,
        }
    }
}

/// The request that carries the given items to the given model: inputs that
/// are too long are truncated, in the service's default direction, and the
/// vectors are normalized; no prompt is named and no dimensionality asked
/// for.
pub open spec fn request_for(model: ModelSpec, items: Seq<Seq<char>>) -> RequestSpec {
    RequestSpec {
        inputs: items,
        truncate: true,
        normalize: true,
        truncation_direction: 0,
        prompt_name: None,
        dimensions: None,
        model: model.name,
    }
}

/// The state of a worker's connection to the service.
#[derive(Debug, Clone, Copy, PartialEq, Eq, Structural)]
pub enum ConnectionState {
    Disconnected,
    Connecting,
    Connected,
}

/// A worker's one connection to the service. It belongs to the worker that
/// made it and is never shared.
#[derive(Debug)]
pub struct ClientSlot {
    state: ConnectionState,
}

impl View for ClientSlot {
    type V = ConnectionState;

    closed spec fn view(&self) -> ConnectionState {
        self.state
    }
}

impl ClientSlot {
    /// A slot without a connection.
    pub fn new() -> (slot: Self)
        ensures
            slot@ == ConnectionState::Disconnected,
    {
        ClientSlot { state: ConnectionState::Disconnected }
    }

    /// The state of the connection.
    pub fn state(&self) -> (state: ConnectionState)
        ensures
            state == self@,
    {
        self.state
    }
}

/// What the caller does next for a request that was accepted.
#[derive(Debug)]
pub enum RemoteStep {
    /// Connect to the service and report with [`GrpcEmbedder::connect_finished`];
    /// if that succeeds, send the request.
    Connect(EmbedBatchRequest),
    /// Send the request over the connection that the worker holds.
    Send(EmbedBatchRequest),
}

/// The backend for the remote embedding service.
#[derive(Debug, Clone, Copy)]
pub struct GrpcEmbedder;

impl GrpcEmbedder {
    /// The models of the service.
    pub open spec fn catalog() -> Seq<ModelSpec> {
        seq![
            ModelSpec {
                id: 0,
                name: "sentence-transformers/all-MiniLM-L6-v2"@,
                supported_inputs: seq![InputType::Text],
            },
            ModelSpec {
                id: 1,
                name: "sentence-transformers/bge-large-en-v1.5"@,
                supported_inputs: seq![InputType::Text],
            },
        ]
    }

    /// The models of the service.
    pub fn models() -> (models: Vec<ModelInfo>)
        ensures
            model_specs(models@) == Self::catalog(),
    {
        let mut models: Vec<ModelInfo> = Vec::new();
        models.push(
            ModelInfo::new(0, "sentence-transformers/all-MiniLM-L6-v2", &[InputType::Text]),
        );
        models.push(
            ModelInfo::new(1, "sentence-transformers/bge-large-en-v1.5", &[InputType::Text]),
        );
        proof {
            assert(models@[0]@.supported_inputs =~= seq![InputType::Text]);
            assert(models@[1]@.supported_inputs =~= seq![InputType::Text]);
            assert(model_specs(models@) =~= Self::catalog());
        }
        models
    }

    /// The backend's numeric identity.
    pub fn method_id(&self) -> (id: i32)
        ensures
            id == EMBED_METHOD_GRPC_ID,
    {
        EMBED_METHOD_GRPC_ID
    }

    /// The backend's name.
    pub fn method_name(&self) -> (name: &'static str)
        ensures
            name@ == "grpc"@,
    {
        "grpc"
    }

    /// The model with the given name, compared character by character.
    pub fn get_model(&self, model_name: &str) -> (found: Option<ModelInfo>)
        ensures
            match found {
                Some(m) => find_name(Self::catalog(), model_name@) == Some(m@),
                None => find_name(Self::catalog(), model_name@) is None,
            },
    {
        let models = Self::models();
        find_by_name(&models, model_name)
    }

    /// Whether the service has a model with this id that accepts this
    /// modality.
    pub open spec fn supports(model_id: i32, input_type: InputType) -> bool {
        match find_id(Self::catalog(), model_id) {
            Some(m) => m.supports(input_type),
            None => false,
        }
    }

    /// Whether the backend has a model with this id that accepts this
    /// modality.
    pub fn supports_model_id(&self, model_id: i32, input_type: InputType) -> (supported: bool)
        ensures
            supported == Self::supports(model_id, input_type),
    {
        let models = Self::models();
        match find_by_id(&models, model_id) {
            Some(m) => m.supports_input_type(input_type),
            None => false,
        }
    }

    /// The fixed parameters of the connection to the service.
    pub fn connection_config() -> (config: ConnectionConfig)
        ensures
            config.uri@ == "http://127.0.0.1:50051"@,
            config.http2_keep_alive_interval_secs == 75,
            config.keep_alive_timeout_secs == 20,
            config.connect_timeout_secs == 5,
            config.tcp_nodelay,
            config.http2_adaptive_window,
    {
        ConnectionConfig {
            uri: "http://127.0.0.1:50051",
            http2_keep_alive_interval_secs: 75,
            keep_alive_timeout_secs: 20,
            connect_timeout_secs: 5,
            tcp_nodelay: true,
            http2_adaptive_window: true,
        }
    }

    /// The request that carries the input to the model.
    pub fn build_request(model: &ModelInfo, input: &Input) -> (request: EmbedBatchRequest)
        ensures
            request@ == request_for(model@, input.items()),
    {
        let mut inputs: Vec<String> = Vec::new();
        match input {
            Input::Texts(texts) => {
                let n: usize = texts.len();
                let mut i: usize = 0;
                while i < n
                    invariant
                        n == texts@.len(),
                        i <= n,
                        inputs@.len() == i,
                        forall|k: int| 0 <= k < i ==> (#[trigger] inputs@[k])@ == texts@[k]@,
                    decreases n - i,
                {
                    let text: &str = texts[i];
                    inputs.push(text.to_owned());
                    i += 1;
                }
            },
        }
        let request = EmbedBatchRequest {
            inputs,
            truncate: true,
            normalize: true,
            truncation_direction: 0,
            prompt_name: None,
            dimensions: None,
            model: model.name.to_owned(),
        };
        assert(request@.inputs =~= input.items());
        request
    }

    /// The connection's state after a request was accepted or refused: for a
    /// model of the service, a worker that is not connected is connecting.
    pub open spec fn state_after_begin(state: ConnectionState, model_id: i32) -> ConnectionState {
        if find_id(Self::catalog(), model_id) is Some && state != ConnectionState::Connected {
            ConnectionState::Connecting
        } else {
            state
        }
    }

    /// The connection's state after the caller reported how connecting went:
    /// only a worker that is connecting changes.
    pub open spec fn state_after_connect(state: ConnectionState, success: bool) -> ConnectionState {
        if state == ConnectionState::Connecting {
            if success {
                ConnectionState::Connected
            } else {
                ConnectionState::Disconnected
            }
        } else {
            state
        }
    }

    /// The connection's state after a request ended: a failure, of whatever
    /// kind, leaves the worker disconnected.
    pub open spec fn state_after_finish(state: ConnectionState, success: bool) -> ConnectionState {
        if success {
            state
        } else {
            ConnectionState::Disconnected
        }
    }

    /// Accepts or refuses a request and says what it needs first.
    ///
    /// A request for a model that the service does not have is refused and
    /// leaves the slot as it is. Otherwise the request is handed back ready to
    /// send: at once where the worker is connected, after connecting where it
    /// is not.
    pub fn begin_embed(&self, slot: &mut ClientSlot, model_id: i32, input: &Input) -> (step: Result<
        RemoteStep,
        EmbedError,
    >)
        ensures
            final(slot)@ == Self::state_after_begin(old(slot)@, model_id),
            match step {
                Err(e) => find_id(Self::catalog(), model_id) is None && e
                    == EmbedError::UnknownModel(model_id),
                Ok(RemoteStep::Send(request)) => {
                    &&& find_id(Self::catalog(), model_id) matches Some(m)
                    &&& request@ == request_for(m, input.items())
                    &&& old(slot)@ == ConnectionState::Connected
                },
                Ok(RemoteStep::Connect(request)) => {
                    &&& find_id(Self::catalog(), model_id) matches Some(m)
                    &&& request@ == request_for(m, input.items())
                    &&& old(slot)@ != ConnectionState::Connected
                },
            },
    {
        let models = Self::models();
        match find_by_id(&models, model_id) {
            None => Err(EmbedError::UnknownModel(model_id)),
            Some(model) => {
                let request = Self::build_request(&model, input);
                match slot.state {
                    ConnectionState::Connected => Ok(RemoteStep::Send(request)),
                    _ => {
                        slot.state = ConnectionState::Connecting;
                        Ok(RemoteStep::Connect(request))
                    },
                }
            },
        }
    }

    /// Takes note of how the attempt to connect went.
    ///
    /// Only a slot that is connecting changes: to connected on success, to
    /// disconnected on failure, so that the next request tries again. The
    /// result is `Ok` exactly when the worker is connected afterwards.
    pub fn connect_finished(&self, slot: &mut ClientSlot, success: bool) -> (result: Result<
        (),
        EmbedError,
    >)
        ensures
            final(slot)@ == Self::state_after_connect(old(slot)@, success),
            result == if final(slot)@ == ConnectionState::Connected {
                Ok::<(), EmbedError>(())
            } else {
                Err::<(), EmbedError>(EmbedError::InitializationFailed)
            },
    {
        match slot.state {
            ConnectionState::Connecting => {
                if success {
                    slot.state = ConnectionState::Connected;
                } else {
                    slot.state = ConnectionState::Disconnected;
                }
            },
            _ => {},
        }
        match slot.state {
            ConnectionState::Connected => Ok(()),
            _ => Err(EmbedError::InitializationFailed),
        }
    }

    /// Turns the service's answer to a request into its result.
    ///
    /// `reply` is `None` where the call failed, else the vectors that came
    /// back. The result is `Ok` exactly when there is one vector for each
    /// input item and all have one length; the vectors then stand in the
    /// buffer in the order of the items. After any failure the worker is
    /// disconnected, so that the next request connects afresh.
    pub fn finish_embed<T: Copy>(
        &self,
        slot: &mut ClientSlot,
        input: &Input,
        reply: Option<Vec<Vec<T>>>,
    ) -> (result: Result<EmbedResult<T>, EmbedError>)
        ensures
            match reply {
                None => result matches Err(e) && e == EmbedError::ExecutionFailed,
                Some(rows) => is_layout_of(result, input.items().len(), rows_of(rows@)),
            },
            final(slot)@ == Self::state_after_finish(old(slot)@, result is Ok),
    {
        let result = match reply {
            None => Err(EmbedError::ExecutionFailed),
            Some(rows) => flatten(input.len(), &rows),
        };
        if result.is_err() {
            slot.state = ConnectionState::Disconnected;
        }
        result
    }
}

/// The ids of the service's models are all different.
pub proof fn lemma_remote_catalog_has_unique_ids()
    ensures
        has_unique_ids(GrpcEmbedder::catalog()),
{
}

/// A model that a name stands for is the model of the catalog with its id.
pub proof fn lemma_remote_named_model_is_listed(model_name: Seq<char>)
    ensures
        find_name(GrpcEmbedder::catalog(), model_name) matches Some(m) ==> find_id(
            GrpcEmbedder::catalog(),
            m.id,
        ) == Some(m),
{
    let catalog = GrpcEmbedder::catalog();
    lemma_find_name_is_member(catalog, model_name);
    if let Some(m) = find_name(catalog, model_name) {
        lemma_remote_catalog_has_unique_ids();
        lemma_find_id_of_member(catalog, m);
    }
}

/// Every model of the service is found under its name in the catalog.
pub proof fn lemma_remote_listed_model_is_named(model: ModelSpec)
    requires
        GrpcEmbedder::catalog().contains(model),
    ensures
        find_name(GrpcEmbedder::catalog(), model.name) == Some(model),
{
    reveal_strlit("sentence-transformers/all-MiniLM-L6-v2");
    reveal_strlit("sentence-transformers/bge-large-en-v1.5");
    let catalog = GrpcEmbedder::catalog();
    let wanted = |m: ModelSpec| m.name == model.name;
    let k = choose|k: int| 0 <= k < catalog.len() && catalog[k] == model;
    assert(catalog[0].name.len() != catalog[1].name.len());
    assert forall|i: int| 0 <= i < catalog.len() && wanted(#[trigger] catalog[i]) implies catalog[i]
        == model by {
        assert(i == k);
    }
    lemma_only_match(catalog, wanted, model);
}

/// A worker connects once: after a request that had it connect with success
/// and ended well the worker is connected, and a further request finds it
/// connected and leaves it so.
pub proof fn lemma_connection_is_reused(state: ConnectionState, model_id: i32)
    requires
        find_id(GrpcEmbedder::catalog(), model_id) is Some,
    ensures
        ({
            let begun = GrpcEmbedder::state_after_begin(state, model_id);
            let connected = GrpcEmbedder::state_after_connect(begun, true);
            let finished = GrpcEmbedder::state_after_finish(connected, true);
            &&& finished == ConnectionState::Connected
            &&& GrpcEmbedder::state_after_begin(finished, model_id) == finished
        }),
{
}

/// No failure is kept: after a failure to connect, and after a request that
/// failed, the worker is disconnected, and the next request has it connect
/// again.
pub proof fn lemma_failure_reconnects(state: ConnectionState, model_id: i32)
    requires
        find_id(GrpcEmbedder::catalog(), model_id) is Some,
    ensures
        ({
            let begun = GrpcEmbedder::state_after_begin(state, model_id);
            let refused = GrpcEmbedder::state_after_connect(begun, false);
            let failed = GrpcEmbedder::state_after_finish(state, false);
            &&& state != ConnectionState::Connected ==> refused == ConnectionState::Disconnected
            &&& failed == ConnectionState::Disconnected
            &&& GrpcEmbedder::state_after_begin(failed, model_id) == ConnectionState::Connecting
        }),
{
}

} // verus!
