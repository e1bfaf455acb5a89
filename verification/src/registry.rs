//! The backends of the process and the lookups that resolve names to ids.

use vstd::prelude::*;
use crate::catalog::{find_id, find_name};
use crate::local::{
    lemma_local_listed_model_is_named, lemma_local_named_model_is_listed, FastEmbedder,
    EMBED_METHOD_FASTEMBED_ID,
};
use crate::lookup::{first_matching, lemma_first_matching, lemma_first_matching_step, lemma_only_match};
use crate::model::{InputType, ModelInfo, ModelSpec};
use crate::remote::{
    lemma_remote_listed_model_is_named, lemma_remote_named_model_is_listed, GrpcEmbedder,
    EMBED_METHOD_GRPC_ID,
};
use crate::text::str_eq;

verus! {

/// A backend: one of the fixed set that the process is built with.
#[derive(Debug, Clone, Copy)]
pub enum Embedder {
    FastEmbed(FastEmbedder),
    Grpc(GrpcEmbedder),
}

impl Embedder {
    /// The backend's numeric identity.
    pub open spec fn id(self) -> i32 {
        match self {
            Embedder::FastEmbed(_) => EMBED_METHOD_FASTEMBED_ID,
            Embedder::Grpc(_) => EMBED_METHOD_GRPC_ID,
        }
    }

    /// The backend's name.
    pub open spec fn name(self) -> Seq<char> {
        match self {
            Embedder::FastEmbed(_) => "fastembed"@,
            Embedder::Grpc(_) => "grpc"@,
        }
    }

    /// The backend's models.
    pub open spec fn catalog(self) -> Seq<ModelSpec> {
        match self {
            Embedder::FastEmbed(_) => FastEmbedder::catalog(),
            Embedder::Grpc(_) => GrpcEmbedder::catalog(),
        }
    }

    /// The model that a name stands for in this backend.
    pub open spec fn model_named(self, model_name: Seq<char>) -> Option<ModelSpec> {
        match self {
            Embedder::FastEmbed(_) => FastEmbedder::model_named(model_name),
            Embedder::Grpc(_) => find_name(GrpcEmbedder::catalog(), model_name),
        }
    }

    /// Whether the backend has a model with this id that accepts this
    /// modality.
    pub open spec fn supports(self, model_id: i32, input_type: InputType) -> bool {
        match find_id(self.catalog(), model_id) {
            Some(m) => m.supports(input_type),
            None => false,
        }
    }

    /// The backend's numeric identity.
    pub fn method_id(&self) -> (id: i32)
        ensures
            id == self.id(),
    {
        match self {
            Embedder::FastEmbed(e) => e.method_id(),
            Embedder::Grpc(e) => e.method_id(),
        }
    }

    /// The backend's name.
    pub fn method_name(&self) -> (name: &'static str)
        ensures
            name@ == self.name(),
    {
        match self {
            Embedder::FastEmbed(e) => e.method_name(),
            Embedder::Grpc(e) => e.method_name(),
        }
    }

    /// The model that a name stands for in this backend.
    pub fn get_model(&self, model_name: &str) -> (found: Option<ModelInfo>)
        ensures
            match found {
                Some(m) => self.model_named(model_name@) == Some(m@),
                None => self.model_named(model_name@) is None,
            },
    {
        match self {
            Embedder::FastEmbed(e) => e.get_model(model_name),
            Embedder::Grpc(e) => e.get_model(model_name),
        }
    }

    /// Whether the backend has a model with this id that accepts this
    /// modality.
    pub fn supports_model_id(&self, model_id: i32, input_type: InputType) -> (supported: bool)
        ensures
            supported == self.supports(model_id, input_type),
    {
        match self {
            Embedder::FastEmbed(e) => e.supports_model_id(model_id, input_type),
            Embedder::Grpc(e) => e.supports_model_id(model_id, input_type),
        }
    }
}

/// Whether no two of the backends share an id or a name.
pub open spec fn has_distinct_identities(entries: Seq<Embedder>) -> bool {
    forall|i: int, j: int|
        0 <= i < entries.len() && 0 <= j < entries.len() && i != j ==> entries[i].id()
            != entries[j].id() && entries[i].name() != entries[j].name()
}

/// Whether a backend could join the others without sharing an id or a name
/// with one of them.
pub open spec fn is_fresh(entries: Seq<Embedder>, embedder: Embedder) -> bool {
    forall|i: int|
        0 <= i < entries.len() ==> (#[trigger] entries[i]).id() != embedder.id()
            && entries[i].name() != embedder.name()
}

/// The backend with the given id.
pub open spec fn find_method(entries: Seq<Embedder>, method_id: i32) -> Option<Embedder> {
    first_matching(entries, |e: Embedder| e.id() == method_id)
}

/// The id of the backend with the given name.
pub open spec fn resolve_name(entries: Seq<Embedder>, method_name: Seq<char>) -> Option<i32> {
    match first_matching(entries, |e: Embedder| e.name() == method_name) {
        Some(e) => Some(e.id()),
        None => None,
    }
}

/// The id of the model that a name stands for in the backend with the given
/// id, provided that the model accepts the modality.
pub open spec fn validated_model(
    entries: Seq<Embedder>,
    method_id: i32,
    model_name: Seq<char>,
    input_type: InputType,
) -> Option<i32> {
    match find_method(entries, method_id) {
        Some(embedder) => match embedder.model_named(model_name) {
            Some(m) => if m.supports(input_type) {
                Some(m.id)
            } else {
                None
            },
            None => None,
        },
        None => None,
    }
}

/// The backends of the process. No two of them share an id or a name.
pub struct EmbedderRegistry {
    embedders: Vec<Embedder>,
}

impl View for EmbedderRegistry {
    type V = Seq<Embedder>;

    closed spec fn view(&self) -> Seq<Embedder> {
        self.embedders@
    }
}

impl EmbedderRegistry {
    #[verifier::type_invariant]
    spec fn distinct(self) -> bool {
        has_distinct_identities(self.embedders@)
    }

    /// A registry without a backend.
    pub fn new() -> (registry: Self)
        ensures
            registry@ == Seq::<Embedder>::empty(),
    {
        EmbedderRegistry { embedders: Vec::new() }
    }

    /// The registry of the backends that the process is built with, in a
    /// fixed order.
    pub fn builtin() -> (registry: Self)
        ensures
            registry@ == seq![
                Embedder::FastEmbed(FastEmbedder),
                Embedder::Grpc(GrpcEmbedder),
            ],
            has_distinct_identities(registry@),
    {
        let mut registry = Self::new();
        registry.register(Embedder::FastEmbed(FastEmbedder));
        proof {
            reveal_strlit("fastembed");
            reveal_strlit("grpc");
            assert("fastembed"@.len() != "grpc"@.len());
        }
        registry.register(Embedder::Grpc(GrpcEmbedder));
        assert(registry@ =~= seq![Embedder::FastEmbed(FastEmbedder), Embedder::Grpc(GrpcEmbedder)]);
        registry
    }

    /// Adds a backend behind those that are registered.
    pub fn register(&mut self, embedder: Embedder)
        requires
            is_fresh(old(self)@, embedder),
        ensures
            final(self)@ == old(self)@.push(embedder),
            has_distinct_identities(final(self)@),
    {
        proof {
            use_type_invariant(&*self);
        }
        let mut embedders = self.embedders.clone();
        assert(embedders@ =~= self.embedders@);
        embedders.push(embedder);
        self.embedders = embedders;
    }

    /// The backend with the given id.
    pub fn get_embedder_by_method_id(&self, method: i32) -> (found: Option<&Embedder>)
        ensures
            match found {
                Some(e) => find_method(self@, method) == Some(*e),
                None => find_method(self@, method) is None,
            },
            has_distinct_identities(self@),
    {
        proof {
            use_type_invariant(self);
        }
        let ghost wanted = |e: Embedder| e.id() == method;
        let n: usize = self.embedders.len();
        let mut i: usize = 0;
        assert(self@.skip(0) =~= self@);
        while i < n
            invariant
                n == self@.len(),
                self@ == self.embedders@,
                has_distinct_identities(self@),
                i <= n,
                wanted == |e: Embedder| e.id() == method,
                first_matching(self@, wanted) == first_matching(self@.skip(i as int), wanted),
            decreases n - i,
        {
            proof {
                lemma_first_matching_step(self@, wanted, i as int);
            }
            if self.embedders[i].method_id() == method {
                return Some(&self.embedders[i]);
            }
            i += 1;
        }
        None
    }

    /// The id of the backend with the given name, compared character by
    /// character.
    pub fn validate_method(&self, method: &str) -> (id: Option<i32>)
        ensures
            id == resolve_name(self@, method@),
            has_distinct_identities(self@),
    {
        proof {
            use_type_invariant(self);
        }
        let ghost wanted = |e: Embedder| e.name() == method@;
        let n: usize = self.embedders.len();
        let mut i: usize = 0;
        assert(self@.skip(0) =~= self@);
        while i < n
            invariant
                n == self@.len(),
                self@ == self.embedders@,
                has_distinct_identities(self@),
                i <= n,
                wanted == |e: Embedder| e.name() == method@,
                first_matching(self@, wanted) == first_matching(self@.skip(i as int), wanted),
            decreases n - i,
        {
            proof {
                lemma_first_matching_step(self@, wanted, i as int);
            }
            if str_eq(self.embedders[i].method_name(), method) {
                return Some(self.embedders[i].method_id());
            }
            i += 1;
        }
        None
    }

    /// The id of the model that a name stands for in the backend with the
    /// given id, provided that the model accepts the modality. An unknown
    /// backend, an unknown model and a modality that the model does not
    /// accept all give `None`.
    pub fn validate_model(&self, method_id: i32, model: &str, input_type: InputType) -> (id: Option<
        i32,
    >)
        ensures
            id == validated_model(self@, method_id, model@, input_type),
            has_distinct_identities(self@),
    {
        let embedder = self.get_embedder_by_method_id(method_id)?;
        let model_info = embedder.get_model(model)?;
        if model_info.supports_input_type(input_type) {
            Some(model_info.id)
        } else {
            None
        }
    }
}

/// A registered backend is the one that is found under its id, and its id is
/// the one that its name resolves to.
pub proof fn lemma_registered_is_found(entries: Seq<Embedder>, embedder: Embedder)
    requires
        has_distinct_identities(entries),
        entries.contains(embedder),
    ensures
        find_method(entries, embedder.id()) == Some(embedder),
        resolve_name(entries, embedder.name()) == Some(embedder.id()),
{
    let k = choose|k: int| 0 <= k < entries.len() && entries[k] == embedder;
    let by_id = |e: Embedder| e.id() == embedder.id();
    assert forall|i: int| 0 <= i < entries.len() && by_id(#[trigger] entries[i]) implies entries[i]
        == embedder by {
        assert(i == k);
    }
    lemma_only_match(entries, by_id, embedder);
    let by_name = |e: Embedder| e.name() == embedder.name();
    assert forall|i: int| 0 <= i < entries.len() && by_name(#[trigger] entries[i]) implies entries[i]
        == embedder by {
        assert(i == k);
    }
    lemma_only_match(entries, by_name, embedder);
}

/// What a lookup finds is registered: a backend that is found under an id
/// has that id, an id that a name resolves to is that of a backend with that
/// name, and where no backend has the id or the name, nothing is found.
pub proof fn lemma_found_is_registered(
    entries: Seq<Embedder>,
    method_id: i32,
    method_name: Seq<char>,
)
    ensures
        find_method(entries, method_id) matches Some(e) ==> entries.contains(e) && e.id()
            == method_id,
        find_method(entries, method_id) is None <==> forall|i: int|
            0 <= i < entries.len() ==> (#[trigger] entries[i]).id() != method_id,
        resolve_name(entries, method_name) matches Some(id) ==> exists|i: int|
            0 <= i < entries.len() && (#[trigger] entries[i]).name() == method_name && entries[i].id()
                == id,
        resolve_name(entries, method_name) is None <==> forall|i: int|
            0 <= i < entries.len() ==> (#[trigger] entries[i]).name() != method_name,
{
    let by_id = |e: Embedder| e.id() == method_id;
    lemma_first_matching(entries, by_id);
    if let Some(e) = find_method(entries, method_id) {
        let k = choose|k: int| 0 <= k < entries.len() && entries[k] == e;
        assert(entries[k].id() == method_id);
    }
    let by_name = |e: Embedder| e.name() == method_name;
    lemma_first_matching(entries, by_name);
    if let Some(e) = first_matching(entries, by_name) {
        let k = choose|k: int| 0 <= k < entries.len() && entries[k] == e;
        assert(entries[k].name() == method_name && entries[k].id() == e.id());
    }
}

/// The two lookups undo each other: the backend found under the id that a
/// name resolves to has that name, and the name of the backend found under
/// an id resolves to that id.
pub proof fn lemma_lookups_are_inverse(
    entries: Seq<Embedder>,
    method_id: i32,
    method_name: Seq<char>,
)
    requires
        has_distinct_identities(entries),
    ensures
        resolve_name(entries, method_name) matches Some(id) ==> (find_method(entries, id) matches Some(
            e,
        ) && e.name() == method_name),
        find_method(entries, method_id) matches Some(e) ==> resolve_name(entries, e.name()) == Some(
            method_id,
        ),
{
    lemma_found_is_registered(entries, method_id, method_name);
    if let Some(e) = first_matching(entries, |e: Embedder| e.name() == method_name) {
        lemma_first_matching(entries, |e: Embedder| e.name() == method_name);
        lemma_registered_is_found(entries, e);
    }
    if let Some(e) = find_method(entries, method_id) {
        lemma_registered_is_found(entries, e);
    }
}

/// In every backend, the model that a name stands for is the model of the
/// catalog with its id.
pub proof fn lemma_named_model_is_listed(embedder: Embedder, model_name: Seq<char>)
    ensures
        embedder.model_named(model_name) matches Some(m) ==> find_id(embedder.catalog(), m.id)
            == Some(m),
{
    match embedder {
        Embedder::FastEmbed(_) => lemma_local_named_model_is_listed(model_name),
        Embedder::Grpc(_) => lemma_remote_named_model_is_listed(model_name),
    }
}

/// In every backend, each model of the catalog is found under its name in
/// the catalog.
pub proof fn lemma_listed_model_is_named(embedder: Embedder, model: ModelSpec)
    requires
        embedder.catalog().contains(model),
    ensures
        embedder.model_named(model.name) == Some(model),
{
    match embedder {
        Embedder::FastEmbed(_) => lemma_local_listed_model_is_named(model),
        Embedder::Grpc(_) => lemma_remote_listed_model_is_named(model),
    }
}

/// Validation agrees with the backend: where `model_name` stands for the
/// model with id `model_id` in the backend with id `method_id`, validating
/// that name gives `model_id` if the backend supports the id for the
/// modality, and nothing if it does not.
pub proof fn lemma_validation_agrees_with_support(
    entries: Seq<Embedder>,
    method_id: i32,
    model_id: i32,
    model_name: Seq<char>,
    input_type: InputType,
)
    requires
        find_method(entries, method_id) matches Some(e) && (e.model_named(model_name) matches Some(
            m,
        ) && m.id == model_id),
    ensures
        find_method(entries, method_id).unwrap().supports(model_id, input_type) ==> validated_model(
            entries,
            method_id,
            model_name,
            input_type,
        ) == Some(model_id),
        !find_method(entries, method_id).unwrap().supports(model_id, input_type)
            ==> validated_model(entries, method_id, model_name, input_type) is None,
{
    lemma_named_model_is_listed(find_method(entries, method_id).unwrap(), model_name);
}

/// Validation agrees with the backend for every model of every registered
/// backend: validating the model's name in the catalog gives the model's id
/// if the backend supports that id for the modality, and nothing if it does
/// not.
pub proof fn lemma_listed_model_validates(
    entries: Seq<Embedder>,
    embedder: Embedder,
    model: ModelSpec,
    input_type: InputType,
)
    requires
        has_distinct_identities(entries),
        entries.contains(embedder),
        embedder.catalog().contains(model),
    ensures
        validated_model(entries, embedder.id(), model.name, input_type) == if embedder.supports(
            model.id,
            input_type,
        ) {
            Some(model.id)
        } else {
            None
        },
{
    lemma_registered_is_found(entries, embedder);
    lemma_listed_model_is_named(embedder, model);
    lemma_validation_agrees_with_support(
        entries,
        embedder.id(),
        model.id,
        model.name,
        input_type,
    );
}

} // verus!
