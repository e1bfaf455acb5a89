use embedders::{Embedder, EmbedderRegistry, FastEmbedder, GrpcEmbedder, InputType};

#[test]
fn empty_registry_finds_nothing() {
    let registry = EmbedderRegistry::new();
    assert!(registry.get_embedder_by_method_id(0).is_none());
    assert_eq!(registry.validate_method("fastembed"), None);
    assert_eq!(registry.validate_model(0, "AllMiniLML6V2", InputType::Text), None);
}

#[test]
fn register_makes_a_backend_findable() {
    let mut registry = EmbedderRegistry::new();
    registry.register(Embedder::Grpc(GrpcEmbedder));
    assert_eq!(registry.validate_method("grpc"), Some(1));
    assert_eq!(registry.validate_method("fastembed"), None);
    assert!(matches!(registry.get_embedder_by_method_id(1), Some(Embedder::Grpc(_))));
    assert!(registry.get_embedder_by_method_id(0).is_none());

    registry.register(Embedder::FastEmbed(FastEmbedder));
    assert_eq!(registry.validate_method("grpc"), Some(1));
    assert_eq!(registry.validate_method("fastembed"), Some(0));
    assert!(matches!(registry.get_embedder_by_method_id(0), Some(Embedder::FastEmbed(_))));
}

#[test]
fn builtin_registry_has_unique_identities() {
    let registry = EmbedderRegistry::builtin();
    let fast = registry.get_embedder_by_method_id(0).expect("registered");
    let grpc = registry.get_embedder_by_method_id(1).expect("registered");
    assert_ne!(fast.method_id(), grpc.method_id());
    assert_ne!(fast.method_name(), grpc.method_name());
}

#[test]
fn lookups_by_id_and_by_name_undo_each_other() {
    let registry = EmbedderRegistry::builtin();
    for name in ["fastembed", "grpc"] {
        let id = registry.validate_method(name).expect("registered");
        let embedder = registry.get_embedder_by_method_id(id).expect("registered");
        assert_eq!(embedder.method_name(), name);
    }
    for id in [0, 1] {
        let embedder = registry.get_embedder_by_method_id(id).expect("registered");
        assert_eq!(registry.validate_method(embedder.method_name()), Some(id));
    }
}

#[test]
fn unregistered_values_are_not_found() {
    let registry = EmbedderRegistry::builtin();
    assert!(registry.get_embedder_by_method_id(2).is_none());
    assert!(registry.get_embedder_by_method_id(-1).is_none());
    assert_eq!(registry.validate_method("FastEmbed"), None);
    assert_eq!(registry.validate_method("grpc "), None);
    assert_eq!(registry.validate_method("grp"), None);
    assert_eq!(registry.validate_method(""), None);
}

#[test]
fn validate_model_resolves_a_text_model_and_rejects_images() {
    let registry = EmbedderRegistry::builtin();
    let method_id = registry.validate_method("fastembed").expect("registered");
    assert_eq!(registry.validate_model(method_id, "AllMiniLML6V2", InputType::Text), Some(0));
    assert_eq!(registry.validate_model(method_id, "AllMiniLML6V2", InputType::Image), None);
}

#[test]
fn validate_model_of_the_remote_backend() {
    let registry = EmbedderRegistry::builtin();
    let method_id = registry.validate_method("grpc").expect("registered");
    assert_eq!(
        registry.validate_model(method_id, "sentence-transformers/bge-large-en-v1.5", InputType::Text),
        Some(1)
    );
    assert_eq!(
        registry.validate_model(method_id, "sentence-transformers/bge-large-en-v1.5", InputType::Image),
        None
    );
    assert_eq!(registry.validate_model(method_id, "BGELargeENV15", InputType::Text), None);
}

#[test]
fn validate_model_gives_none_for_every_cause() {
    let registry = EmbedderRegistry::builtin();
    assert_eq!(registry.validate_model(5, "AllMiniLML6V2", InputType::Text), None);
    assert_eq!(registry.validate_model(0, "no-such-model", InputType::Text), None);
    assert_eq!(registry.validate_model(0, "BGELargeENV15", InputType::Image), None);
}

#[test]
fn validate_model_agrees_with_supports_model_id() {
    let registry = EmbedderRegistry::builtin();
    let names = [
        (0, 0, "AllMiniLML6V2"),
        (0, 1, "BGELargeENV15"),
        (1, 0, "sentence-transformers/all-MiniLM-L6-v2"),
        (1, 1, "sentence-transformers/bge-large-en-v1.5"),
    ];
    for (method_id, model_id, name) in names {
        let embedder = registry.get_embedder_by_method_id(method_id).expect("registered");
        for input_type in [InputType::Text, InputType::Image] {
            let validated = registry.validate_model(method_id, name, input_type);
            if embedder.supports_model_id(model_id, input_type) {
                assert_eq!(validated, Some(model_id));
            } else {
                assert_eq!(validated, None);
            }
        }
    }
}

#[test]
fn embedder_forwards_to_its_backend() {
    let fast = Embedder::FastEmbed(FastEmbedder);
    assert_eq!((fast.method_id(), fast.method_name()), (0, "fastembed"));
    assert_eq!(fast.get_model("bgelargeenv15").map(|m| m.id), Some(1));
    assert!(fast.supports_model_id(1, InputType::Text));

    let grpc = Embedder::Grpc(GrpcEmbedder);
    assert_eq!((grpc.method_id(), grpc.method_name()), (1, "grpc"));
    assert_eq!(grpc.get_model("sentence-transformers/all-MiniLM-L6-v2").map(|m| m.id), Some(0));
    assert!(grpc.get_model("bgelargeenv15").is_none());
    assert!(!grpc.supports_model_id(1, InputType::Image));
}
