use embedders::{
    EmbedError, FastEmbedder, Input, InputType, LocalStep, ModelCache, SlotState,
    EMBED_METHOD_FASTEMBED_ID,
};

const ALL_MINILM_WIDTH: usize = 384;

fn engine_rows(items: usize, width: usize) -> Vec<Vec<f32>> {
    (0..items).map(|i| (0..width).map(|j| (i * width + j) as f32).collect()).collect()
}

#[test]
fn fastembed_identity_is_fixed() {
    let embedder = FastEmbedder;
    assert_eq!(embedder.method_id(), 0);
    assert_eq!(embedder.method_id(), EMBED_METHOD_FASTEMBED_ID);
    assert_eq!(embedder.method_name(), "fastembed");
    assert_eq!(FastEmbedder::cache_dir(), "./fastembed_models");
}

#[test]
fn fastembed_catalog_lists_two_text_models() {
    let models = FastEmbedder::models();
    assert_eq!(models.len(), 2);
    assert_eq!((models[0].id, models[0].name), (0, "AllMiniLML6V2"));
    assert_eq!(models[0].supported_inputs, &[InputType::Text]);
    assert_eq!((models[1].id, models[1].name), (1, "BGELargeENV15"));
    assert_eq!(models[1].supported_inputs, &[InputType::Text]);
}

#[test]
fn get_model_def_maps_ids_to_engine_models() {
    let first = FastEmbedder::get_model_def(0).expect("listed");
    assert_eq!(first.model.id, 0);
    assert_eq!(first.model.name, "AllMiniLML6V2");
    assert_eq!(first.embedding_model, "AllMiniLML6V2");

    let second = FastEmbedder::get_model_def(1).expect("listed");
    assert_eq!(second.model.id, 1);
    assert_eq!(second.model.name, "BGELargeENV15");
    assert_eq!(second.embedding_model, "BGELargeENV15");

    assert!(FastEmbedder::get_model_def(2).is_none());
    assert!(FastEmbedder::get_model_def(-1).is_none());
    assert!(FastEmbedder::get_model_def(i32::MIN).is_none());
}

#[test]
fn model_for_engine_name_is_the_other_half_of_the_table() {
    assert_eq!(FastEmbedder::model_for_engine_name("AllMiniLML6V2").map(|m| m.id), Some(0));
    assert_eq!(FastEmbedder::model_for_engine_name("BGELargeENV15").map(|m| m.id), Some(1));
    assert!(FastEmbedder::model_for_engine_name("BGESmallENV15").is_none());
    assert!(FastEmbedder::model_for_engine_name("allminilml6v2").is_none());
    assert!(FastEmbedder::model_for_engine_name("").is_none());
}

#[test]
fn fastembed_get_model_finds_listed_models() {
    let embedder = FastEmbedder;
    let first = embedder.get_model("AllMiniLML6V2").expect("listed");
    assert_eq!((first.id, first.name), (0, "AllMiniLML6V2"));
    let second = embedder.get_model("BGELargeENV15").expect("listed");
    assert_eq!((second.id, second.name), (1, "BGELargeENV15"));
}

#[test]
fn fastembed_get_model_goes_through_the_engines_name_parser() {
    let embedder = FastEmbedder;
    let lower = embedder.get_model("allminilml6v2").expect("the engine ignores case");
    assert_eq!((lower.id, lower.name), (0, "AllMiniLML6V2"));
    let upper = embedder.get_model("BGELARGEENV15").expect("the engine ignores case");
    assert_eq!((upper.id, upper.name), (1, "BGELargeENV15"));
}

#[test]
fn fastembed_get_model_ignores_only_the_case_of_ascii_letters() {
    let embedder = FastEmbedder;
    assert_eq!(embedder.get_model("ALLMINILML6V2").map(|m| m.id), Some(0));
    assert_eq!(embedder.get_model("aLLmINIlml6v2").map(|m| m.id), Some(0));
    assert_eq!(embedder.get_model("bgeLARGEenv15").map(|m| m.id), Some(1));
    assert!(embedder.get_model("AllMiniLML6V2 ").is_none());
    assert!(embedder.get_model(" AllMiniLML6V2").is_none());
    assert!(embedder.get_model("AllMiniLML6V").is_none());
    assert!(embedder.get_model("All-MiniLM-L6-V2").is_none());
    assert!(embedder.get_model("\u{c0}llMiniLML6V2").is_none());
    assert!(embedder.get_model("BGELargeENV15\u{0}").is_none());
}

#[test]
fn fastembed_get_model_rejects_what_the_table_lacks() {
    let embedder = FastEmbedder;
    assert!(embedder.get_model("BGESmallENV15").is_none());
    assert!(embedder.get_model("AllMiniLML6V2Q").is_none());
    assert!(embedder.get_model("no-such-model").is_none());
    assert!(embedder.get_model("sentence-transformers/all-MiniLM-L6-v2").is_none());
    assert!(embedder.get_model("").is_none());
}

#[test]
fn fastembed_supports_model_id_follows_the_catalog() {
    let embedder = FastEmbedder;
    assert!(embedder.supports_model_id(0, InputType::Text));
    assert!(embedder.supports_model_id(1, InputType::Text));
    assert!(!embedder.supports_model_id(0, InputType::Image));
    assert!(!embedder.supports_model_id(1, InputType::Image));
    assert!(!embedder.supports_model_id(2, InputType::Text));
    assert!(!embedder.supports_model_id(-1, InputType::Image));
}

#[test]
fn new_cache_has_nothing_loaded() {
    let cache = ModelCache::new();
    assert_eq!(cache.state(0), SlotState::Uninitialized);
    assert_eq!(cache.state(1), SlotState::Uninitialized);
    assert_eq!(cache.state(99), SlotState::Uninitialized);
}

#[test]
fn fastembed_embed_hello_world() {
    let embedder = FastEmbedder;
    let mut cache = ModelCache::new();
    let input = Input::Texts(vec!["hello", "world"]);

    let def = match embedder.begin_embed(&mut cache, 0) {
        Ok(LocalStep::Load(def)) => def,
        other => panic!("expected a model to load, got {:?}", other),
    };
    assert_eq!(def.embedding_model, "AllMiniLML6V2");
    assert_eq!(cache.state(0), SlotState::Initializing);
    assert_eq!(embedder.load_finished(&mut cache, 0, true), Ok(()));
    assert_eq!(cache.state(0), SlotState::Ready);

    let rows = engine_rows(input.len(), ALL_MINILM_WIDTH);
    let result = embedder.finish_embed(&input, Some(rows.clone())).expect("well shaped");
    assert_eq!(result.count(), 2);
    assert_eq!(result.dimension(), ALL_MINILM_WIDTH);
    assert_eq!(result.flat().len(), 2 * ALL_MINILM_WIDTH);
    assert_eq!(result.row(0), Some(rows[0].as_slice()));
    assert_eq!(result.row(1), Some(rows[1].as_slice()));
}

#[test]
fn fastembed_embed_on_unknown_model_fails() {
    let embedder = FastEmbedder;
    let mut cache = ModelCache::new();
    assert!(matches!(embedder.begin_embed(&mut cache, 2), Err(EmbedError::UnknownModel(2))));
    assert!(matches!(embedder.begin_embed(&mut cache, -1), Err(EmbedError::UnknownModel(-1))));
    assert_eq!(cache.state(2), SlotState::Uninitialized);
    assert_eq!(cache.state(-1), SlotState::Uninitialized);
    assert_eq!(cache.state(0), SlotState::Uninitialized);
}

#[test]
fn fastembed_same_call_twice_has_the_same_shape() {
    let embedder = FastEmbedder;
    let mut cache = ModelCache::new();
    let input = Input::Texts(vec!["hello", "world", "again"]);

    assert!(matches!(embedder.begin_embed(&mut cache, 1), Ok(LocalStep::Load(_))));
    assert_eq!(embedder.load_finished(&mut cache, 1, true), Ok(()));
    let first = embedder.finish_embed(&input, Some(engine_rows(3, 1024))).expect("well shaped");

    assert!(matches!(embedder.begin_embed(&mut cache, 1), Ok(LocalStep::Run)));
    assert_eq!(cache.state(1), SlotState::Ready);
    let second = embedder.finish_embed(&input, Some(engine_rows(3, 1024))).expect("well shaped");

    assert_eq!((first.count(), first.dimension()), (3, 1024));
    assert_eq!((second.count(), second.dimension()), (3, 1024));
}

#[test]
fn fastembed_models_are_loaded_independently() {
    let embedder = FastEmbedder;
    let mut cache = ModelCache::new();
    assert!(matches!(embedder.begin_embed(&mut cache, 0), Ok(LocalStep::Load(_))));
    assert_eq!(embedder.load_finished(&mut cache, 0, true), Ok(()));
    assert_eq!(cache.state(0), SlotState::Ready);
    assert_eq!(cache.state(1), SlotState::Uninitialized);

    let def = match embedder.begin_embed(&mut cache, 1) {
        Ok(LocalStep::Load(def)) => def,
        other => panic!("expected a model to load, got {:?}", other),
    };
    assert_eq!(def.embedding_model, "BGELargeENV15");
    assert_eq!(cache.state(0), SlotState::Ready);
    assert_eq!(cache.state(1), SlotState::Initializing);
}

#[test]
fn fastembed_failure_to_load_is_not_kept() {
    let embedder = FastEmbedder;
    let mut cache = ModelCache::new();
    assert!(matches!(embedder.begin_embed(&mut cache, 0), Ok(LocalStep::Load(_))));
    assert_eq!(embedder.load_finished(&mut cache, 0, false), Err(EmbedError::InitializationFailed));
    assert_eq!(cache.state(0), SlotState::Uninitialized);

    assert!(matches!(embedder.begin_embed(&mut cache, 0), Ok(LocalStep::Load(_))));
    assert_eq!(embedder.load_finished(&mut cache, 0, true), Ok(()));
    assert_eq!(cache.state(0), SlotState::Ready);
}

#[test]
fn fastembed_report_without_an_attempt_changes_nothing() {
    let embedder = FastEmbedder;
    let mut cache = ModelCache::new();
    assert_eq!(embedder.load_finished(&mut cache, 0, true), Err(EmbedError::InitializationFailed));
    assert_eq!(cache.state(0), SlotState::Uninitialized);

    assert!(matches!(embedder.begin_embed(&mut cache, 0), Ok(LocalStep::Load(_))));
    assert_eq!(embedder.load_finished(&mut cache, 0, true), Ok(()));
    assert_eq!(embedder.load_finished(&mut cache, 0, false), Ok(()));
    assert_eq!(cache.state(0), SlotState::Ready);
}

#[test]
fn fastembed_engine_failure_fails_the_call() {
    let embedder = FastEmbedder;
    let input = Input::Texts(vec!["hello"]);
    let result = embedder.finish_embed::<f32>(&input, None);
    assert_eq!(result.err(), Some(EmbedError::ExecutionFailed));
}

#[test]
fn fastembed_misshapen_answer_fails_as_a_whole() {
    let embedder = FastEmbedder;
    let input = Input::Texts(vec!["hello", "world"]);
    let none: Vec<Vec<f32>> = Vec::new();
    assert_eq!(embedder.finish_embed(&input, Some(none)).err(), Some(EmbedError::EmptyResponse));
    assert_eq!(
        embedder.finish_embed(&input, Some(engine_rows(1, 4))).err(),
        Some(EmbedError::CountMismatch)
    );
    let ragged: Vec<Vec<f32>> = vec![vec![1.0, 2.0], vec![3.0]];
    assert_eq!(embedder.finish_embed(&input, Some(ragged)).err(), Some(EmbedError::RaggedResponse));
}
