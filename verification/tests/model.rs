use attack_bert::model::{
    load_attack_bert_model, load_model, LoadOutcome, ModelError, ATTACK_BERT,
};

#[test]
fn attack_bert_identifier_is_the_registry_name() {
    assert_eq!(ATTACK_BERT, "basel/ATTACK-BERT");
}

#[test]
fn ready_model_yields_a_handle() {
    let handle = load_attack_bert_model(LoadOutcome::Ready { dimension: 768 }).unwrap();
    assert_eq!(handle.identifier(), "basel/ATTACK-BERT");
    assert_eq!(handle.dimension(), 768);
}

#[test]
fn handle_dimension_is_positive_and_stable() {
    let first = load_attack_bert_model(LoadOutcome::Ready { dimension: 384 }).unwrap();
    let second = load_attack_bert_model(LoadOutcome::Ready { dimension: 384 }).unwrap();
    assert!(first.dimension() > 0);
    assert_eq!(first.dimension(), first.dimension());
    assert_eq!(first.dimension(), second.dimension());
    assert_eq!(first, second);
}

#[test]
fn unknown_identifier_is_model_not_found() {
    assert_eq!(
        load_model("nobody/nothing", LoadOutcome::NotFound),
        Err(ModelError::ModelNotFound)
    );
    assert_eq!(
        load_attack_bert_model(LoadOutcome::NotFound),
        Err(ModelError::ModelNotFound)
    );
}

#[test]
fn failed_initialisation_is_model_load() {
    assert_eq!(
        load_model("basel/ATTACK-BERT", LoadOutcome::InitFailed),
        Err(ModelError::ModelLoad)
    );
    assert_eq!(
        load_attack_bert_model(LoadOutcome::InitFailed),
        Err(ModelError::ModelLoad)
    );
}

#[test]
fn model_without_components_is_model_load() {
    assert_eq!(
        load_model("basel/ATTACK-BERT", LoadOutcome::Ready { dimension: 0 }),
        Err(ModelError::ModelLoad)
    );
    assert_eq!(
        load_attack_bert_model(LoadOutcome::Ready { dimension: 0 }),
        Err(ModelError::ModelLoad)
    );
}

#[test]
fn load_model_keeps_the_identifier_it_was_given() {
    let handle = load_model(
        "sentence-transformers/all-MiniLM-L6-v2",
        LoadOutcome::Ready { dimension: 384 },
    )
    .unwrap();
    assert_eq!(handle.identifier(), "sentence-transformers/all-MiniLM-L6-v2");
    assert_eq!(handle.dimension(), 384);
}

#[test]
fn smallest_and_largest_dimensions_are_accepted() {
    let one = load_model("m", LoadOutcome::Ready { dimension: 1 }).unwrap();
    assert_eq!(one.dimension(), 1);
    let max = load_model("m", LoadOutcome::Ready { dimension: usize::MAX }).unwrap();
    assert_eq!(max.dimension(), usize::MAX);
}

#[test]
fn empty_identifier_is_kept_as_it_is() {
    let handle = load_model("", LoadOutcome::Ready { dimension: 2 }).unwrap();
    assert_eq!(handle.identifier(), "");
}
