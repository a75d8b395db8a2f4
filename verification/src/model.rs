//! Model handles, and what becomes of a request to load a model.
//!
//! Resolving an identifier, fetching weights and initialising the network are
//! the inference backend's work. What it reports is a [`LoadOutcome`]; whether
//! that yields a handle, and which error it is otherwise, is decided here.

use vstd::prelude::*;

verus! {

/// The identifier of the ATT&CK BERT sentence-embedding model.
pub const ATTACK_BERT: &'static str = "basel/ATTACK-BERT";

/// What the backend reported of a request to load a model.
#[derive(Debug, Clone, Copy, PartialEq, Eq, Structural)]
pub enum LoadOutcome {
    /// The identifier names no model that the backend knows.
    NotFound,
    /// The model was found and could not be initialised.
    InitFailed,
    /// The model is ready, and its vectors have this many components.
    Ready { dimension: usize },
}

/// Why no handle was made.
#[derive(Debug, Clone, Copy, PartialEq, Eq, Structural)]
pub enum ModelError {
    /// The identifier did not resolve to a model.
    ModelNotFound,
    /// The model was resolved and is not usable.
    ModelLoad,
}

/// What a handle stands for: the model's identifier and the length of every
/// vector that the model produces.
pub struct ModelView {
    pub identifier: Seq<char>,
    pub dimension: nat,
}

/// A loaded model. Its output dimension is positive and never changes.
#[derive(Debug, PartialEq, Eq)]
pub struct ModelHandle {
    identifier: String,
    dimension: usize,
}

impl View for ModelHandle {
    type V = ModelView;

    closed spec fn view(&self) -> ModelView {
        ModelView { identifier: self.identifier@, dimension: self.dimension as nat }
    }
}

/// The handle, or the error, that a load of `identifier` ends in. A backend
/// that reports a ready model without components has not produced a usable
/// model.
pub open spec fn load_result(identifier: Seq<char>, outcome: LoadOutcome) -> Result<
    ModelView,
    ModelError,
> {
    match outcome {
        LoadOutcome::NotFound => Err(ModelError::ModelNotFound),
        LoadOutcome::InitFailed => Err(ModelError::ModelLoad),
        LoadOutcome::Ready { dimension } => if dimension == 0 {
            Err(ModelError::ModelLoad)
        } else {
            Ok(ModelView { identifier, dimension: dimension as nat })
        },
    }
}

impl ModelHandle {
    #[verifier::type_invariant]
    spec fn has_components(self) -> bool {
        self.dimension > 0
    }

    /// The identifier that the model was loaded under.
    pub fn identifier(&self) -> (id: &str)
        ensures
            id@ == self@.identifier,
    {
        self.identifier.as_str()
    }

    /// The length of every vector that the model produces.
    pub fn dimension(&self) -> (d: usize)
        ensures
            d == self@.dimension,
            d > 0,
    {
        proof {
            use_type_invariant(self);
        }
        self.dimension
    }
}

/// Concludes a load of the model named `identifier` with what the backend
/// reported.
pub fn load_model(identifier: &str, outcome: LoadOutcome) -> (r: Result<ModelHandle, ModelError>)
    ensures
        match r {
            Ok(handle) => load_result(identifier@, outcome) == Ok::<ModelView, ModelError>(
                handle@,
            ),
            Err(e) => load_result(identifier@, outcome) == Err::<ModelView, ModelError>(e),
        },
        r matches Ok(handle) ==> handle@.dimension > 0,
{
    match outcome {
        LoadOutcome::NotFound => Err(ModelError::ModelNotFound),
        LoadOutcome::InitFailed => Err(ModelError::ModelLoad),
        LoadOutcome::Ready { dimension } => {
            if dimension == 0 {
                Err(ModelError::ModelLoad)
            } else {
                Ok(ModelHandle { identifier: identifier.to_owned(), dimension })
            }
        },
    }
}

/// Concludes a load of the ATT&CK BERT model with what the backend reported.
pub fn load_attack_bert_model(outcome: LoadOutcome) -> (r: Result<ModelHandle, ModelError>)
    ensures
        match r {
            Ok(handle) => load_result(ATTACK_BERT@, outcome) == Ok::<ModelView, ModelError>(
                handle@,
            ),
            Err(e) => load_result(ATTACK_BERT@, outcome) == Err::<ModelView, ModelError>(e),
        },
        r matches Ok(handle) ==> handle@.dimension > 0,
{
    load_model(ATTACK_BERT, outcome)
}

} // verus!
