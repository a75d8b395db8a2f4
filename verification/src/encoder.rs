//! Acceptance of what the backend produced for a batch of sentences.
//!
//! A batch is encoded as a whole or not at all: one vector for each sentence,
//! in the order of the sentences, each of the model's output dimension.
//! Anything else is an error and no vector is handed on.

use vstd::prelude::*;
use crate::embedding::Embedding;
use crate::model::ModelHandle;

verus! {

/// What the backend reported of a request to encode a batch.
#[derive(Debug, PartialEq, Eq)]
pub enum EncodeOutcome {
    /// Inference failed; there are no vectors.
    Failed,
    /// Inference ran and produced these vectors, in this order.
    Produced(Vec<Embedding>),
}

/// Why a batch was not encoded.
#[derive(Debug, Clone, Copy, PartialEq, Eq, Structural)]
pub enum EncodingError {
    /// The backend reported a failure.
    BackendFailed,
    /// The backend produced `produced` vectors for `expected` sentences.
    CountMismatch { expected: usize, produced: usize },
    /// The vector at `index` has `found` components where the model's output
    /// dimension is `expected`. No vector before it is at fault.
    DimensionMismatch { index: usize, expected: usize, found: usize },
}

/// Every vector has `dimension` components.
pub open spec fn uniform(vectors: Seq<Embedding>, dimension: nat) -> bool {
    forall|i: int| 0 <= i < vectors.len() ==> (#[trigger] vectors[i])@.len() == dimension
}

/// The vector at `index` is the first that does not have `dimension`
/// components.
pub open spec fn first_misfit(vectors: Seq<Embedding>, dimension: nat, index: int) -> bool {
    &&& 0 <= index < vectors.len()
    &&& vectors[index]@.len() != dimension
    &&& forall|j: int| 0 <= j < index ==> (#[trigger] vectors[j])@.len() == dimension
}

/// Accepts or refuses what the backend produced for `sentences` under `model`.
///
/// The vectors are handed on unchanged when the backend succeeded, there is
/// one for each sentence and all have the model's output dimension. A wrong
/// count is reported before a wrong dimension, and of wrong dimensions the
/// first.
pub fn encode_sentences(model: &ModelHandle, sentences: &[&str], outcome: EncodeOutcome) -> (r:
    Result<Vec<Embedding>, EncodingError>)
    ensures
        match outcome {
            EncodeOutcome::Failed => r == Err::<Vec<Embedding>, EncodingError>(
                EncodingError::BackendFailed,
            ),
            EncodeOutcome::Produced(vectors) => if vectors@.len() != sentences@.len() {
                r matches Err(EncodingError::CountMismatch { expected, produced })
                    && expected == sentences@.len()
                    && produced == vectors@.len()
            } else if uniform(vectors@, model@.dimension) {
                r == Ok::<Vec<Embedding>, EncodingError>(vectors)
            } else {
                r matches Err(EncodingError::DimensionMismatch { index, expected, found })
                    && first_misfit(vectors@, model@.dimension, index as int)
                    && expected == model@.dimension
                    && found == vectors@[index as int]@.len()
            },
        },
        r matches Ok(vectors) ==> vectors@.len() == sentences@.len() && uniform(
            vectors@,
            model@.dimension,
        ),
{
    match outcome {
        EncodeOutcome::Failed => Err(EncodingError::BackendFailed),
        EncodeOutcome::Produced(vectors) => {
            let expected: usize = model.dimension();
            if vectors.len() != sentences.len() {
                return Err(
                    EncodingError::CountMismatch {
                        expected: sentences.len(),
                        produced: vectors.len(),
                    },
                );
            }
            let mut i: usize = 0;
            while i < vectors.len()
                invariant
                    i <= vectors.len(),
                    outcome == EncodeOutcome::Produced(vectors),
                    vectors@.len() == sentences@.len(),
                    expected == model@.dimension,
                    forall|j: int| 0 <= j < i ==> (#[trigger] vectors@[j])@.len() == expected,
                decreases vectors.len() - i,
            {
                let found: usize = vectors[i].dimension();
                if found != expected {
                    return Err(EncodingError::DimensionMismatch { index: i, expected, found });
                }
                i += 1;
            }
            Ok(vectors)
        },
    }
}

} // verus!
