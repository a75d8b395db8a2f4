//! Which pairs of vectors have a cosine similarity.
//!
//! The cosine similarity of `a` and `b` is their dot product divided by the
//! product of their Euclidean norms. It is defined when both have the same
//! number of components and neither norm is zero. A pair of unequal lengths
//! is refused, never cut or padded; a vector of norm zero is refused rather
//! than scored with a made-up value.

use vstd::prelude::*;
use crate::embedding::{zero_vector, Embedding};

verus! {

/// Why a pair of vectors has no cosine similarity.
#[derive(Debug, Clone, Copy, PartialEq, Eq, Structural)]
pub enum SimilarityError {
    /// The two vectors differ in length.
    DimensionMismatch,
    /// The lengths agree and one of the vectors has norm zero.
    DegenerateVector,
}

/// Whether `a` and `b` may be scored, and if not, why. Unequal lengths are
/// reported before a zero norm.
pub open spec fn verdict(a: Seq<u32>, b: Seq<u32>) -> Result<(), SimilarityError> {
    if a.len() != b.len() {
        Err(SimilarityError::DimensionMismatch)
    } else if zero_vector(a) || zero_vector(b) {
        Err(SimilarityError::DegenerateVector)
    } else {
        Ok(())
    }
}

/// Decides whether the cosine similarity of `a` and `b` is defined.
pub fn check_pair(a: &Embedding, b: &Embedding) -> (r: Result<(), SimilarityError>)
    ensures
        r == verdict(a@, b@),
{
    if a.dimension() != b.dimension() {
        Err(SimilarityError::DimensionMismatch)
    } else if a.is_zero() || b.is_zero() {
        Err(SimilarityError::DegenerateVector)
    } else {
        Ok(())
    }
}

/// The verdict does not depend on the order of the two vectors.
pub proof fn verdict_symmetric(a: Seq<u32>, b: Seq<u32>)
    ensures
        verdict(a, b) == verdict(b, a),
{
}

/// A vector may be scored against itself exactly when its norm is not zero.
pub proof fn verdict_of_self(a: Seq<u32>)
    ensures
        verdict(a, a) == if zero_vector(a) {
            Err::<(), SimilarityError>(SimilarityError::DegenerateVector)
        } else {
            Ok::<(), SimilarityError>(())
        },
{
}

} // verus!
