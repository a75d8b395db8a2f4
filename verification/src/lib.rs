//! Shape and admissibility checks for sentence embeddings.
//!
//! An inference backend turns text into vectors of single-precision numbers and
//! a scorer compares two such vectors by the cosine of the angle between them.
//! This crate holds the decisions around those two steps: which backend
//! outcomes yield a usable model handle, which batches of vectors are accepted
//! as the encoding of a batch of sentences, and which pairs of vectors have a
//! cosine similarity at all. Components are carried as IEEE 754 binary32 bit
//! patterns, so every decision is exact.

pub mod embedding;
pub mod model;
pub mod encoder;
pub mod similarity;
