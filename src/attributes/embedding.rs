//! Embedding keys repeated per position.

pub mod embeddings;
