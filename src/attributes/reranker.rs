//! Reranker keys repeated per position.

pub mod input_documents;
pub mod output_documents;
