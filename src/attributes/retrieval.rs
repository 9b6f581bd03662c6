//! Retrieval keys repeated per position.

pub mod documents;
