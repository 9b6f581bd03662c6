//! Model-call keys repeated per position.

pub mod input_messages;
pub mod output_messages;
pub mod prompts;
pub mod choices;
pub mod tools;
