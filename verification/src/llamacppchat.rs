//! Prompting local models: model descriptions, the instruction prompt each
//! model family expects, and reading code blocks out of a model's reply.

pub mod model;
pub mod mistral;
pub mod mixtral;
pub mod orca;
pub mod extract_code;
