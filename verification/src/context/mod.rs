//! What is sent to a model: fragments under a token budget, the history of the
//! conversation, and the requests compiled from both.

pub mod assembly;
pub mod budget;
pub mod compaction;
pub mod manager;
pub mod normalize;
pub mod request_compiler;
