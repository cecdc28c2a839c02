//! The DeepSeek provider: the models it knows, the requests it is sent over the
//! OpenAI-compatible chat completions API, and the stream it answers with.

pub mod framing;
pub mod models;
pub mod provider;
pub mod request;
pub mod stream;
