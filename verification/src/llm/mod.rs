pub mod types;
pub mod stream;
pub mod sse;
pub mod anthropic;
pub mod openai;
pub mod gemini;
pub mod config;
pub mod fake;
pub mod body_json;
