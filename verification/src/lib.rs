//! A verified toolkit for talking to language-model providers: request
//! headers, retry policy, stop conditions, media sniffing, batching of
//! embedding and image calls, provider tool descriptions and the error type.

pub mod headers;
pub mod text;
pub mod metadata;
pub mod error;
pub mod retries;
pub mod embed;
pub mod generated_file;
pub mod generate_image;
pub mod generate_speech;
pub mod tool;
pub mod anthropic;
pub mod output;
pub mod message;
pub mod generate_text;
pub mod prompt;
pub mod agent;
