//! The Anthropic provider: its settings and the tools that it defines.

pub mod settings;
pub mod provider_tool;
