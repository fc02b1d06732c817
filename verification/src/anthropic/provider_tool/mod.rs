//! Tools that Anthropic defines and runs on its side.

pub mod bash_20241022;
pub mod code_execution_20250522;
pub mod code_execution_20250825;
pub mod computer_20241022;
pub mod computer_20250124;
pub mod memory_20250818;
pub mod text_editor_20241022;
pub mod text_editor_20250728;
pub mod web_fetch_20250910;
pub mod web_search_20250305;
