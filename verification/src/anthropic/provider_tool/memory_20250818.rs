//! The memory tool (version 20250818): the model keeps files across
//! conversations and views, creates, edits, deletes and renames them.

use vstd::prelude::*;

use crate::tool::{
    approval_requested, args_of, description_of, options_or_default,
    ProviderDefinedToolFactory, ProviderDefinedToolOptions, Tool,
};

verus! {

/// The JSON schema of the tool's input.
pub const INPUT_SCHEMA: &'static str = r#"{
  "oneOf": [
    {
      "type": "object",
      "properties": {
        "command": {
          "type": "string",
          "const": "view"
        },
        "path": {
          "type": "string",
          "description": "The path to the file to view."
        },
        "view_range": {
          "type": "array",
          "items": {
            "type": "number"
          },
          "minItems": 2,
          "maxItems": 2,
          "description": "Optional line range [start, end] to view."
        }
      },
      "required": [
        "command",
        "path"
      ]
    },
    {
      "type": "object",
      "properties": {
        "command": {
          "type": "string",
          "const": "create"
        },
        "path": {
          "type": "string",
          "description": "The path to the file to create."
        },
        "file_text": {
          "type": "string",
          "description": "The content of the file to create."
        }
      },
      "required": [
        "command",
        "path",
        "file_text"
      ]
    },
    {
      "type": "object",
      "properties": {
        "command": {
          "type": "string",
          "const": "str_replace"
        },
        "path": {
          "type": "string",
          "description": "The path to the file to edit."
        },
        "old_str": {
          "type": "string",
          "description": "The string to replace."
        },
        "new_str": {
          "type": "string",
          "description": "The new string to replace with."
        }
      },
      "required": [
        "command",
        "path",
        "old_str",
        "new_str"
      ]
    },
    {
      "type": "object",
      "properties": {
        "command": {
          "type": "string",
          "const": "insert"
        },
        "path": {
          "type": "string",
          "description": "The path to the file to edit."
        },
        "insert_line": {
          "type": "number",
          "description": "The line number to insert at."
        },
        "insert_text": {
          "type": "string",
          "description": "The text to insert."
        }
      },
      "required": [
        "command",
        "path",
        "insert_line",
        "insert_text"
      ]
    },
    {
      "type": "object",
      "properties": {
        "command": {
          "type": "string",
          "const": "delete"
        },
        "path": {
          "type": "string",
          "description": "The path to the file to delete."
        }
      },
      "required": [
        "command",
        "path"
      ]
    },
    {
      "type": "object",
      "properties": {
        "command": {
          "type": "string",
          "const": "rename"
        },
        "old_path": {
          "type": "string",
          "description": "The current path of the file."
        },
        "new_path": {
          "type": "string",
          "description": "The new path for the file."
        }
      },
      "required": [
        "command",
        "old_path",
        "new_path"
      ]
    }
  ]
}"#;

/// A memory tool (`anthropic.memory_20250818`, called `memory`) with the given options, or with
/// the default ones.
pub fn memory_20250818(options: Option<ProviderDefinedToolOptions>) -> (t: Tool)
    ensures
        t.is_provider_tool(
            "anthropic.memory_20250818"@,
            "memory"@,
            INPUT_SCHEMA@,
            None,
            description_of(options),
            approval_requested(options),
            args_of(options),
        ),
{
    let factory = ProviderDefinedToolFactory::new("anthropic.memory_20250818", "memory", INPUT_SCHEMA);
    factory.create(options_or_default(options))
}

} // verus!
