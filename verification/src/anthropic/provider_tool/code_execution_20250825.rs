//! The code execution tool (version 20250825): the model runs bash commands
//! and edits files in a sandbox.

use vstd::prelude::*;

use crate::tool::{
    approval_requested, args_of, description_of, opt_text, options_or_default,
    ProviderDefinedToolFactory, ProviderDefinedToolOptions, Tool,
};

verus! {

/// The JSON schema of the tool's input.
pub const INPUT_SCHEMA: &'static str = r#"{
  "oneOf": [
    {
      "type": "object",
      "properties": {
        "type": {
          "type": "string",
          "const": "bash_code_execution"
        },
        "command": {
          "type": "string",
          "description": "Shell command to execute."
        }
      },
      "required": [
        "type",
        "command"
      ]
    },
    {
      "type": "object",
      "properties": {
        "type": {
          "type": "string",
          "const": "text_editor_code_execution"
        },
        "command": {
          "type": "string",
          "const": "view"
        },
        "path": {
          "type": "string",
          "description": "The path to the file to view."
        }
      },
      "required": [
        "type",
        "command",
        "path"
      ]
    },
    {
      "type": "object",
      "properties": {
        "type": {
          "type": "string",
          "const": "text_editor_code_execution"
        },
        "command": {
          "type": "string",
          "const": "create"
        },
        "path": {
          "type": "string",
          "description": "The path to the file to edit."
        },
        "file_text": {
          "type": [
            "string",
            "null"
          ],
          "description": "The text of the file to edit."
        }
      },
      "required": [
        "type",
        "command",
        "path"
      ]
    },
    {
      "type": "object",
      "properties": {
        "type": {
          "type": "string",
          "const": "text_editor_code_execution"
        },
        "command": {
          "type": "string",
          "const": "str_replace"
        },
        "path": {
          "type": "string",
          "description": "The path to the file to edit."
        },
        "old_str": {
          "type": "string",
          "description": "The string to replace."
        },
        "new_str": {
          "type": "string",
          "description": "The new string to replace the old string with."
        }
      },
      "required": [
        "type",
        "command",
        "path",
        "old_str",
        "new_str"
      ]
    }
  ]
}"#;

/// The JSON schema of the tool's output.
pub const OUTPUT_SCHEMA: &'static str = r#"{
  "oneOf": [
    {
      "type": "object",
      "properties": {
        "type": {
          "type": "string",
          "const": "bash_code_execution_result"
        },
        "content": {
          "type": "array",
          "items": {
            "type": "object",
            "properties": {
              "type": {
                "type": "string",
                "const": "bash_code_execution_output"
              },
              "file_id": {
                "type": "string"
              }
            },
            "required": [
              "type",
              "file_id"
            ]
          },
          "description": "Output file Id list"
        },
        "stdout": {
          "type": "string",
          "description": "Output from successful execution"
        },
        "stderr": {
          "type": "string",
          "description": "Error messages if execution fails"
        },
        "return_code": {
          "type": "number",
          "description": "0 for success, non-zero for failure"
        }
      },
      "required": [
        "type",
        "content",
        "stdout",
        "stderr",
        "return_code"
      ]
    },
    {
      "type": "object",
      "properties": {
        "type": {
          "type": "string",
          "const": "bash_code_execution_tool_result_error"
        },
        "error_code": {
          "type": "string",
          "description": "Available options: invalid_tool_input, unavailable, too_many_requests, execution_time_exceeded, output_file_too_large."
        }
      },
      "required": [
        "type",
        "error_code"
      ]
    },
    {
      "type": "object",
      "properties": {
        "type": {
          "type": "string",
          "const": "text_editor_code_execution_tool_result_error"
        },
        "error_code": {
          "type": "string",
          "description": "Available options: invalid_tool_input, unavailable, too_many_requests, execution_time_exceeded, file_not_found."
        }
      },
      "required": [
        "type",
        "error_code"
      ]
    },
    {
      "type": "object",
      "properties": {
        "type": {
          "type": "string",
          "const": "text_editor_code_execution_view_result"
        },
        "content": {
          "type": "string"
        },
        "file_type": {
          "type": "string",
          "description": "The type of the file. Available options: text, image, pdf."
        },
        "num_lines": {
          "type": [
            "number",
            "null"
          ]
        },
        "start_line": {
          "type": [
            "number",
            "null"
          ]
        },
        "total_lines": {
          "type": [
            "number",
            "null"
          ]
        }
      },
      "required": [
        "type",
        "content",
        "file_type",
        "num_lines",
        "start_line",
        "total_lines"
      ]
    },
    {
      "type": "object",
      "properties": {
        "type": {
          "type": "string",
          "const": "text_editor_code_execution_create_result"
        },
        "is_file_update": {
          "type": "boolean"
        }
      },
      "required": [
        "type",
        "is_file_update"
      ]
    },
    {
      "type": "object",
      "properties": {
        "type": {
          "type": "string",
          "const": "text_editor_code_execution_str_replace_result"
        },
        "lines": {
          "type": [
            "array",
            "null"
          ],
          "items": {
            "type": "string"
          }
        },
        "new_lines": {
          "type": [
            "number",
            "null"
          ]
        },
        "new_start": {
          "type": [
            "number",
            "null"
          ]
        },
        "old_lines": {
          "type": [
            "number",
            "null"
          ]
        },
        "old_start": {
          "type": [
            "number",
            "null"
          ]
        }
      },
      "required": [
        "type",
        "lines",
        "new_lines",
        "new_start",
        "old_lines",
        "old_start"
      ]
    }
  ]
}"#;

/// The definition from which code execution tools of this version are made.
pub fn create_code_execution_20250825_factory() -> (f: ProviderDefinedToolFactory)
    ensures
        f.id@ == "anthropic.code_execution_20250825"@,
        f.name@ == "code_execution"@,
        f.input_schema@ == INPUT_SCHEMA@,
        opt_text(f.output_schema) == Some(OUTPUT_SCHEMA@),
{
    ProviderDefinedToolFactory::with_output("anthropic.code_execution_20250825", "code_execution", INPUT_SCHEMA, OUTPUT_SCHEMA)
}

/// A code execution tool (`anthropic.code_execution_20250825`, called `code_execution`) with the given options, or with
/// the default ones.
pub fn code_execution_20250825(options: Option<ProviderDefinedToolOptions>) -> (t: Tool)
    ensures
        t.is_provider_tool(
            "anthropic.code_execution_20250825"@,
            "code_execution"@,
            INPUT_SCHEMA@,
            Some(OUTPUT_SCHEMA@),
            description_of(options),
            approval_requested(options),
            args_of(options),
        ),
{
    let factory = create_code_execution_20250825_factory();
    factory.create(options_or_default(options))
}

} // verus!
