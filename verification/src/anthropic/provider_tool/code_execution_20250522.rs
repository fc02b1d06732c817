//! The code execution tool (version 20250522): the model runs Python code
//! in a sandbox and reads its output.

use vstd::prelude::*;

use crate::tool::{
    approval_requested, args_of, description_of, opt_text, options_or_default,
    ProviderDefinedToolFactory, ProviderDefinedToolOptions, Tool,
};

verus! {

/// The JSON schema of the tool's input.
pub const INPUT_SCHEMA: &'static str = r#"{
  "type": "object",
  "properties": {
    "code": {
      "type": "string",
      "description": "The Python code to execute."
    }
  },
  "required": [
    "code"
  ]
}"#;

/// The JSON schema of the tool's output.
pub const OUTPUT_SCHEMA: &'static str = r#"{
  "type": "object",
  "properties": {
    "type": {
      "type": "string",
      "const": "code_execution_result"
    },
    "stdout": {
      "type": "string",
      "description": "Standard output from the code execution"
    },
    "stderr": {
      "type": "string",
      "description": "Standard error from the code execution"
    },
    "return_code": {
      "type": "number",
      "description": "Exit code from the code execution"
    }
  },
  "required": [
    "type",
    "stdout",
    "stderr",
    "return_code"
  ]
}"#;

/// The definition from which code execution tools of this version are made.
pub fn create_code_execution_20250522_factory() -> (f: ProviderDefinedToolFactory)
    ensures
        f.id@ == "anthropic.code_execution_20250522"@,
        f.name@ == "code_execution"@,
        f.input_schema@ == INPUT_SCHEMA@,
        opt_text(f.output_schema) == Some(OUTPUT_SCHEMA@),
{
    ProviderDefinedToolFactory::with_output("anthropic.code_execution_20250522", "code_execution", INPUT_SCHEMA, OUTPUT_SCHEMA)
}

/// A code execution tool (`anthropic.code_execution_20250522`, called `code_execution`) with the given options, or with
/// the default ones.
pub fn code_execution_20250522(options: Option<ProviderDefinedToolOptions>) -> (t: Tool)
    ensures
        t.is_provider_tool(
            "anthropic.code_execution_20250522"@,
            "code_execution"@,
            INPUT_SCHEMA@,
            Some(OUTPUT_SCHEMA@),
            description_of(options),
            approval_requested(options),
            args_of(options),
        ),
{
    let factory = create_code_execution_20250522_factory();
    factory.create(options_or_default(options))
}

} // verus!
