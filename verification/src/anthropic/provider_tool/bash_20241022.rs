//! The bash tool (version 20241022): the model runs shell commands in a
//! sandbox and may restart the session.

use vstd::prelude::*;

use crate::tool::{
    approval_requested, args_of, description_of, options_or_default,
    ProviderDefinedToolFactory, ProviderDefinedToolOptions, Tool,
};

verus! {

/// The JSON schema of the tool's input.
pub const INPUT_SCHEMA: &'static str = r#"{
  "type": "object",
  "properties": {
    "command": {
      "type": "string",
      "description": "The bash command to run. Required unless the tool is being restarted."
    },
    "restart": {
      "type": "boolean",
      "description": "Specifying true will restart this tool. Otherwise, leave this unspecified."
    }
  }
}"#;

/// The definition from which bash tools are made.
pub fn create_bash_20241022_factory() -> (f: ProviderDefinedToolFactory)
    ensures
        f.id@ == "anthropic.bash_20241022"@,
        f.name@ == "bash"@,
        f.input_schema@ == INPUT_SCHEMA@,
        f.output_schema is None,
{
    ProviderDefinedToolFactory::new("anthropic.bash_20241022", "bash", INPUT_SCHEMA)
}

/// A bash tool (`anthropic.bash_20241022`, called `bash`) with the given
/// options, or with the default ones.
pub fn bash_20241022(options: Option<ProviderDefinedToolOptions>) -> (t: Tool)
    ensures
        t.is_provider_tool(
            "anthropic.bash_20241022"@,
            "bash"@,
            INPUT_SCHEMA@,
            None,
            description_of(options),
            approval_requested(options),
            args_of(options),
        ),
{
    let factory = create_bash_20241022_factory();
    factory.create(options_or_default(options))
}

} // verus!
