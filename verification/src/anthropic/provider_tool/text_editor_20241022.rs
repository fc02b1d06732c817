//! The text editor tool (version 20241022): the model views, creates and
//! edits files with string replacement, and may undo an edit.

use vstd::prelude::*;

use crate::tool::{
    approval_requested, args_of, description_of, options_or_default,
    ProviderDefinedToolFactory, ProviderDefinedToolOptions, Tool,
};

verus! {

/// The JSON schema of the tool's input.
pub const INPUT_SCHEMA: &'static str = r#"{
  "type": "object",
  "properties": {
    "command": {
      "type": "string",
      "enum": [
        "view",
        "create",
        "str_replace",
        "insert",
        "undo_edit"
      ],
      "description": "The commands to run. Allowed options are: view, create, str_replace, insert, undo_edit."
    },
    "path": {
      "type": "string",
      "description": "Absolute path to file or directory, e.g. /repo/file.py or /repo."
    },
    "file_text": {
      "type": "string",
      "description": "Required parameter of create command, with the content of the file to be created."
    },
    "insert_line": {
      "type": "integer",
      "description": "Required parameter of insert command. The new_str will be inserted AFTER the line insert_line of path."
    },
    "new_str": {
      "type": "string",
      "description": "Optional parameter of str_replace command containing the new string (if not given, no string will be added). Required parameter of insert command containing the string to insert."
    },
    "old_str": {
      "type": "string",
      "description": "Required parameter of str_replace command containing the string in path to replace."
    },
    "view_range": {
      "type": "array",
      "items": {
        "type": "integer"
      },
      "description": "Optional parameter of view command when path points to a file. If none is given, the full file is shown. If provided, the file will be shown in the indicated line number range, e.g. [11, 12] will show lines 11 and 12. Indexing at 1 to start. Setting [start_line, -1] shows all lines from start_line to the end of the file."
    }
  },
  "required": [
    "command",
    "path"
  ]
}"#;

/// A text editor tool (`anthropic.text_editor_20241022`, called `str_replace_editor`) with the given options, or with
/// the default ones.
pub fn text_editor_20241022(options: Option<ProviderDefinedToolOptions>) -> (t: Tool)
    ensures
        t.is_provider_tool(
            "anthropic.text_editor_20241022"@,
            "str_replace_editor"@,
            INPUT_SCHEMA@,
            None,
            description_of(options),
            approval_requested(options),
            args_of(options),
        ),
{
    let factory = ProviderDefinedToolFactory::new("anthropic.text_editor_20241022", "str_replace_editor", INPUT_SCHEMA);
    factory.create(options_or_default(options))
}

} // verus!
