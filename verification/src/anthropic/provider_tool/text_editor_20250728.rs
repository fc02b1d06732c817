//! The text editor tool (version 20250728): the model views, creates and
//! edits files with string replacement; there is no undo in this version.

use vstd::prelude::*;

use crate::tool::{opt_text, JsonValue, ProviderDefinedToolFactory, ProviderDefinedToolOptions, Tool};

verus! {

broadcast use vstd::string::group_string_axioms;

/// The JSON schema of the tool's input.
pub const INPUT_SCHEMA: &'static str = r#"{
  "type": "object",
  "properties": {
    "command": {
      "type": "string",
      "enum": [
        "view",
        "create",
        "str_replace",
        "insert"
      ],
      "description": "The commands to run. Allowed options are: view, create, str_replace, insert. Note: undo_edit is not supported in this version of the tool."
    },
    "path": {
      "type": "string",
      "description": "Absolute path to file or directory, e.g. /repo/file.py or /repo."
    },
    "file_text": {
      "type": "string",
      "description": "Required parameter of create command, with the content of the file to be created."
    },
    "insert_line": {
      "type": "integer",
      "description": "Required parameter of insert command. The new_str will be inserted AFTER the line insert_line of path."
    },
    "new_str": {
      "type": "string",
      "description": "Optional parameter of str_replace command containing the new string (if not given, no string will be added). Required parameter of insert command containing the string to insert."
    },
    "old_str": {
      "type": "string",
      "description": "Required parameter of str_replace command containing the string in path to replace."
    },
    "view_range": {
      "type": "array",
      "items": {
        "type": "integer"
      },
      "description": "Optional parameter of view command when path points to a file. If none is given, the full file is shown. If provided, the file will be shown in the indicated line number range, e.g. [11, 12] will show lines 11 and 12. Indexing at 1 to start. Setting [start_line, -1] shows all lines from start_line to the end of the file."
    }
  },
  "required": [
    "command",
    "path"
  ]
}"#;

/// What a text editor builder has been told.
pub struct TextEditor20250728Config {
    pub max_characters: Option<i64>,
    pub description: Option<Seq<char>>,
    pub needs_approval: bool,
}

/// Builds a text editor tool of this version.
#[derive(Debug, Clone)]
pub struct TextEditor20250728Builder {
    max_characters: Option<i64>,
    description: Option<String>,
    needs_approval: bool,
}

impl View for TextEditor20250728Builder {
    type V = TextEditor20250728Config;

    closed spec fn view(&self) -> TextEditor20250728Config {
        TextEditor20250728Config {
            max_characters: self.max_characters,
            description: opt_text(self.description),
            needs_approval: self.needs_approval,
        }
    }
}

/// The arguments of a text editor tool with the given character limit.
pub open spec fn text_editor_args(max_characters: Option<i64>) -> Map<Seq<char>, JsonValue> {
    match max_characters {
        Some(n) => Map::<Seq<char>, JsonValue>::empty().insert("maxCharacters"@, JsonValue::Number(n)),
        None => Map::empty(),
    }
}

impl TextEditor20250728Builder {
    /// A builder with nothing set.
    fn new() -> (b: Self)
        ensures
            b@.max_characters is None,
            b@.description is None,
            !b@.needs_approval,
    {
        TextEditor20250728Builder { max_characters: None, description: None, needs_approval: false }
    }

    /// Limits how many characters a view of a file returns.
    pub fn max_characters(self, max_characters: i64) -> (b: Self)
        ensures
            b@.max_characters == Some(max_characters),
            b@.description == self@.description,
            b@.needs_approval == self@.needs_approval,
    {
        TextEditor20250728Builder { max_characters: Some(max_characters), ..self }
    }

    /// Sets the description.
    pub fn with_description(self, description: &str) -> (b: Self)
        ensures
            b@.max_characters == self@.max_characters,
            b@.description == Some(description@),
            b@.needs_approval == self@.needs_approval,
    {
        TextEditor20250728Builder { description: Some(description.to_string()), ..self }
    }

    /// Sets whether calls wait for approval.
    pub fn with_needs_approval(self, needs_approval: bool) -> (b: Self)
        ensures
            b@.max_characters == self@.max_characters,
            b@.description == self@.description,
            b@.needs_approval == needs_approval,
    {
        TextEditor20250728Builder { needs_approval, ..self }
    }

    /// The tool (`anthropic.text_editor_20250728`, called
    /// `str_replace_based_edit_tool`) with what the builder was told.
    pub fn build(self) -> (t: Tool)
        ensures
            t.is_provider_tool(
                "anthropic.text_editor_20250728"@,
                "str_replace_based_edit_tool"@,
                INPUT_SCHEMA@,
                None,
                self@.description,
                self@.needs_approval,
                text_editor_args(self@.max_characters),
            ),
    {
        let factory = ProviderDefinedToolFactory::new(
            "anthropic.text_editor_20250728",
            "str_replace_based_edit_tool",
            INPUT_SCHEMA,
        );
        let mut opts = ProviderDefinedToolOptions::new();
        if let Some(desc) = &self.description {
            opts = opts.with_description(desc.as_str());
        }
        if self.needs_approval {
            opts = opts.with_needs_approval(true);
        }
        if let Some(max_chars) = self.max_characters {
            opts = opts.with_arg("maxCharacters", JsonValue::Number(max_chars));
        }
        assert(opts.args@ == text_editor_args(self@.max_characters));
        factory.create(opts)
    }
}

/// A builder for a text editor tool of this version, with nothing set.
pub fn text_editor_20250728() -> (b: TextEditor20250728Builder)
    ensures
        b@.max_characters is None,
        b@.description is None,
        !b@.needs_approval,
{
    TextEditor20250728Builder::new()
}

} // verus!
