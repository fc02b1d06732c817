//! The computer tool (version 20241022): the model sees the screen and
//! drives keyboard and mouse.

use vstd::prelude::*;

use crate::tool::{JsonValue, ProviderDefinedToolFactory, ProviderDefinedToolOptions, Tool};

verus! {

/// The JSON schema of the tool's input.
pub const INPUT_SCHEMA: &'static str = r#"{
  "type": "object",
  "properties": {
    "action": {
      "type": "string",
      "enum": [
        "key",
        "type",
        "mouse_move",
        "left_click",
        "left_click_drag",
        "right_click",
        "middle_click",
        "double_click",
        "screenshot",
        "cursor_position"
      ],
      "description": "The action to perform."
    },
    "coordinate": {
      "type": "array",
      "items": {
        "type": "integer"
      },
      "description": "(x, y) coordinates. Required for mouse_move and left_click_drag."
    },
    "text": {
      "type": "string",
      "description": "Required for type and key actions."
    }
  },
  "required": [
    "action"
  ]
}"#;

/// The arguments of a computer tool for a display of the given size and,
/// where given, number.
pub open spec fn display_args(
    display_width_px: u32,
    display_height_px: u32,
    display_number: Option<u32>,
) -> Map<Seq<char>, JsonValue> {
    let size = Map::<Seq<char>, JsonValue>::empty().insert(
        "display_width_px"@,
        JsonValue::Number(display_width_px as i64),
    ).insert("display_height_px"@, JsonValue::Number(display_height_px as i64));
    match display_number {
        Some(k) => size.insert("display_number"@, JsonValue::Number(k as i64)),
        None => size,
    }
}

/// A computer tool (`anthropic.computer_20241022`, called `computer`) for a display of
/// `display_width_px` by `display_height_px` pixels; `display_number` is the
/// X11 display, where there is one.
pub fn computer_20241022(display_width_px: u32, display_height_px: u32, display_number: Option<u32>) -> (t:
    Tool)
    ensures
        t.is_provider_tool(
            "anthropic.computer_20241022"@,
            "computer"@,
            INPUT_SCHEMA@,
            None,
            None,
            false,
            display_args(display_width_px, display_height_px, display_number),
        ),
{
    let factory = ProviderDefinedToolFactory::new("anthropic.computer_20241022", "computer", INPUT_SCHEMA);
    let mut options = ProviderDefinedToolOptions::new().with_arg(
        "display_width_px",
        JsonValue::Number(display_width_px as i64),
    ).with_arg("display_height_px", JsonValue::Number(display_height_px as i64));
    if let Some(number) = display_number {
        options = options.with_arg("display_number", JsonValue::Number(number as i64));
    }
    factory.create(options)
}

} // verus!
