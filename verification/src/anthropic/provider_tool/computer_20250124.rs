//! The computer tool (version 20250124): the model sees the screen and
//! drives keyboard and mouse, with holding keys, triple clicks, scrolling
//! and waiting besides.

use vstd::prelude::*;

use crate::tool::{JsonValue, ProviderDefinedToolFactory, ProviderDefinedToolOptions, Tool};

verus! {

/// The JSON schema of the tool's input.
pub const INPUT_SCHEMA: &'static str = r#"{
  "type": "object",
  "properties": {
    "action": {
      "type": "string",
      "enum": [
        "key",
        "hold_key",
        "type",
        "cursor_position",
        "mouse_move",
        "left_mouse_down",
        "left_mouse_up",
        "left_click",
        "left_click_drag",
        "right_click",
        "middle_click",
        "double_click",
        "triple_click",
        "scroll",
        "wait",
        "screenshot"
      ],
      "description": "The action to perform."
    },
    "coordinate": {
      "type": "array",
      "items": {
        "type": "integer"
      },
      "minItems": 2,
      "maxItems": 2,
      "description": "(x, y) coordinates. Required for mouse_move, click actions, and scroll."
    },
    "duration": {
      "type": "number",
      "description": "Duration in seconds. Required for hold_key and wait actions."
    },
    "scroll_amount": {
      "type": "number",
      "description": "Number of scroll wheel clicks. Required for scroll action."
    },
    "scroll_direction": {
      "type": "string",
      "enum": [
        "up",
        "down",
        "left",
        "right"
      ],
      "description": "Scroll direction. Required for scroll action."
    },
    "start_coordinate": {
      "type": "array",
      "items": {
        "type": "integer"
      },
      "minItems": 2,
      "maxItems": 2,
      "description": "Starting (x, y) coordinates. Required for left_click_drag."
    },
    "text": {
      "type": "string",
      "description": "Text input. Required for type, key, and hold_key actions. Can be used with clicks to hold keys."
    }
  },
  "required": [
    "action"
  ]
}"#;

/// The arguments of a computer tool for a display of the given size and,
/// where given, number.
pub open spec fn display_args(
    display_width_px: u32,
    display_height_px: u32,
    display_number: Option<u32>,
) -> Map<Seq<char>, JsonValue> {
    let size = Map::<Seq<char>, JsonValue>::empty().insert(
        "display_width_px"@,
        JsonValue::Number(display_width_px as i64),
    ).insert("display_height_px"@, JsonValue::Number(display_height_px as i64));
    match display_number {
        Some(k) => size.insert("display_number"@, JsonValue::Number(k as i64)),
        None => size,
    }
}

/// A computer tool (`anthropic.computer_20250124`, called `computer`) for a display of
/// `display_width_px` by `display_height_px` pixels; `display_number` is the
/// X11 display, where there is one.
pub fn computer_20250124(display_width_px: u32, display_height_px: u32, display_number: Option<u32>) -> (t:
    Tool)
    ensures
        t.is_provider_tool(
            "anthropic.computer_20250124"@,
            "computer"@,
            INPUT_SCHEMA@,
            None,
            None,
            false,
            display_args(display_width_px, display_height_px, display_number),
        ),
{
    let factory = ProviderDefinedToolFactory::new("anthropic.computer_20250124", "computer", INPUT_SCHEMA);
    let mut options = ProviderDefinedToolOptions::new().with_arg(
        "display_width_px",
        JsonValue::Number(display_width_px as i64),
    ).with_arg("display_height_px", JsonValue::Number(display_height_px as i64));
    if let Some(number) = display_number {
        options = options.with_arg("display_number", JsonValue::Number(number as i64));
    }
    factory.create(options)
}

} // verus!
