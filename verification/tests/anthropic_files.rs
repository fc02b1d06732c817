use llm_kit::anthropic::provider_tool::bash_20241022::{bash_20241022, create_bash_20241022_factory};
use llm_kit::anthropic::provider_tool::memory_20250818::memory_20250818;
use llm_kit::anthropic::provider_tool::text_editor_20241022::text_editor_20241022;
use llm_kit::anthropic::provider_tool::text_editor_20250728::text_editor_20250728;
use llm_kit::tool::{JsonValue, NeedsApproval, ProviderDefinedToolOptions, ToolType};
use serde_json::Value;

fn parse(text: &str) -> Value {
    serde_json::from_str(text).unwrap()
}

fn s(text: &str) -> Value {
    Value::from(text)
}

fn texts(items: &[&str]) -> JsonValue {
    JsonValue::Array(items.iter().map(|t| JsonValue::String(t.to_string())).collect())
}

#[test]
fn test_bash_20241022_default() {
    let tool = bash_20241022(None);
    assert!(tool.is_provider_defined());
    let ToolType::ProviderDefined { id, name, args } = &tool.tool_type;
    assert_eq!(id, "anthropic.bash_20241022");
    assert_eq!(name, "bash");
    assert!(args.is_empty());
    assert!(!parse(&tool.input_schema).is_null());
    assert!(tool.output_schema.is_none());
    assert!(tool.description.is_none());
}

#[test]
fn test_bash_20241022_with_description() {
    let tool = bash_20241022(Some(ProviderDefinedToolOptions::new().with_description("Execute bash commands")));
    assert_eq!(tool.description, Some("Execute bash commands".to_string()));
}

#[test]
fn test_bash_20241022_with_approval() {
    let tool = bash_20241022(Some(ProviderDefinedToolOptions::new().with_needs_approval(true)));
    assert!(matches!(tool.needs_approval, NeedsApproval::Yes));
}

#[test]
fn test_bash_20241022_input_schema() {
    let tool = bash_20241022(None);
    let schema = parse(&tool.input_schema);
    assert_eq!(schema["type"], "object");
    let properties = &schema["properties"];
    assert!(properties.is_object());
    assert!(properties.get("command").is_some());
    assert!(properties.get("restart").is_some());
    let command = &properties["command"];
    assert_eq!(command["type"], "string");
    assert!(command.get("description").is_some());
    let restart = &properties["restart"];
    assert_eq!(restart["type"], "boolean");
    assert!(restart.get("description").is_some());
}

#[test]
fn test_bash_20241022_factory_reuse() {
    let factory = create_bash_20241022_factory();
    let tool1 = factory.create(ProviderDefinedToolOptions::new().with_description("Tool 1"));
    let tool2 = factory.create(ProviderDefinedToolOptions::new().with_description("Tool 2"));
    assert_eq!(tool1.description, Some("Tool 1".to_string()));
    assert_eq!(tool2.description, Some("Tool 2".to_string()));
    let ToolType::ProviderDefined { id: id1, name: name1, .. } = &tool1.tool_type;
    let ToolType::ProviderDefined { id: id2, name: name2, .. } = &tool2.tool_type;
    assert_eq!(id1, id2);
    assert_eq!(name1, name2);
}

#[test]
fn test_bash_20241022_clone() {
    let tool1 = bash_20241022(Some(ProviderDefinedToolOptions::new().with_description("Bash tool")));
    let tool2 = tool1.clone();
    assert_eq!(tool1.description, tool2.description);
    assert_eq!(tool1.input_schema, tool2.input_schema);
    let ToolType::ProviderDefined { id: id1, .. } = &tool1.tool_type;
    let ToolType::ProviderDefined { id: id2, .. } = &tool2.tool_type;
    assert_eq!(id1, id2);
}

#[test]
fn test_bash_20241022_with_args() {
    let tool = bash_20241022(Some(
        ProviderDefinedToolOptions::new()
            .with_arg("timeout", JsonValue::Number(30))
            .with_arg("shell", JsonValue::String("/bin/bash".to_string())),
    ));
    let ToolType::ProviderDefined { args, .. } = &tool.tool_type;
    assert_eq!(args.get("timeout"), Some(&JsonValue::Number(30)));
    assert_eq!(args.get("shell"), Some(&JsonValue::String("/bin/bash".to_string())));
}

#[test]
fn test_memory_20250818_default() {
    let tool = memory_20250818(None);
    assert!(tool.is_provider_defined());
    let ToolType::ProviderDefined { id, name, args } = &tool.tool_type;
    assert_eq!(id, "anthropic.memory_20250818");
    assert_eq!(name, "memory");
    assert!(args.is_empty());
    assert!(!parse(&tool.input_schema).is_null());
    assert!(tool.output_schema.is_none());
    assert!(tool.description.is_none());
}

#[test]
fn test_memory_20250818_with_description() {
    let tool = memory_20250818(Some(ProviderDefinedToolOptions::new().with_description("Store and retrieve information")));
    assert_eq!(tool.description, Some("Store and retrieve information".to_string()));
}

#[test]
fn test_memory_20250818_with_approval() {
    let tool = memory_20250818(Some(ProviderDefinedToolOptions::new().with_needs_approval(true)));
    assert!(matches!(tool.needs_approval, NeedsApproval::Yes));
}

#[test]
fn test_memory_20250818_input_schema() {
    let tool = memory_20250818(None);
    let schema = parse(&tool.input_schema);
    assert!(schema.get("oneOf").is_some());
    let one_of = schema["oneOf"].as_array().unwrap();
    assert_eq!(one_of.len(), 6);
    assert_eq!(one_of[0]["properties"]["command"]["const"], "view");
    assert_eq!(one_of[1]["properties"]["command"]["const"], "create");
    assert_eq!(one_of[2]["properties"]["command"]["const"], "str_replace");
    assert_eq!(one_of[3]["properties"]["command"]["const"], "insert");
    assert_eq!(one_of[4]["properties"]["command"]["const"], "delete");
    assert_eq!(one_of[5]["properties"]["command"]["const"], "rename");
}

#[test]
fn test_memory_20250818_view_command_schema() {
    let tool = memory_20250818(None);
    let schema = parse(&tool.input_schema);
    let one_of = schema["oneOf"].as_array().unwrap();
    let view_cmd = &one_of[0];
    let properties = &view_cmd["properties"];
    assert_eq!(properties["command"]["const"], "view");
    assert!(properties.get("path").is_some());
    assert!(properties.get("view_range").is_some());
    let view_range = &properties["view_range"];
    assert_eq!(view_range["type"], "array");
    assert_eq!(view_range["minItems"], 2);
    assert_eq!(view_range["maxItems"], 2);
    let required = view_cmd["required"].as_array().unwrap();
    assert!(required.contains(&s("command")));
    assert!(required.contains(&s("path")));
    assert!(!required.contains(&s("view_range")));
}

#[test]
fn test_memory_20250818_create_command_schema() {
    let tool = memory_20250818(None);
    let schema = parse(&tool.input_schema);
    let one_of = schema["oneOf"].as_array().unwrap();
    let create_cmd = &one_of[1];
    let properties = &create_cmd["properties"];
    assert_eq!(properties["command"]["const"], "create");
    assert!(properties.get("path").is_some());
    assert!(properties.get("file_text").is_some());
    let required = create_cmd["required"].as_array().unwrap();
    assert!(required.contains(&s("command")));
    assert!(required.contains(&s("path")));
    assert!(required.contains(&s("file_text")));
}

#[test]
fn test_memory_20250818_str_replace_command_schema() {
    let tool = memory_20250818(None);
    let schema = parse(&tool.input_schema);
    let one_of = schema["oneOf"].as_array().unwrap();
    let replace_cmd = &one_of[2];
    let properties = &replace_cmd["properties"];
    assert_eq!(properties["command"]["const"], "str_replace");
    assert!(properties.get("path").is_some());
    assert!(properties.get("old_str").is_some());
    assert!(properties.get("new_str").is_some());
    let required = replace_cmd["required"].as_array().unwrap();
    assert_eq!(required.len(), 4);
}

#[test]
fn test_memory_20250818_insert_command_schema() {
    let tool = memory_20250818(None);
    let schema = parse(&tool.input_schema);
    let one_of = schema["oneOf"].as_array().unwrap();
    let insert_cmd = &one_of[3];
    let properties = &insert_cmd["properties"];
    assert_eq!(properties["command"]["const"], "insert");
    assert!(properties.get("path").is_some());
    assert!(properties.get("insert_line").is_some());
    assert!(properties.get("insert_text").is_some());
    assert_eq!(properties["insert_line"]["type"], "number");
}

#[test]
fn test_memory_20250818_delete_command_schema() {
    let tool = memory_20250818(None);
    let schema = parse(&tool.input_schema);
    let one_of = schema["oneOf"].as_array().unwrap();
    let delete_cmd = &one_of[4];
    let properties = &delete_cmd["properties"];
    assert_eq!(properties["command"]["const"], "delete");
    assert!(properties.get("path").is_some());
    let required = delete_cmd["required"].as_array().unwrap();
    assert_eq!(required.len(), 2);
}

#[test]
fn test_memory_20250818_rename_command_schema() {
    let tool = memory_20250818(None);
    let schema = parse(&tool.input_schema);
    let one_of = schema["oneOf"].as_array().unwrap();
    let rename_cmd = &one_of[5];
    let properties = &rename_cmd["properties"];
    assert_eq!(properties["command"]["const"], "rename");
    assert!(properties.get("old_path").is_some());
    assert!(properties.get("new_path").is_some());
    let required = rename_cmd["required"].as_array().unwrap();
    assert!(required.contains(&s("command")));
    assert!(required.contains(&s("old_path")));
    assert!(required.contains(&s("new_path")));
}

#[test]
fn test_memory_20250818_clone() {
    let tool1 = memory_20250818(Some(ProviderDefinedToolOptions::new().with_description("Memory tool")));
    let tool2 = tool1.clone();
    assert_eq!(tool1.description, tool2.description);
    assert_eq!(tool1.input_schema, tool2.input_schema);
    let ToolType::ProviderDefined { id: id1, .. } = &tool1.tool_type;
    let ToolType::ProviderDefined { id: id2, .. } = &tool2.tool_type;
    assert_eq!(id1, id2);
}

#[test]
fn test_memory_20250818_with_args() {
    let tool = memory_20250818(Some(
        ProviderDefinedToolOptions::new()
            .with_arg("max_file_size", JsonValue::Number(1048576))
            .with_arg("allowed_paths", texts(&["/"])),
    ));
    let ToolType::ProviderDefined { args, .. } = &tool.tool_type;
    assert_eq!(args.get("max_file_size"), Some(&JsonValue::Number(1048576)));
    assert_eq!(args.get("allowed_paths"), Some(&texts(&["/"])));
}

#[test]
fn test_text_editor_20241022_default() {
    let tool = text_editor_20241022(None);
    assert!(tool.is_provider_defined());
    let ToolType::ProviderDefined { id, name, args } = &tool.tool_type;
    assert_eq!(id, "anthropic.text_editor_20241022");
    assert_eq!(name, "str_replace_editor");
    assert!(args.is_empty());
    assert!(!parse(&tool.input_schema).is_null());
    assert!(tool.output_schema.is_none());
    assert!(tool.description.is_none());
}

#[test]
fn test_text_editor_20241022_with_description() {
    let tool = text_editor_20241022(Some(ProviderDefinedToolOptions::new().with_description("Edit and view files")));
    assert_eq!(tool.description, Some("Edit and view files".to_string()));
}

#[test]
fn test_text_editor_20241022_with_approval() {
    let tool = text_editor_20241022(Some(ProviderDefinedToolOptions::new().with_needs_approval(true)));
    assert!(matches!(tool.needs_approval, NeedsApproval::Yes));
}

#[test]
fn test_text_editor_20241022_input_schema() {
    let tool = text_editor_20241022(None);
    let schema = parse(&tool.input_schema);
    assert_eq!(schema["type"], "object");
    let properties = &schema["properties"];
    assert!(properties.is_object());
    let command = &properties["command"];
    assert_eq!(command["type"], "string");
    assert!(command.get("enum").is_some());
    let enum_values = command["enum"].as_array().unwrap();
    assert_eq!(enum_values.len(), 5);
    assert!(enum_values.contains(&s("view")));
    assert!(enum_values.contains(&s("create")));
    assert!(enum_values.contains(&s("str_replace")));
    assert!(enum_values.contains(&s("insert")));
    assert!(enum_values.contains(&s("undo_edit")));
    assert_eq!(properties["path"]["type"], "string");
    assert_eq!(properties["file_text"]["type"], "string");
    assert_eq!(properties["insert_line"]["type"], "integer");
    assert_eq!(properties["new_str"]["type"], "string");
    assert_eq!(properties["old_str"]["type"], "string");
    let view_range = &properties["view_range"];
    assert_eq!(view_range["type"], "array");
    assert_eq!(view_range["items"]["type"], "integer");
    let required = &schema["required"];
    assert!(required.is_array());
    let required_array = required.as_array().unwrap();
    assert!(required_array.contains(&s("command")));
    assert!(required_array.contains(&s("path")));
    assert_eq!(required_array.len(), 2);
}

#[test]
fn test_text_editor_20241022_all_commands() {
    let tool = text_editor_20241022(None);
    let schema = parse(&tool.input_schema);
    let command_enum = schema["properties"]["command"]["enum"].as_array().unwrap();
    let expected_commands = vec!["view", "create", "str_replace", "insert", "undo_edit"];
    assert_eq!(command_enum.len(), expected_commands.len());
    for command in expected_commands {
        assert!(command_enum.contains(&s(command)), "Missing command: {}", command);
    }
}

#[test]
fn test_text_editor_20241022_clone() {
    let tool1 = text_editor_20241022(Some(ProviderDefinedToolOptions::new().with_description("Text editor tool")));
    let tool2 = tool1.clone();
    assert_eq!(tool1.description, tool2.description);
    assert_eq!(tool1.input_schema, tool2.input_schema);
    let ToolType::ProviderDefined { id: id1, name: name1, .. } = &tool1.tool_type;
    let ToolType::ProviderDefined { id: id2, name: name2, .. } = &tool2.tool_type;
    assert_eq!(id1, id2);
    assert_eq!(name1, name2);
}

#[test]
fn test_text_editor_20241022_with_args() {
    let tool = text_editor_20241022(Some(
        ProviderDefinedToolOptions::new()
            .with_arg("max_file_size", JsonValue::Number(1048576))
            .with_arg("allowed_extensions", texts(&[".txt", ".py", ".rs"])),
    ));
    let ToolType::ProviderDefined { args, .. } = &tool.tool_type;
    assert_eq!(args.get("max_file_size"), Some(&JsonValue::Number(1048576)));
    assert_eq!(args.get("allowed_extensions"), Some(&texts(&[".txt", ".py", ".rs"])));
}

#[test]
fn test_text_editor_20241022_tool_name() {
    let tool = text_editor_20241022(None);
    let ToolType::ProviderDefined { name, .. } = &tool.tool_type;
    assert_eq!(name, "str_replace_editor");
}

#[test]
fn test_text_editor_20250728_default() {
    let tool = text_editor_20250728().build();
    assert!(tool.is_provider_defined());
    let ToolType::ProviderDefined { id, name, args } = &tool.tool_type;
    assert_eq!(id, "anthropic.text_editor_20250728");
    assert_eq!(name, "str_replace_based_edit_tool");
    assert!(args.is_empty());
    assert!(!parse(&tool.input_schema).is_null());
    assert!(tool.output_schema.is_none());
    assert!(tool.description.is_none());
}

#[test]
fn test_text_editor_20250728_with_max_characters() {
    let tool = text_editor_20250728().max_characters(10000).build();
    let ToolType::ProviderDefined { args, .. } = &tool.tool_type;
    assert_eq!(args.get("maxCharacters"), Some(&JsonValue::Number(10000)));
}

#[test]
fn test_text_editor_20250728_with_description() {
    let tool = text_editor_20250728().with_description("Edit and view files").build();
    assert_eq!(tool.description, Some("Edit and view files".to_string()));
}

#[test]
fn test_text_editor_20250728_with_approval() {
    let tool = text_editor_20250728().with_needs_approval(true).build();
    assert!(matches!(tool.needs_approval, NeedsApproval::Yes));
}

#[test]
fn test_text_editor_20250728_input_schema() {
    let tool = text_editor_20250728().build();
    let schema = parse(&tool.input_schema);
    assert_eq!(schema["type"], "object");
    let properties = &schema["properties"];
    assert!(properties.is_object());
    let command = &properties["command"];
    assert_eq!(command["type"], "string");
    assert!(command.get("enum").is_some());
    let enum_values = command["enum"].as_array().unwrap();
    assert_eq!(enum_values.len(), 4);
    assert!(enum_values.contains(&s("view")));
    assert!(enum_values.contains(&s("create")));
    assert!(enum_values.contains(&s("str_replace")));
    assert!(enum_values.contains(&s("insert")));
    assert!(!enum_values.contains(&s("undo_edit")));
    let path = &properties["path"];
    assert_eq!(path["type"], "string");
    let required = &schema["required"];
    assert!(required.is_array());
    let required_array = required.as_array().unwrap();
    assert!(required_array.contains(&s("command")));
    assert!(required_array.contains(&s("path")));
    assert_eq!(required_array.len(), 2);
}

#[test]
fn test_text_editor_20250728_all_commands() {
    let tool = text_editor_20250728().build();
    let schema = parse(&tool.input_schema);
    let command_enum = schema["properties"]["command"]["enum"].as_array().unwrap();
    let expected_commands = vec!["view", "create", "str_replace", "insert"];
    assert_eq!(command_enum.len(), expected_commands.len());
    for command in expected_commands {
        assert!(command_enum.contains(&s(command)), "Missing command: {}", command);
    }
}

#[test]
fn test_text_editor_20250728_no_undo_edit() {
    let tool = text_editor_20250728().build();
    let schema = parse(&tool.input_schema);
    let command_enum = schema["properties"]["command"]["enum"].as_array().unwrap();
    assert!(!command_enum.contains(&s("undo_edit")));
}

#[test]
fn test_text_editor_20250728_clone() {
    let tool1 = text_editor_20250728().with_description("Text editor tool").build();
    let tool2 = tool1.clone();
    assert_eq!(tool1.description, tool2.description);
    assert_eq!(tool1.input_schema, tool2.input_schema);
    let ToolType::ProviderDefined { id: id1, name: name1, .. } = &tool1.tool_type;
    let ToolType::ProviderDefined { id: id2, name: name2, .. } = &tool2.tool_type;
    assert_eq!(id1, id2);
    assert_eq!(name1, name2);
}

#[test]
fn test_text_editor_20250728_builder_chaining() {
    let tool = text_editor_20250728()
        .max_characters(5000)
        .with_description("Text editor with truncation")
        .with_needs_approval(true)
        .build();
    let ToolType::ProviderDefined { args, .. } = &tool.tool_type;
    assert_eq!(args.get("maxCharacters"), Some(&JsonValue::Number(5000)));
    assert_eq!(tool.description, Some("Text editor with truncation".to_string()));
    assert!(matches!(tool.needs_approval, NeedsApproval::Yes));
}

#[test]
fn test_text_editor_20250728_tool_name() {
    let tool = text_editor_20250728().build();
    let ToolType::ProviderDefined { name, .. } = &tool.tool_type;
    assert_eq!(name, "str_replace_based_edit_tool");
}

#[test]
fn test_text_editor_20250728_builder_reuse() {
    let builder = text_editor_20250728().max_characters(8000);
    let tool1 = builder.clone().with_description("Tool 1").build();
    let tool2 = builder.with_description("Tool 2").build();
    let ToolType::ProviderDefined { args, .. } = &tool1.tool_type;
    assert_eq!(args.get("maxCharacters"), Some(&JsonValue::Number(8000)));
    let ToolType::ProviderDefined { args, .. } = &tool2.tool_type;
    assert_eq!(args.get("maxCharacters"), Some(&JsonValue::Number(8000)));
    assert_eq!(tool1.description, Some("Tool 1".to_string()));
    assert_eq!(tool2.description, Some("Tool 2".to_string()));
}

#[test]
fn approval_can_be_switched_off_again() {
    let tool = text_editor_20250728().with_needs_approval(true).with_needs_approval(false).build();
    assert!(matches!(tool.needs_approval, NeedsApproval::No));
}
