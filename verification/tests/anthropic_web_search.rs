use llm_kit::anthropic::provider_tool::web_search_20250305::web_search_20250305;
use llm_kit::tool::{JsonValue, NeedsApproval, ToolType};
use serde_json::Value;

fn parse(text: &str) -> Value {
    serde_json::from_str(text).unwrap()
}

fn s(text: &str) -> Value {
    Value::from(text)
}

fn texts(items: &[&str]) -> JsonValue {
    JsonValue::Array(items.iter().map(|t| JsonValue::String(t.to_string())).collect())
}

fn text(t: &str) -> JsonValue {
    JsonValue::String(t.to_string())
}

#[test]
fn test_web_search_20250305_default() {
    let tool = web_search_20250305().build();
    assert!(tool.is_provider_defined());
    let ToolType::ProviderDefined { id, name, args } = &tool.tool_type;
    assert_eq!(id, "anthropic.web_search_20250305");
    assert_eq!(name, "web_search");
    assert!(args.is_empty());
    assert!(!parse(&tool.input_schema).is_null());
    assert!(tool.output_schema.is_some());
    assert!(tool.description.is_none());
}

#[test]
fn test_web_search_20250305_with_max_uses() {
    let tool = web_search_20250305().max_uses(10).build();
    let ToolType::ProviderDefined { args, .. } = &tool.tool_type;
    assert_eq!(args.get("maxUses"), Some(&JsonValue::Number(10)));
}

#[test]
fn test_web_search_20250305_with_allowed_domains() {
    let domains = vec!["example.com".to_string(), "docs.rs".to_string()];
    let tool = web_search_20250305().allowed_domains(domains.clone()).build();
    let ToolType::ProviderDefined { args, .. } = &tool.tool_type;
    assert_eq!(args.get("allowedDomains"), Some(&texts(&["example.com", "docs.rs"])));
}

#[test]
fn test_web_search_20250305_with_blocked_domains() {
    let domains = vec!["spam.com".to_string()];
    let tool = web_search_20250305().blocked_domains(domains.clone()).build();
    let ToolType::ProviderDefined { args, .. } = &tool.tool_type;
    assert_eq!(args.get("blockedDomains"), Some(&texts(&["spam.com"])));
}

#[test]
fn test_web_search_20250305_with_user_location_full() {
    let tool = web_search_20250305()
        .user_location("San Francisco", Some("California"), Some("US"), Some("America/Los_Angeles"))
        .build();
    let ToolType::ProviderDefined { args, .. } = &tool.tool_type;
    let location = args.get("userLocation").expect("userLocation should be set");
    assert_eq!(location.get("type"), Some(&text("approximate")));
    assert_eq!(location.get("city"), Some(&text("San Francisco")));
    assert_eq!(location.get("region"), Some(&text("California")));
    assert_eq!(location.get("country"), Some(&text("US")));
    assert_eq!(location.get("timezone"), Some(&text("America/Los_Angeles")));
}

#[test]
fn test_web_search_20250305_with_user_location_partial() {
    let tool = web_search_20250305()
        .user_location("Tokyo", Some(""), None, Some("Asia/Tokyo"))
        .build();
    let ToolType::ProviderDefined { args, .. } = &tool.tool_type;
    let location = args.get("userLocation").expect("userLocation should be set");
    assert_eq!(location.get("type"), Some(&text("approximate")));
    assert_eq!(location.get("city"), Some(&text("Tokyo")));
    assert_eq!(location.get("region"), Some(&text("")));
    assert!(location.get("country").is_none());
    assert_eq!(location.get("timezone"), Some(&text("Asia/Tokyo")));
}

#[test]
fn test_web_search_20250305_with_description() {
    let tool = web_search_20250305().with_description("Search the web").build();
    assert_eq!(tool.description, Some("Search the web".to_string()));
}

#[test]
fn test_web_search_20250305_with_approval() {
    let tool = web_search_20250305().with_needs_approval(true).build();
    assert!(matches!(tool.needs_approval, NeedsApproval::Yes));
}

#[test]
fn test_web_search_20250305_input_schema() {
    let tool = web_search_20250305().build();
    let schema = parse(&tool.input_schema);
    assert_eq!(schema["type"], "object");
    let properties = &schema["properties"];
    assert!(properties.is_object());
    let query = &properties["query"];
    assert_eq!(query["type"], "string");
    let required = &schema["required"];
    assert!(required.is_array());
    let required_array = required.as_array().unwrap();
    assert!(required_array.contains(&s("query")));
    assert_eq!(required_array.len(), 1);
}

#[test]
fn test_web_search_20250305_output_schema() {
    let tool = web_search_20250305().build();
    let schema = parse(tool.output_schema.as_ref().expect("Should have output schema"));
    assert_eq!(schema["type"], "array");
    let items = &schema["items"];
    assert_eq!(items["type"], "object");
    let properties = &items["properties"];
    assert_eq!(properties["type"]["enum"], Value::Array(vec![s("web_search_result")]));
    assert_eq!(properties["url"]["type"], "string");
    assert_eq!(properties["title"]["type"], "string");
    assert!(properties["pageAge"]["type"].is_array());
    assert_eq!(properties["encryptedContent"]["type"], "string");
    let required = &items["required"];
    assert!(required.is_array());
    let required_array = required.as_array().unwrap();
    assert_eq!(required_array.len(), 5);
    assert!(required_array.contains(&s("type")));
    assert!(required_array.contains(&s("url")));
    assert!(required_array.contains(&s("title")));
    assert!(required_array.contains(&s("pageAge")));
    assert!(required_array.contains(&s("encryptedContent")));
}

#[test]
fn test_web_search_20250305_builder_chaining() {
    let tool = web_search_20250305()
        .max_uses(10)
        .allowed_domains(vec!["example.com".to_string()])
        .blocked_domains(vec!["spam.com".to_string()])
        .user_location("New York", Some("NY"), Some("US"), Some("America/New_York"))
        .with_description("Search the web")
        .with_needs_approval(true)
        .build();
    let ToolType::ProviderDefined { args, .. } = &tool.tool_type;
    assert_eq!(args.get("maxUses"), Some(&JsonValue::Number(10)));
    assert_eq!(args.get("allowedDomains"), Some(&texts(&["example.com"])));
    assert_eq!(args.get("blockedDomains"), Some(&texts(&["spam.com"])));
    let location = args.get("userLocation").expect("userLocation should be set");
    assert_eq!(location.get("type"), Some(&text("approximate")));
    assert_eq!(location.get("city"), Some(&text("New York")));
    assert_eq!(location.get("region"), Some(&text("NY")));
    assert_eq!(location.get("country"), Some(&text("US")));
    assert_eq!(location.get("timezone"), Some(&text("America/New_York")));
    assert_eq!(tool.description, Some("Search the web".to_string()));
    assert!(matches!(tool.needs_approval, NeedsApproval::Yes));
}

#[test]
fn test_web_search_20250305_clone() {
    let tool1 = web_search_20250305().with_description("Web search tool").build();
    let tool2 = tool1.clone();
    assert_eq!(tool1.description, tool2.description);
    assert_eq!(tool1.input_schema, tool2.input_schema);
    assert_eq!(tool1.output_schema, tool2.output_schema);
    let ToolType::ProviderDefined { id: id1, name: name1, .. } = &tool1.tool_type;
    let ToolType::ProviderDefined { id: id2, name: name2, .. } = &tool2.tool_type;
    assert_eq!(id1, id2);
    assert_eq!(name1, name2);
}

#[test]
fn test_web_search_20250305_tool_name() {
    let tool = web_search_20250305().build();
    let ToolType::ProviderDefined { name, .. } = &tool.tool_type;
    assert_eq!(name, "web_search");
}

#[test]
fn test_web_search_20250305_builder_reuse() {
    let builder = web_search_20250305()
        .max_uses(10)
        .user_location("London", Some("England"), Some("UK"), Some("Europe/London"));
    let tool1 = builder.clone().with_description("Tool 1").build();
    let tool2 = builder.with_description("Tool 2").build();
    let ToolType::ProviderDefined { args, .. } = &tool1.tool_type;
    assert_eq!(args.get("maxUses"), Some(&JsonValue::Number(10)));
    assert!(args.get("userLocation").is_some());
    let ToolType::ProviderDefined { args, .. } = &tool2.tool_type;
    assert_eq!(args.get("maxUses"), Some(&JsonValue::Number(10)));
    assert!(args.get("userLocation").is_some());
    assert_eq!(tool1.description, Some("Tool 1".to_string()));
    assert_eq!(tool2.description, Some("Tool 2".to_string()));
}

#[test]
fn user_location_object_lists_type_then_the_parts_given() {
    let tool = web_search_20250305().user_location("Paris", None, Some("FR"), None).build();
    let ToolType::ProviderDefined { args, .. } = &tool.tool_type;
    assert_eq!(
        args.get("userLocation"),
        Some(&JsonValue::Object(vec![
            ("type".to_string(), text("approximate")),
            ("city".to_string(), text("Paris")),
            ("country".to_string(), text("FR")),
        ]))
    );
}
