use llm_kit::error::{
    AISDKError, InvalidArgumentErrorBuilder, InvalidPromptErrorBuilder,
    InvalidStreamPartErrorBuilder, InvalidToolInputErrorBuilder, ModelErrorBuilder,
    NoImageGeneratedErrorBuilder,
};
use llm_kit::metadata::ImageModelResponseMetadata;

#[test]
fn test_invalid_argument_simple() {
    let error = AISDKError::invalid_argument("temperature", &3.0f64.to_string(), "must be between 0 and 2");
    match error {
        AISDKError::InvalidArgument { parameter, value, message } => {
            assert_eq!(parameter, "temperature");
            assert_eq!(value, "3");
            assert_eq!(message, "must be between 0 and 2");
        }
        _ => panic!("Expected InvalidArgument"),
    }
}

#[test]
fn test_invalid_argument_builder() {
    let error = InvalidArgumentErrorBuilder::new("max_tokens")
        .value(&(-100).to_string())
        .message("must be positive")
        .build();
    match error {
        AISDKError::InvalidArgument { parameter, value, message } => {
            assert_eq!(parameter, "max_tokens");
            assert_eq!(value, "-100");
            assert_eq!(message, "must be positive");
        }
        _ => panic!("Expected InvalidArgument"),
    }
}

#[test]
fn test_invalid_argument_builder_via_error() {
    let error = AISDKError::invalid_argument_builder("frequency_penalty")
        .value(&5.0f64.to_string())
        .message("must be between -2.0 and 2.0")
        .build();
    match error {
        AISDKError::InvalidArgument { parameter, value, message } => {
            assert_eq!(parameter, "frequency_penalty");
            assert_eq!(value, "5");
            assert_eq!(message, "must be between -2.0 and 2.0");
        }
        _ => panic!("Expected InvalidArgument"),
    }
}

#[test]
fn test_invalid_argument_builder_minimal() {
    let error = InvalidArgumentErrorBuilder::new("param").build();
    match error {
        AISDKError::InvalidArgument { parameter, value, message } => {
            assert_eq!(parameter, "param");
            assert_eq!(value, "unknown");
            assert_eq!(message, "invalid value");
        }
        _ => panic!("Expected InvalidArgument"),
    }
}

#[test]
fn test_invalid_argument_display() {
    let error = AISDKError::invalid_argument("temperature", &3.0f64.to_string(), "must be between 0 and 2");
    let display = error.to_display_string();
    assert!(display.contains("temperature"));
    assert!(display.contains("must be between 0 and 2"));
    assert!(display.contains("3"));
    assert_eq!(
        display,
        "Invalid argument for parameter 'temperature': must be between 0 and 2 (value: 3)"
    );
}

#[test]
fn test_invalid_argument_with_string_value() {
    let error = AISDKError::invalid_argument("model", "invalid-model", "model not found");
    match error {
        AISDKError::InvalidArgument { parameter, value, message } => {
            assert_eq!(parameter, "model");
            assert_eq!(value, "invalid-model");
            assert_eq!(message, "model not found");
        }
        _ => panic!("Expected InvalidArgument"),
    }
}

#[test]
fn test_invalid_argument_with_complex_type() {
    struct ComplexType {
        field: String,
    }
    impl std::fmt::Display for ComplexType {
        fn fmt(&self, f: &mut std::fmt::Formatter<'_>) -> std::fmt::Result {
            f.write_str(&format!("ComplexType({})", self.field))
        }
    }
    let complex = ComplexType { field: "test".to_string() };
    let error = AISDKError::invalid_argument("config", &complex.to_string(), "invalid configuration");
    match error {
        AISDKError::InvalidArgument { parameter, value, message } => {
            assert_eq!(parameter, "config");
            assert_eq!(value, "ComplexType(test)");
            assert_eq!(message, "invalid configuration");
        }
        _ => panic!("Expected InvalidArgument"),
    }
}

#[test]
fn test_invalid_prompt_simple() {
    let error = AISDKError::invalid_prompt("Prompt cannot be empty");
    match error {
        AISDKError::InvalidPrompt { message } => assert_eq!(message, "Prompt cannot be empty"),
        _ => panic!("Expected InvalidPrompt"),
    }
}

#[test]
fn test_invalid_prompt_builder() {
    let error = InvalidPromptErrorBuilder::new("Invalid message format").build();
    match error {
        AISDKError::InvalidPrompt { message } => assert_eq!(message, "Invalid message format"),
        _ => panic!("Expected InvalidPrompt"),
    }
}

#[test]
fn test_invalid_prompt_builder_via_error() {
    let error = AISDKError::invalid_prompt_builder("Prompt must contain text or images").build();
    match error {
        AISDKError::InvalidPrompt { message } => {
            assert_eq!(message, "Prompt must contain text or images")
        }
        _ => panic!("Expected InvalidPrompt"),
    }
}

#[test]
fn test_invalid_prompt_display() {
    let error = AISDKError::invalid_prompt("System message must come first");
    let display = error.to_display_string();
    assert!(display.contains("Invalid prompt"));
    assert!(display.contains("System message must come first"));
}

#[test]
fn test_invalid_prompt_with_details() {
    let error = AISDKError::invalid_prompt(
        "Prompt contains unsupported message type: function call is not supported",
    );
    match error {
        AISDKError::InvalidPrompt { message } => {
            assert!(message.contains("unsupported message type"));
            assert!(message.contains("function call"));
        }
        _ => panic!("Expected InvalidPrompt"),
    }
}

fn json_text(v: serde_json::Value) -> String {
    serde_json::to_string(&v).unwrap()
}

fn object(pairs: &[(&str, serde_json::Value)]) -> serde_json::Value {
    let mut m = serde_json::Map::new();
    for (k, v) in pairs {
        m.insert(k.to_string(), v.clone());
    }
    serde_json::Value::Object(m)
}

#[test]
fn test_invalid_stream_part_simple() {
    let chunk = object(&[("type", "unknown".into()), ("data", "test".into())]);
    let error = AISDKError::invalid_stream_part(&json_text(chunk), "Unknown stream part type");
    match error {
        AISDKError::InvalidStreamPart { chunk, message } => {
            assert!(chunk.contains("unknown"));
            assert!(chunk.contains("test"));
            assert_eq!(message, "Unknown stream part type");
        }
        _ => panic!("Expected InvalidStreamPart"),
    }
}

#[test]
fn test_invalid_stream_part_builder() {
    let chunk = object(&[("type", "malformed".into())]);
    let error = InvalidStreamPartErrorBuilder::new(&json_text(chunk))
        .message("Malformed stream chunk")
        .build();
    match error {
        AISDKError::InvalidStreamPart { chunk, message } => {
            assert!(chunk.contains("malformed"));
            assert_eq!(message, "Malformed stream chunk");
        }
        _ => panic!("Expected InvalidStreamPart"),
    }
}

#[test]
fn test_invalid_stream_part_builder_via_error() {
    let chunk = object(&[("type", "unexpected".into()), ("id", 123.into())]);
    let error = AISDKError::invalid_stream_part_builder(&json_text(chunk))
        .message("Unexpected stream part received")
        .build();
    match error {
        AISDKError::InvalidStreamPart { chunk, message } => {
            assert!(chunk.contains("unexpected"));
            assert!(chunk.contains("123"));
            assert_eq!(message, "Unexpected stream part received");
        }
        _ => panic!("Expected InvalidStreamPart"),
    }
}

#[test]
fn test_invalid_stream_part_builder_minimal() {
    let chunk = object(&[("type", "error".into())]);
    let error = InvalidStreamPartErrorBuilder::new(&json_text(chunk)).build();
    match error {
        AISDKError::InvalidStreamPart { chunk, message } => {
            assert!(chunk.contains("error"));
            assert_eq!(message, "Invalid stream part");
        }
        _ => panic!("Expected InvalidStreamPart"),
    }
}

#[test]
fn test_invalid_stream_part_display() {
    let chunk = object(&[("type", "bad-type".into()), ("content", "test".into())]);
    let error = AISDKError::invalid_stream_part(&json_text(chunk), "Unsupported stream part type");
    let display = error.to_display_string();
    assert!(display.contains("Invalid stream part"));
    assert!(display.contains("Unsupported stream part type"));
}

#[test]
fn test_invalid_stream_part_with_complex_chunk() {
    let nested = object(&[
        ("field1", "value1".into()),
        ("field2", serde_json::Value::Array(vec![1.into(), 2.into(), 3.into()])),
    ]);
    let chunk = object(&[("type", "complex".into()), ("nested", nested)]);
    let error = AISDKError::invalid_stream_part(&json_text(chunk), "Complex chunk validation failed");
    match error {
        AISDKError::InvalidStreamPart { chunk, message } => {
            assert!(chunk.contains("complex"));
            assert!(chunk.contains("nested"));
            assert!(chunk.contains("value1"));
            assert_eq!(message, "Complex chunk validation failed");
        }
        _ => panic!("Expected InvalidStreamPart"),
    }
}

#[test]
fn test_invalid_stream_part_with_array_chunk() {
    let chunk = serde_json::Value::Array(vec!["item1".into(), "item2".into(), "item3".into()]);
    let error = AISDKError::invalid_stream_part(&json_text(chunk), "Array chunks are not supported");
    match error {
        AISDKError::InvalidStreamPart { chunk, message } => {
            assert!(chunk.contains("item1"));
            assert!(chunk.contains("item2"));
            assert_eq!(message, "Array chunks are not supported");
        }
        _ => panic!("Expected InvalidStreamPart"),
    }
}

#[test]
fn test_invalid_tool_input_simple() {
    let error = AISDKError::invalid_tool_input(
        "calculate",
        r#"{"operation": "unknown"}"#,
        "Unknown operation type",
    );
    match error {
        AISDKError::InvalidToolInput { tool_name, tool_input, message } => {
            assert_eq!(tool_name, "calculate");
            assert!(tool_input.contains("unknown"));
            assert_eq!(message, "Unknown operation type");
        }
        _ => panic!("Expected InvalidToolInput"),
    }
}

#[test]
fn test_invalid_tool_input_builder() {
    let error = InvalidToolInputErrorBuilder::new("search", r#"{"query": ""}"#)
        .message("Query cannot be empty")
        .build();
    match error {
        AISDKError::InvalidToolInput { tool_name, tool_input, message } => {
            assert_eq!(tool_name, "search");
            assert!(tool_input.contains("query"));
            assert_eq!(message, "Query cannot be empty");
        }
        _ => panic!("Expected InvalidToolInput"),
    }
}

#[test]
fn test_invalid_tool_input_builder_via_error() {
    let error = AISDKError::invalid_tool_input_builder("weather", r#"{"location": null}"#)
        .message("Location cannot be null")
        .build();
    match error {
        AISDKError::InvalidToolInput { tool_name, tool_input, message } => {
            assert_eq!(tool_name, "weather");
            assert!(tool_input.contains("location"));
            assert_eq!(message, "Location cannot be null");
        }
        _ => panic!("Expected InvalidToolInput"),
    }
}

#[test]
fn test_invalid_tool_input_builder_default_message() {
    let error = InvalidToolInputErrorBuilder::new("test_tool", r#"{"invalid": "data"}"#).build();
    match error {
        AISDKError::InvalidToolInput { tool_name, tool_input, message } => {
            assert_eq!(tool_name, "test_tool");
            assert!(tool_input.contains("invalid"));
            assert_eq!(message, "Invalid input for tool test_tool");
        }
        _ => panic!("Expected InvalidToolInput"),
    }
}

#[test]
fn test_invalid_tool_input_display() {
    let error = AISDKError::invalid_tool_input(
        "calculate",
        r#"{"x": "not a number"}"#,
        "Expected number for parameter x",
    );
    let display = error.to_display_string();
    assert!(display.contains("calculate"));
    assert!(display.contains("Expected number for parameter x"));
}

#[test]
fn test_invalid_tool_input_with_json_parse_error() {
    let error = AISDKError::invalid_tool_input(
        "parse_data",
        r#"{"malformed": json"#,
        "Failed to parse JSON: unexpected end of input",
    );
    match error {
        AISDKError::InvalidToolInput { tool_name, tool_input, message } => {
            assert_eq!(tool_name, "parse_data");
            assert!(tool_input.contains("malformed"));
            assert!(message.contains("Failed to parse JSON"));
        }
        _ => panic!("Expected InvalidToolInput"),
    }
}

#[test]
fn test_invalid_tool_input_with_validation_error() {
    let error = AISDKError::invalid_tool_input(
        "create_user",
        r#"{"email": "invalid-email", "age": -5}"#,
        "Validation failed: email must be valid, age must be positive",
    );
    match error {
        AISDKError::InvalidToolInput { tool_name, tool_input, message } => {
            assert_eq!(tool_name, "create_user");
            assert!(tool_input.contains("invalid-email"));
            assert!(tool_input.contains("-5"));
            assert!(message.contains("Validation failed"));
        }
        _ => panic!("Expected InvalidToolInput"),
    }
}

#[test]
fn test_invalid_tool_input_with_empty_input() {
    let error = AISDKError::invalid_tool_input("test_tool", "", "Input cannot be empty");
    match error {
        AISDKError::InvalidToolInput { tool_name, tool_input, message } => {
            assert_eq!(tool_name, "test_tool");
            assert_eq!(tool_input, "");
            assert_eq!(message, "Input cannot be empty");
        }
        _ => panic!("Expected InvalidToolInput"),
    }
}

#[test]
fn test_model_error_simple() {
    let error = AISDKError::model_error("Model not found");
    match error {
        AISDKError::ModelError { message } => assert_eq!(message, "Model not found"),
        _ => panic!("Expected ModelError"),
    }
}

#[test]
fn test_model_error_builder() {
    let error = ModelErrorBuilder::new("Failed to load model weights").build();
    match error {
        AISDKError::ModelError { message } => assert_eq!(message, "Failed to load model weights"),
        _ => panic!("Expected ModelError"),
    }
}

#[test]
fn test_model_error_builder_via_error() {
    let error = AISDKError::model_error_builder("Model configuration is invalid").build();
    match error {
        AISDKError::ModelError { message } => assert_eq!(message, "Model configuration is invalid"),
        _ => panic!("Expected ModelError"),
    }
}

#[test]
fn test_model_error_display() {
    let error = AISDKError::model_error("Model timeout");
    let display = error.to_display_string();
    assert!(display.contains("Model error"));
    assert!(display.contains("Model timeout"));
}

#[test]
fn test_model_error_with_details() {
    let error = AISDKError::model_error("Model gpt-4 requires API key but none was provided in environment");
    match error {
        AISDKError::ModelError { message } => {
            assert!(message.contains("gpt-4"));
            assert!(message.contains("API key"));
        }
        _ => panic!("Expected ModelError"),
    }
}

#[test]
fn test_no_image_generated_default() {
    let error = AISDKError::no_image_generated();
    match error {
        AISDKError::NoImageGenerated { message, responses } => {
            assert_eq!(message, "No image generated.");
            assert!(responses.is_none());
        }
        _ => panic!("Expected NoImageGenerated"),
    }
}

#[test]
fn test_no_image_generated_with_message() {
    let error = AISDKError::no_image_generated_with_message("Model failed to generate response");
    match error {
        AISDKError::NoImageGenerated { message, responses } => {
            assert_eq!(message, "Model failed to generate response");
            assert!(responses.is_none());
        }
        _ => panic!("Expected NoImageGenerated"),
    }
}

#[test]
fn test_no_image_generated_with_responses() {
    let metadata1 = ImageModelResponseMetadata::new("dall-e-3");
    let metadata2 = ImageModelResponseMetadata::new("dall-e-3");
    let error = AISDKError::no_image_generated_with_responses(
        "No images were generated",
        vec![metadata1, metadata2],
    );
    match error {
        AISDKError::NoImageGenerated { message, responses } => {
            assert_eq!(message, "No images were generated");
            assert!(responses.is_some());
            assert_eq!(responses.unwrap().len(), 2);
        }
        _ => panic!("Expected NoImageGenerated"),
    }
}

#[test]
fn test_no_image_generated_builder() {
    let error = NoImageGeneratedErrorBuilder::new().message("Custom error message").build();
    match error {
        AISDKError::NoImageGenerated { message, responses } => {
            assert_eq!(message, "Custom error message");
            assert!(responses.is_none());
        }
        _ => panic!("Expected NoImageGenerated"),
    }
}

#[test]
fn test_no_image_generated_builder_via_error() {
    let metadata = ImageModelResponseMetadata::new("dall-e-3");
    let error = AISDKError::no_image_generated_builder()
        .message("Model parsing failed")
        .add_response(metadata)
        .build();
    match error {
        AISDKError::NoImageGenerated { message, responses } => {
            assert_eq!(message, "Model parsing failed");
            assert!(responses.is_some());
            assert_eq!(responses.unwrap().len(), 1);
        }
        _ => panic!("Expected NoImageGenerated"),
    }
}

#[test]
fn test_no_image_generated_builder_default_message() {
    let error = NoImageGeneratedErrorBuilder::new().build();
    match error {
        AISDKError::NoImageGenerated { message, responses } => {
            assert_eq!(message, "No image generated.");
            assert!(responses.is_none());
        }
        _ => panic!("Expected NoImageGenerated"),
    }
}

#[test]
fn test_no_image_generated_builder_multiple_responses() {
    let error = NoImageGeneratedErrorBuilder::new()
        .message("Failed after multiple retries")
        .add_response(ImageModelResponseMetadata::new("model-1"))
        .add_response(ImageModelResponseMetadata::new("model-2"))
        .add_response(ImageModelResponseMetadata::new("model-3"))
        .build();
    match error {
        AISDKError::NoImageGenerated { message, responses } => {
            assert_eq!(message, "Failed after multiple retries");
            let resp = responses.unwrap();
            assert_eq!(resp.len(), 3);
            assert_eq!(resp[0].model_id, "model-1");
            assert_eq!(resp[1].model_id, "model-2");
            assert_eq!(resp[2].model_id, "model-3");
        }
        _ => panic!("Expected NoImageGenerated"),
    }
}

#[test]
fn test_no_image_generated_display() {
    let error = AISDKError::no_image_generated_with_message("Test error");
    let display = error.to_display_string();
    assert!(display.contains("No image generated"));
    assert!(display.contains("Test error"));
}

#[test]
fn test_no_image_generated_builder_replace_responses() {
    let error = NoImageGeneratedErrorBuilder::new()
        .add_response(ImageModelResponseMetadata::new("model-1"))
        .responses(vec![
            ImageModelResponseMetadata::new("model-2"),
            ImageModelResponseMetadata::new("model-3"),
        ])
        .build();
    match error {
        AISDKError::NoImageGenerated { responses, .. } => {
            let resp = responses.unwrap();
            assert_eq!(resp.len(), 2);
            assert_eq!(resp[0].model_id, "model-2");
            assert_eq!(resp[1].model_id, "model-3");
        }
        _ => panic!("Expected NoImageGenerated"),
    }
}
