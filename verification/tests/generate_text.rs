use llm_kit::generate_text::{
    as_output, client_tool_calls, filter_active_tools, has_tool_call, is_stop_condition_met,
    step_count_is, total_usage, FileData, GenerateTextResult, GenerationLoop, LanguageModelContent,
    LanguageModelFile, LanguageModelFinishReason, LanguageModelTool, LanguageModelToolCall,
    LanguageModelToolResult, LanguageModelUsage, LoopAction, RequestMetadata, ResponseMetadata,
    prepare_step_call, LanguageModelToolChoice, PrepareStepOptions, PrepareStepResult,
    StepResponseMetadata, StepResult, StopCondition,
};
use llm_kit::generated_file::GeneratedFile;
use llm_kit::message::Message;
use llm_kit::headers::KeyedMap;
use llm_kit::output::{
    LanguageModelSource, Output, ReasoningOutput, SourceOutput, TextOutput, ToolCall, ToolError,
    ToolOutput, ToolResult,
};

fn j(text: &str) -> serde_json::Value {
    serde_json::from_str(text).unwrap()
}

fn create_test_step(tool_calls: Vec<(&str, &str)>) -> StepResult {
    let mut content: Vec<Output> = vec![Output::Text(TextOutput::new("Test"))];
    for (id, name) in tool_calls {
        content.push(Output::ToolCall(ToolCall::new(id, name, j(r#"{}"#))));
    }
    StepResult::new(
        content,
        LanguageModelFinishReason::Stop,
        LanguageModelUsage::new(10, 20),
        None,
        RequestMetadata { body: None },
        StepResponseMetadata { id: None, timestamp: None, model_id: None, body: None },
        None,
    )
}

// Stop conditions.

#[test]
fn test_step_count_is() {
    let condition = step_count_is(3);
    let steps = vec![create_test_step(vec![]), create_test_step(vec![]), create_test_step(vec![])];
    assert!(condition.check(&steps));
    assert!(!condition.check(&steps[..2]));
    assert!(!condition.check(&[]));
}

#[test]
fn test_has_tool_call() {
    let condition = has_tool_call("get_weather");
    let steps = vec![
        create_test_step(vec![("call_1", "other_tool")]),
        create_test_step(vec![("call_2", "get_weather")]),
    ];
    assert!(condition.check(&steps));
    assert!(!condition.check(&steps[..1]));
    assert!(!condition.check(&[]));
}

#[test]
fn test_has_tool_call_multiple_calls_in_step() {
    let condition = has_tool_call("target_tool");
    let steps = vec![create_test_step(vec![
        ("call_1", "tool_a"),
        ("call_2", "target_tool"),
        ("call_3", "tool_b"),
    ])];
    assert!(condition.check(&steps));
}

#[test]
fn test_has_tool_call_not_found() {
    let condition = has_tool_call("missing_tool");
    let steps = vec![
        create_test_step(vec![("call_1", "tool_a")]),
        create_test_step(vec![("call_2", "tool_b")]),
    ];
    assert!(!condition.check(&steps));
}

#[test]
fn test_is_stop_condition_met_none_met() {
    let conditions: Vec<Box<dyn StopCondition>> =
        vec![Box::new(step_count_is(5)), Box::new(has_tool_call("missing"))];
    let steps = vec![create_test_step(vec![]), create_test_step(vec![("call_1", "other")])];
    assert!(!is_stop_condition_met(&conditions, &steps));
}

#[test]
fn test_is_stop_condition_met_one_met() {
    let conditions: Vec<Box<dyn StopCondition>> =
        vec![Box::new(step_count_is(2)), Box::new(has_tool_call("missing"))];
    let steps = vec![create_test_step(vec![]), create_test_step(vec![])];
    assert!(is_stop_condition_met(&conditions, &steps));
}

#[test]
fn test_is_stop_condition_met_multiple_met() {
    let conditions: Vec<Box<dyn StopCondition>> =
        vec![Box::new(step_count_is(2)), Box::new(has_tool_call("get_weather"))];
    let steps = vec![create_test_step(vec![]), create_test_step(vec![("call_1", "get_weather")])];
    assert!(is_stop_condition_met(&conditions, &steps));
}

#[test]
fn test_is_stop_condition_met_empty_conditions() {
    let conditions: Vec<Box<dyn StopCondition>> = vec![];
    let steps = vec![create_test_step(vec![])];
    assert!(!is_stop_condition_met(&conditions, &steps));
}

#[test]
fn test_step_count_is_zero() {
    let condition = step_count_is(0);
    assert!(condition.check(&[]));
    assert!(!condition.check(&[create_test_step(vec![])]));
}

#[test]
fn has_tool_call_looks_at_last_step_only() {
    let condition = has_tool_call("get_weather");
    let steps = vec![
        create_test_step(vec![("call_1", "get_weather")]),
        create_test_step(vec![("call_2", "other")]),
    ];
    assert!(!condition.check(&steps));
}

// The loop of a multi-step generation.

#[test]
fn loop_without_conditions_ends_after_first_step() {
    let mut l = GenerationLoop::new(None);
    let a = l.record_step(create_test_step(vec![("call_1", "tool")]), 1, 1);
    assert_eq!(a, LoopAction::Finish);
    assert_eq!(l.steps().len(), 1);
}

#[test]
fn loop_goes_on_while_tools_answered_and_no_condition() {
    let conditions: Vec<Box<dyn StopCondition>> = vec![Box::new(step_count_is(3))];
    let mut l = GenerationLoop::new(Some(conditions));
    assert_eq!(l.record_step(create_test_step(vec![("c1", "t")]), 1, 1), LoopAction::NextStep);
    assert_eq!(l.record_step(create_test_step(vec![("c2", "t")]), 1, 1), LoopAction::NextStep);
    assert_eq!(l.record_step(create_test_step(vec![("c3", "t")]), 1, 1), LoopAction::Finish);
    assert_eq!(l.into_steps().len(), 3);
}

#[test]
fn loop_stops_when_a_call_has_no_outcome() {
    let conditions: Vec<Box<dyn StopCondition>> = vec![Box::new(step_count_is(10))];
    let mut l = GenerationLoop::new(Some(conditions));
    assert_eq!(l.record_step(create_test_step(vec![("c1", "t"), ("c2", "t")]), 2, 1), LoopAction::Finish);
}

#[test]
fn loop_stops_without_client_calls() {
    let conditions: Vec<Box<dyn StopCondition>> = vec![Box::new(step_count_is(10))];
    let mut l = GenerationLoop::new(Some(conditions));
    assert_eq!(l.record_step(create_test_step(vec![]), 0, 0), LoopAction::Finish);
}

// Usage, client calls and active tools.

fn step_with_usage(usage: LanguageModelUsage) -> StepResult {
    StepResult::new(
        vec![],
        LanguageModelFinishReason::Stop,
        usage,
        None,
        RequestMetadata::default(),
        StepResponseMetadata::default(),
        None,
    )
}

#[test]
fn total_usage_adds_up_steps() {
    let mut u = LanguageModelUsage::new(15, 25);
    u.reasoning_tokens = 3;
    u.cached_input_tokens = 4;
    let steps = vec![step_with_usage(LanguageModelUsage::new(10, 20)), step_with_usage(u)];
    let t = total_usage(&steps);
    assert_eq!(t.input_tokens, 25);
    assert_eq!(t.output_tokens, 45);
    assert_eq!(t.total_tokens, 70);
    assert_eq!(t.reasoning_tokens, 3);
    assert_eq!(t.cached_input_tokens, 4);
}

#[test]
fn total_usage_of_no_steps_is_zero() {
    let t = total_usage(&vec![]);
    assert_eq!(t, LanguageModelUsage::default());
}

#[test]
fn usage_new_sums_total() {
    let u = LanguageModelUsage::new(7, 5);
    assert_eq!(u.total_tokens, 12);
    assert_eq!(u.reasoning_tokens, 0);
}

#[test]
fn client_tool_calls_drops_provider_calls() {
    let calls = vec![
        ToolCall::new("a", "t1", j(r#"{}"#)),
        ToolCall::new("b", "t2", j(r#"{}"#)).with_provider_executed(true),
        ToolCall::new("c", "t3", j(r#"{}"#)).with_provider_executed(false),
    ];
    let r = client_tool_calls(&calls);
    assert_eq!(r.len(), 2);
    assert_eq!(r[0].tool_call_id, "a");
    assert_eq!(r[1].tool_call_id, "c");
}

#[test]
fn filter_active_tools_keeps_order() {
    let tools = vec![
        LanguageModelTool::Function {
            name: "a".to_string(),
            description: None,
            input_schema: "{}".to_string(),
        },
        LanguageModelTool::ProviderDefined {
            id: "p.b".to_string(),
            name: "b".to_string(),
            args: KeyedMap::new(),
        },
        LanguageModelTool::Function {
            name: "c".to_string(),
            description: None,
            input_schema: "{}".to_string(),
        },
    ];
    let active = vec!["c".to_string(), "b".to_string()];
    let r = filter_active_tools(tools, &active);
    assert_eq!(r.len(), 2);
    assert!(matches!(&r[0], LanguageModelTool::ProviderDefined { name, .. } if name == "b"));
    assert!(matches!(&r[1], LanguageModelTool::Function { name, .. } if name == "c"));
}

// Response metadata and the overall result.

#[test]
fn test_generated_file_new() {
    let file = GeneratedFile::from_base64("SGVsbG8gV29ybGQ=", "text/plain").with_name("test.txt");
    assert_eq!(file.name, Some("test.txt".to_string()));
    assert_eq!(file.base64(), "SGVsbG8gV29ybGQ=");
    assert_eq!(file.media_type, "text/plain");
}

#[test]
fn test_response_metadata_new() {
    let metadata = ResponseMetadata::new(vec![]);
    assert!(metadata.messages.is_empty());
    assert!(metadata.body.is_none());
    assert!(metadata.id.is_none());
    assert!(metadata.model_id.is_none());
}

#[test]
fn test_response_metadata_from_step_metadata() {
    let step_metadata = StepResponseMetadata {
        id: Some("test_id".to_string()),
        model_id: Some("test_model".to_string()),
        timestamp: None,
        body: None,
    };
    let metadata = ResponseMetadata::from_step_metadata(vec![], step_metadata);
    assert!(metadata.messages.is_empty());
    assert!(metadata.body.is_none());
    assert_eq!(metadata.id, Some("test_id".to_string()));
    assert_eq!(metadata.model_id, Some("test_model".to_string()));
}

#[test]
fn test_response_metadata_with_body() {
    let body = j(r#"{"key": "value"}"#);
    let metadata = ResponseMetadata::new(vec![]).with_body(body.clone());
    assert_eq!(metadata.body, Some(body));
}

#[test]
fn test_response_metadata_builder_methods() {
    let metadata = ResponseMetadata::new(vec![])
        .with_id("resp_123".to_string())
        .with_model_id("gpt-4".to_string())
        .with_timestamp(1234567890);
    assert_eq!(metadata.id, Some("resp_123".to_string()));
    assert_eq!(metadata.model_id, Some("gpt-4".to_string()));
    assert_eq!(metadata.timestamp, Some(1234567890));
}

#[test]
fn test_generate_text_result_new() {
    let result = GenerateTextResult::new(
        vec![],
        "Hello".to_string(),
        vec![],
        None,
        vec![],
        vec![],
        vec![],
        vec![],
        LanguageModelFinishReason::Stop,
        LanguageModelUsage::default(),
        LanguageModelUsage::default(),
        None,
        RequestMetadata::default(),
        ResponseMetadata::new(vec![]),
        None,
        vec![],
    );
    assert_eq!(result.text, "Hello");
    assert_eq!(result.finish_reason, LanguageModelFinishReason::Stop);
}

#[test]
fn test_generate_text_result_fields() {
    let result = GenerateTextResult::new(
        vec![],
        "Generated text".to_string(),
        vec![],
        Some("Reasoning text".to_string()),
        vec![],
        vec![],
        vec![],
        vec![],
        LanguageModelFinishReason::Length,
        LanguageModelUsage::default(),
        LanguageModelUsage::default(),
        None,
        RequestMetadata::default(),
        ResponseMetadata::new(vec![]),
        None,
        vec![],
    );
    assert_eq!(result.text, "Generated text");
    assert_eq!(result.reasoning_text, Some("Reasoning text".to_string()));
    assert_eq!(result.finish_reason, LanguageModelFinishReason::Length);
}

#[test]
fn test_generate_text_result_from_steps_with_tool_calls() {
    let content = vec![
        Output::Text(TextOutput::new("Hello")),
        Output::ToolCall(ToolCall::new("call_1", "get_weather", j(r#"{"city": "SF"}"#))),
        Output::ToolResult(ToolResult::new(
            "call_1",
            "get_weather",
            j(r#"{"city": "SF"}"#),
            j(r#"{"temp": 72}"#),
        )),
    ];
    let step = StepResult::new(
        content,
        LanguageModelFinishReason::Stop,
        LanguageModelUsage::new(10, 20),
        None,
        RequestMetadata { body: None },
        StepResponseMetadata {
            id: Some("resp_123".to_string()),
            timestamp: None,
            model_id: Some("gpt-4".to_string()),
            body: None,
        },
        None,
    );
    let result = GenerateTextResult::from_steps(vec![step], LanguageModelUsage::new(10, 20));

    assert_eq!(result.tool_calls.len(), 1);
    let call = &result.tool_calls[0];
    assert_eq!(call.tool_call_id, "call_1");
    assert_eq!(call.tool_name, "get_weather");
    assert_eq!(call.input, j(r#"{"city": "SF"}"#));

    assert_eq!(result.tool_results.len(), 1);
    let res = &result.tool_results[0];
    assert_eq!(res.tool_call_id, "call_1");
    assert_eq!(res.tool_name, "get_weather");
    assert_eq!(res.output, j(r#"{"temp": 72}"#));
}

#[test]
fn from_steps_takes_last_step() {
    let first = StepResult::new(
        vec![Output::Text(TextOutput::new("first"))],
        LanguageModelFinishReason::ToolCalls,
        LanguageModelUsage::new(1, 2),
        None,
        RequestMetadata::default(),
        StepResponseMetadata::default(),
        None,
    );
    let last = StepResult::new(
        vec![
            Output::Reasoning(ReasoningOutput::new("think ")),
            Output::Text(TextOutput::new("Hello ")),
            Output::Reasoning(ReasoningOutput::new("more")),
            Output::Text(TextOutput::new("world")),
        ],
        LanguageModelFinishReason::Stop,
        LanguageModelUsage::new(3, 4),
        None,
        RequestMetadata::default(),
        StepResponseMetadata { id: Some("r2".to_string()), ..StepResponseMetadata::default() },
        None,
    );
    let result = GenerateTextResult::from_steps(vec![first, last], LanguageModelUsage::new(4, 6));
    assert_eq!(result.text, "Hello world");
    assert_eq!(result.reasoning_text, Some("think more".to_string()));
    assert_eq!(result.reasoning.len(), 2);
    assert_eq!(result.finish_reason, LanguageModelFinishReason::Stop);
    assert_eq!(result.usage.input_tokens, 3);
    assert_eq!(result.total_usage.total_tokens, 10);
    assert_eq!(result.response.id, Some("r2".to_string()));
    assert_eq!(result.steps.len(), 2);
}

#[test]
fn step_text_and_sources() {
    let source = LanguageModelSource::Url {
        id: "s1".to_string(),
        url: "https://example.com".to_string(),
        title: None,
        provider_metadata: None,
    };
    let step = StepResult::new(
        vec![
            Output::Text(TextOutput::new("a")),
            Output::Source(SourceOutput::new(source.clone())),
            Output::Text(TextOutput::new("b")),
        ],
        LanguageModelFinishReason::Stop,
        LanguageModelUsage::default(),
        None,
        RequestMetadata::default(),
        StepResponseMetadata::default(),
        None,
    );
    assert_eq!(step.text(), "ab");
    assert_eq!(step.sources(), vec![source]);
    assert_eq!(step.reasoning_text(), None);
    assert!(step.tool_calls().is_empty());
}

// Model content as outputs.

#[test]
fn test_as_output_converts_file() {
    let provider_file = LanguageModelFile::from_base64("text/plain", "SGVsbG8gV29ybGQh");
    let content = vec![LanguageModelContent::File(provider_file)];
    let output = as_output(content, vec![], vec![]);
    assert_eq!(output.len(), 1);
    match &output[0] {
        Output::File(file) => {
            assert_eq!(file.media_type, "text/plain");
            assert_eq!(file.base64(), "SGVsbG8gV29ybGQh");
            assert_eq!(file.bytes(), b"Hello World!");
        }
        _ => panic!("Expected Output::File variant"),
    }
}

#[test]
fn test_as_output_converts_file_from_bytes() {
    let provider_file = LanguageModelFile::from_binary("image/png", vec![0x89, 0x50, 0x4E, 0x47]);
    let content = vec![LanguageModelContent::File(provider_file)];
    let output = as_output(content, vec![], vec![]);
    assert_eq!(output.len(), 1);
    match &output[0] {
        Output::File(file) => {
            assert_eq!(file.media_type, "image/png");
            assert_eq!(file.bytes(), &[0x89, 0x50, 0x4E, 0x47]);
        }
        _ => panic!("Expected Output::File variant"),
    }
}

#[test]
fn as_output_maps_calls_and_appends_tool_outputs() {
    let call = ToolCall::new("c1", "weather", j(r#"{"city": "SF"}"#));
    let content = vec![
        LanguageModelContent::Text("hi".to_string()),
        LanguageModelContent::ToolCall(LanguageModelToolCall {
            tool_call_id: "c1".to_string(),
            tool_name: "weather".to_string(),
            input: "{\"city\":\"SF\"}".to_string(),
        }),
        LanguageModelContent::ToolCall(LanguageModelToolCall {
            tool_call_id: "unknown".to_string(),
            tool_name: "x".to_string(),
            input: "{}".to_string(),
        }),
        LanguageModelContent::ToolResult(LanguageModelToolResult {
            tool_call_id: "c1".to_string(),
            tool_name: "weather".to_string(),
            result: j(r#"{"temp": 72}"#),
            is_error: Some(true),
        }),
    ];
    let outputs = vec![ToolOutput::Result(ToolResult::new(
        "c1",
        "weather",
        j(r#"{"city": "SF"}"#),
        j(r#"{"temp": 70}"#),
    ))];
    let r = as_output(content, vec![call], outputs);
    assert_eq!(r.len(), 4);
    assert!(matches!(&r[0], Output::Text(t) if t.text == "hi"));
    assert!(matches!(&r[1], Output::ToolCall(c) if c.tool_call_id == "c1" && c.input == j(r#"{"city": "SF"}"#)));
    match &r[2] {
        Output::ToolError(e) => {
            assert_eq!(e.error, j(r#"{"temp": 72}"#));
            assert_eq!(e.provider_executed, Some(true));
        }
        _ => panic!("Expected a tool error"),
    }
    assert!(matches!(&r[3], Output::ToolResult(t) if t.output == j(r#"{"temp": 70}"#)));
}

#[test]
fn as_output_keeps_file_data() {
    let content = vec![LanguageModelContent::File(LanguageModelFile {
        media_type: "image/png".to_string(),
        data: FileData::Binary(vec![1, 2]),
    })];
    let r = as_output(content, vec![], vec![]);
    assert!(matches!(&r[0], Output::File(f) if f.bytes() == vec![1, 2]));
}

#[test]
fn tool_error_output_new() {
    let e = ToolError::new("c", "t", j(r#"{}"#), j(r#"{"error": "x"}"#));
    assert_eq!(e.provider_executed, None);
    assert_eq!(e.error, j(r#"{"error": "x"}"#));
}

fn function_tool(name: &str) -> LanguageModelTool {
    LanguageModelTool::Function {
        name: name.to_string(),
        description: None,
        input_schema: "{}".to_string(),
    }
}

#[test]
fn prepare_step_call_keeps_settings_without_preparation() {
    let call = prepare_step_call(
        None,
        Some("sys".to_string()),
        vec![],
        Some(LanguageModelToolChoice::Auto),
        vec![function_tool("a"), function_tool("b")],
    );
    assert_eq!(call.system, Some("sys".to_string()));
    assert_eq!(call.tool_choice, Some(LanguageModelToolChoice::Auto));
    assert_eq!(call.tools.len(), 2);
}

#[test]
fn prepare_step_call_applies_preparation() {
    let prepared = PrepareStepResult {
        tool_choice: Some(LanguageModelToolChoice::Tool { tool_name: "b".to_string() }),
        active_tools: Some(vec!["b".to_string()]),
        system: None,
        messages: None,
    };
    let call = prepare_step_call(
        Some(prepared),
        Some("sys".to_string()),
        vec![],
        Some(LanguageModelToolChoice::Auto),
        vec![function_tool("a"), function_tool("b")],
    );
    assert_eq!(call.system, Some("sys".to_string()));
    assert_eq!(call.tool_choice, Some(LanguageModelToolChoice::Tool { tool_name: "b".to_string() }));
    assert_eq!(call.tools.len(), 1);
    assert!(matches!(&call.tools[0], LanguageModelTool::Function { name, .. } if name == "b"));
}

#[test]
fn test_prepare_step_options() {
    let steps = vec![create_test_step(vec![])];
    let messages: Vec<Message> = vec![];
    let options = PrepareStepOptions { steps: &steps, step_number: 1, messages: &messages };
    assert_eq!(options.steps.len(), 1);
    assert_eq!(options.step_number, 1);
}

#[test]
fn test_prepare_step_result_default() {
    let result = PrepareStepResult::default();
    assert!(result.tool_choice.is_none());
    assert!(result.active_tools.is_none());
    assert!(result.system.is_none());
    assert!(result.messages.is_none());
}

#[test]
fn test_prepare_step_result_with_values() {
    let result = PrepareStepResult {
        tool_choice: Some(LanguageModelToolChoice::Required),
        active_tools: Some(vec!["tool1".to_string(), "tool2".to_string()]),
        system: Some("Test system".to_string()),
        messages: None,
    };
    assert!(matches!(result.tool_choice, Some(LanguageModelToolChoice::Required)));
    assert_eq!(result.active_tools.as_ref().unwrap().len(), 2);
    assert_eq!(result.system.as_ref().unwrap(), "Test system");
    assert!(result.messages.is_none());
}
