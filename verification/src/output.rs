//! What a generation step produced: text, reasoning, sources, files, tool
//! calls and the results or errors of tool calls.

use vstd::prelude::*;

use crate::generated_file::{data_view, opt_string_eq, GeneratedFile};

verus! {

broadcast use vstd::string::group_string_axioms;

/// A source that a model cited.
#[derive(Debug, PartialEq)]
pub enum LanguageModelSource {
    /// A web page.
    Url {
        id: String,
        url: String,
        title: Option<String>,
        provider_metadata: Option<serde_json::Value>,
    },
    /// A document.
    Document {
        id: String,
        media_type: String,
        title: String,
        filename: Option<String>,
        provider_metadata: Option<serde_json::Value>,
    },
}

impl LanguageModelSource {
    /// The id of the source.
    pub fn id(&self) -> (r: &String)
        ensures
            r == (match self {
                LanguageModelSource::Url { id, .. } => id,
                LanguageModelSource::Document { id, .. } => id,
            }),
    {
        match self {
            LanguageModelSource::Url { id, .. } => id,
            LanguageModelSource::Document { id, .. } => id,
        }
    }
}

/// Text that a model produced.
#[derive(Debug, PartialEq)]
pub struct TextOutput {
    pub text: String,
}

impl TextOutput {
    /// Text output of `text`.
    pub fn new(text: &str) -> (r: Self)
        ensures
            r.text@ == text@,
    {
        TextOutput { text: text.to_string() }
    }
}

/// Reasoning that a model produced.
#[derive(Debug, PartialEq)]
pub struct ReasoningOutput {
    /// Always `reasoning`.
    pub reasoning_type: String,
    pub text: String,
    pub provider_metadata: Option<serde_json::Value>,
}

impl ReasoningOutput {
    /// Reasoning output of `text`, without provider metadata.
    pub fn new(text: &str) -> (r: Self)
        ensures
            r.reasoning_type@ == "reasoning"@,
            r.text@ == text@,
            r.provider_metadata is None,
    {
        ReasoningOutput {
            reasoning_type: "reasoning".to_string(),
            text: text.to_string(),
            provider_metadata: None,
        }
    }

    /// Sets the provider metadata.
    pub fn with_provider_metadata(self, metadata: serde_json::Value) -> (r: Self)
        ensures
            r.reasoning_type == self.reasoning_type,
            r.text == self.text,
            r.provider_metadata == Some(metadata),
    {
        ReasoningOutput { provider_metadata: Some(metadata), ..self }
    }
}

/// A source that a model cited, as output.
#[derive(Debug, PartialEq)]
pub struct SourceOutput {
    /// Always `source`.
    pub source_type: String,
    pub source: LanguageModelSource,
    pub provider_metadata: Option<serde_json::Value>,
}

impl SourceOutput {
    /// Source output of `source`, without provider metadata.
    pub fn new(source: LanguageModelSource) -> (r: Self)
        ensures
            r.source_type@ == "source"@,
            r.source == source,
            r.provider_metadata is None,
    {
        SourceOutput { source_type: "source".to_string(), source, provider_metadata: None }
    }

    /// Sets the provider metadata.
    pub fn with_provider_metadata(self, metadata: serde_json::Value) -> (r: Self)
        ensures
            r.source_type == self.source_type,
            r.source == self.source,
            r.provider_metadata == Some(metadata),
    {
        SourceOutput { provider_metadata: Some(metadata), ..self }
    }
}

/// A call of a tool that a model asked for.
#[derive(Debug, PartialEq)]
pub struct ToolCall {
    pub tool_call_id: String,
    pub tool_name: String,
    pub input: serde_json::Value,
    /// Whether the provider ran the tool itself.
    pub provider_executed: Option<bool>,
}

impl ToolCall {
    /// A call of `tool_name` with `input`; who runs it is not said.
    pub fn new(tool_call_id: &str, tool_name: &str, input: serde_json::Value) -> (r: Self)
        ensures
            r.tool_call_id@ == tool_call_id@,
            r.tool_name@ == tool_name@,
            r.input == input,
            r.provider_executed is None,
    {
        ToolCall {
            tool_call_id: tool_call_id.to_string(),
            tool_name: tool_name.to_string(),
            input,
            provider_executed: None,
        }
    }

    /// Says whether the provider ran the tool.
    pub fn with_provider_executed(self, provider_executed: bool) -> (r: Self)
        ensures
            r == (ToolCall { provider_executed: Some(provider_executed), ..self }),
    {
        ToolCall { provider_executed: Some(provider_executed), ..self }
    }
}

impl Clone for ToolCall {
    /// The same call.
    fn clone(&self) -> (r: Self)
        ensures
            r == *self,
    {
        ToolCall {
            tool_call_id: self.tool_call_id.clone(),
            tool_name: self.tool_name.clone(),
            input: self.input.clone(),
            provider_executed: self.provider_executed,
        }
    }
}

/// What a tool call returned.
#[derive(Debug, PartialEq)]
pub struct ToolResult {
    pub tool_call_id: String,
    pub tool_name: String,
    pub input: serde_json::Value,
    pub output: serde_json::Value,
    /// Whether the provider ran the tool itself.
    pub provider_executed: Option<bool>,
}

impl ToolResult {
    /// The result `output` of calling `tool_name` with `input`.
    pub fn new(tool_call_id: &str, tool_name: &str, input: serde_json::Value, output: serde_json::Value) -> (r:
        Self)
        ensures
            r.tool_call_id@ == tool_call_id@,
            r.tool_name@ == tool_name@,
            r.input == input,
            r.output == output,
            r.provider_executed is None,
    {
        ToolResult {
            tool_call_id: tool_call_id.to_string(),
            tool_name: tool_name.to_string(),
            input,
            output,
            provider_executed: None,
        }
    }

    /// Says whether the provider ran the tool.
    pub fn with_provider_executed(self, provider_executed: bool) -> (r: Self)
        ensures
            r == (ToolResult { provider_executed: Some(provider_executed), ..self }),
    {
        ToolResult { provider_executed: Some(provider_executed), ..self }
    }
}

/// The error that a tool call ended with.
#[derive(Debug, PartialEq)]
pub struct ToolError {
    pub tool_call_id: String,
    pub tool_name: String,
    pub input: serde_json::Value,
    pub error: serde_json::Value,
    /// Whether the provider ran the tool itself.
    pub provider_executed: Option<bool>,
}

impl ToolError {
    /// The error `error` of calling `tool_name` with `input`.
    pub fn new(tool_call_id: &str, tool_name: &str, input: serde_json::Value, error: serde_json::Value) -> (r:
        Self)
        ensures
            r.tool_call_id@ == tool_call_id@,
            r.tool_name@ == tool_name@,
            r.input == input,
            r.error == error,
            r.provider_executed is None,
    {
        ToolError {
            tool_call_id: tool_call_id.to_string(),
            tool_name: tool_name.to_string(),
            input,
            error,
            provider_executed: None,
        }
    }

    /// Says whether the provider ran the tool.
    pub fn with_provider_executed(self, provider_executed: bool) -> (r: Self)
        ensures
            r == (ToolError { provider_executed: Some(provider_executed), ..self }),
    {
        ToolError { provider_executed: Some(provider_executed), ..self }
    }
}

/// The outcome of running a tool on the caller's side.
#[derive(Debug, PartialEq)]
pub enum ToolOutput {
    Result(ToolResult),
    Error(ToolError),
}

/// One part of what a generation step produced.
#[derive(Debug, PartialEq)]
pub enum Output {
    Text(TextOutput),
    Reasoning(ReasoningOutput),
    Source(SourceOutput),
    File(GeneratedFile),
    ToolCall(ToolCall),
    ToolResult(ToolResult),
    ToolError(ToolError),
}

impl Output {
    /// Whether this is text.
    pub fn is_text(&self) -> (r: bool)
        ensures
            r == (self is Text),
    {
        match self {
            Output::Text(_) => true,
            _ => false,
        }
    }

    /// Whether this is reasoning.
    pub fn is_reasoning(&self) -> (r: bool)
        ensures
            r == (self is Reasoning),
    {
        match self {
            Output::Reasoning(_) => true,
            _ => false,
        }
    }

    /// Whether this is a source.
    pub fn is_source(&self) -> (r: bool)
        ensures
            r == (self is Source),
    {
        match self {
            Output::Source(_) => true,
            _ => false,
        }
    }

    /// Whether this is a file.
    pub fn is_file(&self) -> (r: bool)
        ensures
            r == (self is File),
    {
        match self {
            Output::File(_) => true,
            _ => false,
        }
    }

    /// Whether this is a tool call.
    pub fn is_tool_call(&self) -> (r: bool)
        ensures
            r == (self is ToolCall),
    {
        match self {
            Output::ToolCall(_) => true,
            _ => false,
        }
    }

    /// Whether this is the result of a tool call.
    pub fn is_tool_result(&self) -> (r: bool)
        ensures
            r == (self is ToolResult),
    {
        match self {
            Output::ToolResult(_) => true,
            _ => false,
        }
    }

    /// Whether this is the error of a tool call.
    pub fn is_tool_error(&self) -> (r: bool)
        ensures
            r == (self is ToolError),
    {
        match self {
            Output::ToolError(_) => true,
            _ => false,
        }
    }
}

/// A copy of an optional string.
pub fn clone_opt_string(o: &Option<String>) -> (r: Option<String>)
    ensures
        r == *o,
{
    match o {
        Some(s) => Some(s.clone()),
        None => None,
    }
}

/// A copy of an optional JSON value.
pub fn clone_opt_json(o: &Option<serde_json::Value>) -> (r: Option<serde_json::Value>)
    ensures
        r == *o,
{
    match o {
        Some(v) => Some(v.clone()),
        None => None,
    }
}

impl Clone for LanguageModelSource {
    /// The same source.
    fn clone(&self) -> (r: Self)
        ensures
            r == *self,
    {
        match self {
            LanguageModelSource::Url { id, url, title, provider_metadata } => LanguageModelSource::Url {
                id: id.clone(),
                url: url.clone(),
                title: clone_opt_string(title),
                provider_metadata: clone_opt_json(provider_metadata),
            },
            LanguageModelSource::Document { id, media_type, title, filename, provider_metadata } =>
            LanguageModelSource::Document {
                id: id.clone(),
                media_type: media_type.clone(),
                title: title.clone(),
                filename: clone_opt_string(filename),
                provider_metadata: clone_opt_json(provider_metadata),
            },
        }
    }
}

impl Clone for TextOutput {
    /// The same text.
    fn clone(&self) -> (r: Self)
        ensures
            r == *self,
    {
        TextOutput { text: self.text.clone() }
    }
}

impl Clone for ReasoningOutput {
    /// The same reasoning.
    fn clone(&self) -> (r: Self)
        ensures
            r == *self,
    {
        ReasoningOutput {
            reasoning_type: self.reasoning_type.clone(),
            text: self.text.clone(),
            provider_metadata: clone_opt_json(&self.provider_metadata),
        }
    }
}

impl Clone for SourceOutput {
    /// The same source output.
    fn clone(&self) -> (r: Self)
        ensures
            r == *self,
    {
        SourceOutput {
            source_type: self.source_type.clone(),
            source: self.source.clone(),
            provider_metadata: clone_opt_json(&self.provider_metadata),
        }
    }
}

impl Clone for ToolResult {
    /// The same result.
    fn clone(&self) -> (r: Self)
        ensures
            r == *self,
    {
        ToolResult {
            tool_call_id: self.tool_call_id.clone(),
            tool_name: self.tool_name.clone(),
            input: self.input.clone(),
            output: self.output.clone(),
            provider_executed: self.provider_executed,
        }
    }
}

impl Clone for ToolError {
    /// The same error.
    fn clone(&self) -> (r: Self)
        ensures
            r == *self,
    {
        ToolError {
            tool_call_id: self.tool_call_id.clone(),
            tool_name: self.tool_name.clone(),
            input: self.input.clone(),
            error: self.error.clone(),
            provider_executed: self.provider_executed,
        }
    }
}

impl Clone for ToolOutput {
    /// The same outcome.
    fn clone(&self) -> (r: Self)
        ensures
            r == *self,
    {
        match self {
            ToolOutput::Result(x) => ToolOutput::Result(x.clone()),
            ToolOutput::Error(x) => ToolOutput::Error(x.clone()),
        }
    }
}

/// Two outputs are the same: files with the same content, name and media
/// type, anything else equal.
pub open spec fn same_output(a: Output, b: Output) -> bool {
    match (a, b) {
        (Output::File(f), Output::File(g)) => data_view(f.data) == data_view(g.data)
            && f.media_type@ == g.media_type@ && opt_string_eq(f.name, g.name),
        _ => a == b,
    }
}

impl Clone for Output {
    /// The same output.
    fn clone(&self) -> (r: Self)
        ensures
            same_output(r, *self),
    {
        match self {
            Output::Text(x) => Output::Text(x.clone()),
            Output::Reasoning(x) => Output::Reasoning(x.clone()),
            Output::Source(x) => Output::Source(x.clone()),
            Output::File(x) => Output::File(x.clone()),
            Output::ToolCall(x) => Output::ToolCall(x.clone()),
            Output::ToolResult(x) => Output::ToolResult(x.clone()),
            Output::ToolError(x) => Output::ToolError(x.clone()),
        }
    }
}

} // verus!
