//! Messages that a generation step adds to a conversation: what the
//! assistant said and did, and what tools run by the caller returned.

use vstd::prelude::*;

use crate::tool::opt_text;

verus! {

broadcast use vstd::string::group_string_axioms;

/// How an outcome of a tool call is handed back to a model.
#[derive(Debug, Clone, PartialEq)]
pub enum ToolResultOutput {
    /// A text result.
    Text { value: String },
    /// A JSON result.
    Json { value: serde_json::Value },
    /// An error, as text.
    ErrorText { value: String },
    /// An error, as JSON.
    ErrorJson { value: serde_json::Value },
}

impl ToolResultOutput {
    /// A text result.
    pub fn text(value: &str) -> (r: Self)
        ensures
            r matches ToolResultOutput::Text { value: v } && v@ == value@,
    {
        ToolResultOutput::Text { value: value.to_string() }
    }

    /// A JSON result.
    pub fn json(value: serde_json::Value) -> (r: Self)
        ensures
            r == (ToolResultOutput::Json { value }),
    {
        ToolResultOutput::Json { value }
    }
}

/// How an outcome is to be read: as a plain result, or as an error in text or
/// JSON form.
#[derive(Debug, Clone, Copy, PartialEq, Eq)]
pub enum ErrorMode {
    Plain,
    Text,
    Json,
}

/// The text of a JSON string value, `None` for any other value.
pub uninterp spec fn json_string_of(v: serde_json::Value) -> Option<Seq<char>>;

/// A JSON value written as compact JSON text.
pub uninterp spec fn json_text_of(v: serde_json::Value) -> Seq<char>;

/// Calls `serde_json::Value::as_str`: the text of a JSON string, `None` for
/// any other value.
#[verifier::external_body]
fn json_string_text(v: &serde_json::Value) -> (r: Option<String>)
    ensures
        opt_text(r) == json_string_of(*v),
{
    match v.as_str() {
        Some(s) => Some(s.to_string()),
        None => None,
    }
}

/// Calls `serde_json::to_string` on a JSON value: the value as compact JSON
/// text. Writing a `serde_json::Value` to a `String` does not fail (its map
/// keys are strings); the empty text stands in the unreachable error arm.
#[verifier::external_body]
fn json_text(v: &serde_json::Value) -> (r: String)
    ensures
        r@ == json_text_of(*v),
{
    match serde_json::to_string(v) {
        Ok(s) => s,
        Err(_) => String::new(),
    }
}

/// The text that an error of the tool becomes: the text of a JSON string,
/// else the JSON text of the value.
pub open spec fn error_text_of(v: serde_json::Value) -> Seq<char> {
    match json_string_of(v) {
        Some(t) => t,
        None => json_text_of(v),
    }
}

/// The form in which `output` goes back to the model: an error in the form
/// `mode` asks for, or else text when `output` is a JSON string and JSON
/// otherwise.
pub open spec fn is_model_output(output: serde_json::Value, mode: ErrorMode, r: ToolResultOutput) -> bool {
    match mode {
        ErrorMode::Json => r == (ToolResultOutput::ErrorJson { value: output }),
        ErrorMode::Text => r matches ToolResultOutput::ErrorText { value } && value@ == error_text_of(
            output,
        ),
        ErrorMode::Plain => match json_string_of(output) {
            Some(t) => r matches ToolResultOutput::Text { value } && value@ == t,
            None => r == (ToolResultOutput::Json { value: output }),
        },
    }
}

/// The form in which `output` goes back to the model: an error in the form
/// `mode` asks for, or else text when `output` is a JSON string and JSON
/// otherwise.
pub fn create_tool_model_output(output: serde_json::Value, mode: ErrorMode) -> (r:
    ToolResultOutput)
    ensures
        is_model_output(output, mode, r),
{
    match mode {
        ErrorMode::Json => ToolResultOutput::ErrorJson { value: output },
        ErrorMode::Text => match json_string_text(&output) {
            Some(s) => ToolResultOutput::ErrorText { value: s },
            None => ToolResultOutput::ErrorText { value: json_text(&output) },
        },
        ErrorMode::Plain => match json_string_text(&output) {
            Some(s) => ToolResultOutput::Text { value: s },
            None => ToolResultOutput::Json { value: output },
        },
    }
}

/// A tool call made by the assistant.
#[derive(Debug, Clone, PartialEq)]
pub struct ToolCallPart {
    pub tool_call_id: String,
    pub tool_name: String,
    pub input: serde_json::Value,
    pub provider_executed: Option<bool>,
}

/// The outcome of a tool call.
#[derive(Debug, Clone, PartialEq)]
pub struct ToolResultPart {
    pub tool_call_id: String,
    pub tool_name: String,
    pub output: ToolResultOutput,
}

impl ToolResultPart {
    /// The outcome `output` of call `tool_call_id` of `tool_name`.
    pub fn new(tool_call_id: &str, tool_name: &str, output: ToolResultOutput) -> (r: Self)
        ensures
            r.tool_call_id@ == tool_call_id@,
            r.tool_name@ == tool_name@,
            r.output == output,
    {
        ToolResultPart {
            tool_call_id: tool_call_id.to_string(),
            tool_name: tool_name.to_string(),
            output,
        }
    }
}

/// One part of what the assistant said or did.
#[derive(Debug, Clone, PartialEq)]
pub enum AssistantContentPart {
    Text(String),
    Reasoning(String),
    ToolCall(ToolCallPart),
    ToolResult(ToolResultPart),
}

/// A message of the assistant.
#[derive(Debug, Clone, PartialEq)]
pub struct AssistantMessage {
    /// Always `assistant`.
    pub role: String,
    pub content: Vec<AssistantContentPart>,
}

impl AssistantMessage {
    /// A message of one text part.
    pub fn new(text: &str) -> (r: Self)
        ensures
            r.role@ == "assistant"@,
            r.content@.len() == 1,
            r.content@[0] matches AssistantContentPart::Text(t) && t@ == text@,
    {
        let mut content: Vec<AssistantContentPart> = Vec::new();
        content.push(AssistantContentPart::Text(text.to_string()));
        AssistantMessage { role: "assistant".to_string(), content }
    }

    /// A message of the given parts.
    pub fn with_parts(parts: Vec<AssistantContentPart>) -> (r: Self)
        ensures
            r.role@ == "assistant"@,
            r.content == parts,
    {
        AssistantMessage { role: "assistant".to_string(), content: parts }
    }
}

/// A message of outcomes of tools that the caller ran.
#[derive(Debug, Clone, PartialEq)]
pub struct ToolMessage {
    /// Always `tool`.
    pub role: String,
    pub content: Vec<ToolResultPart>,
}

impl ToolMessage {
    /// A message of the given outcomes.
    pub fn new(parts: Vec<ToolResultPart>) -> (r: Self)
        ensures
            r.role@ == "tool"@,
            r.content == parts,
    {
        ToolMessage { role: "tool".to_string(), content: parts }
    }
}

/// A message that a generation step adds to the conversation.
#[derive(Debug, Clone, PartialEq)]
pub enum ResponseMessage {
    Assistant(AssistantMessage),
    Tool(ToolMessage),
}

impl ResponseMessage {
    /// An assistant message.
    pub fn from_assistant(message: AssistantMessage) -> (r: Self)
        ensures
            r == ResponseMessage::Assistant(message),
    {
        ResponseMessage::Assistant(message)
    }

    /// A tool message.
    pub fn from_tool(message: ToolMessage) -> (r: Self)
        ensures
            r == ResponseMessage::Tool(message),
    {
        ResponseMessage::Tool(message)
    }

    /// Whether this is an assistant message.
    pub fn is_assistant(&self) -> (r: bool)
        ensures
            r == (self is Assistant),
    {
        match self {
            ResponseMessage::Assistant(_) => true,
            _ => false,
        }
    }

    /// Whether this is a tool message.
    pub fn is_tool(&self) -> (r: bool)
        ensures
            r == (self is Tool),
    {
        match self {
            ResponseMessage::Tool(_) => true,
            _ => false,
        }
    }

    /// The assistant message, if this is one.
    pub fn as_assistant(&self) -> (r: Option<&AssistantMessage>)
        ensures
            match self {
                ResponseMessage::Assistant(m) => r == Some(m),
                _ => r is None,
            },
    {
        match self {
            ResponseMessage::Assistant(m) => Some(m),
            _ => None,
        }
    }

    /// The tool message, if this is one.
    pub fn as_tool(&self) -> (r: Option<&ToolMessage>)
        ensures
            match self {
                ResponseMessage::Tool(m) => r == Some(m),
                _ => r is None,
            },
    {
        match self {
            ResponseMessage::Tool(m) => Some(m),
            _ => None,
        }
    }
}

/// A system message.
#[derive(Debug, Clone, PartialEq)]
pub struct SystemMessage {
    /// Always `system`.
    pub role: String,
    pub content: String,
}

/// What a user says.
#[derive(Debug, Clone, PartialEq)]
pub enum UserContent {
    Text(String),
}

/// A message of the user.
#[derive(Debug, Clone, PartialEq)]
pub struct UserMessage {
    /// Always `user`.
    pub role: String,
    pub content: UserContent,
    pub provider_options: Option<serde_json::Value>,
}

impl UserMessage {
    /// A message of the user's text.
    pub fn new(text: &str) -> (r: Self)
        ensures
            r.role@ == "user"@,
            r.content matches UserContent::Text(t) && t@ == text@,
            r.provider_options is None,
    {
        UserMessage {
            role: "user".to_string(),
            content: UserContent::Text(text.to_string()),
            provider_options: None,
        }
    }
}

/// A message of a conversation.
#[derive(Debug, Clone, PartialEq)]
pub enum Message {
    System(SystemMessage),
    User(UserMessage),
    Assistant(AssistantMessage),
    Tool(ToolMessage),
}

impl Message {
    /// Whether the user sent the message.
    pub fn is_user(&self) -> (r: bool)
        ensures
            r == (self is User),
    {
        match self {
            Message::User(_) => true,
            _ => false,
        }
    }
}

/// The conversation message that a response message is.
pub open spec fn message_of(r: ResponseMessage) -> Message {
    match r {
        ResponseMessage::Assistant(m) => Message::Assistant(m),
        ResponseMessage::Tool(m) => Message::Tool(m),
    }
}

/// The response message that a conversation message of the assistant or of
/// tools is.
pub open spec fn response_of(m: Message) -> ResponseMessage
    recommends
        m is Assistant || m is Tool,
{
    match m {
        Message::Tool(t) => ResponseMessage::Tool(t),
        Message::Assistant(a) => ResponseMessage::Assistant(a),
        _ => arbitrary(),
    }
}

impl ResponseMessage {
    /// The response message that a conversation message of the assistant
    /// or of tools is.
    pub fn from_message(message: Message) -> (r: Self)
        requires
            message is Assistant || message is Tool,
        ensures
            r == response_of(message),
    {
        match message {
            Message::Assistant(m) => ResponseMessage::Assistant(m),
            Message::Tool(m) => ResponseMessage::Tool(m),
            _ => {
                proof {
                    assert(false);
                }
                ResponseMessage::Tool(ToolMessage::new(Vec::new()))
            },
        }
    }

    /// The conversation message that this response message is.
    pub fn into_message(self) -> (r: Message)
        ensures
            r == message_of(self),
    {
        match self {
            ResponseMessage::Assistant(m) => Message::Assistant(m),
            ResponseMessage::Tool(m) => Message::Tool(m),
        }
    }
}

/// A response message put into the conversation and read back is the same
/// message, and a conversation message of the assistant or of tools read
/// as a response message and put back is the same message.
pub proof fn lemma_message_round_trip(r: ResponseMessage, m: Message)
    ensures
        response_of(message_of(r)) == r,
        (m is Assistant || m is Tool) ==> message_of(response_of(m)) == m,
{
}

} // verus!
