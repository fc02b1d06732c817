//! The error type of the toolkit and builders for each of its kinds.

use crate::metadata::{
    ImageModelResponseMetadata, SpeechModelResponseMetadata, TranscriptionModelResponseMetadata,
};
use vstd::prelude::*;

verus! {

broadcast use vstd::string::group_string_axioms;

/// The character sequence of an optional string.
pub open spec fn opt_str_view(o: Option<String>) -> Option<Seq<char>> {
    match o {
        Some(s) => Some(s@),
        None => None,
    }
}

/// The character sequences of a list of strings.
pub open spec fn strs_view(v: Seq<String>) -> Seq<Seq<char>> {
    v.map_values(|s: String| s@)
}

/// Errors that the toolkit reports.
#[derive(Debug)]
pub enum AISDKError {
    /// A parameter had a value that is not allowed.
    InvalidArgument { parameter: String, value: String, message: String },
    /// The prompt is malformed.
    InvalidPrompt { message: String },
    /// A chunk of a stream (given as its JSON text) could not be understood.
    InvalidStreamPart { chunk: String, message: String },
    /// The model failed.
    ModelError { message: String },
    /// A failure that may go away when the call is repeated; `retry_after_ms`
    /// is the delay the service asked for, in milliseconds.
    RetryableError { message: String, retry_after_ms: Option<u64> },
    /// A tool was called with input it does not accept.
    InvalidToolInput { tool_name: String, tool_input: String, message: String },
    /// The model called a tool that is not available.
    NoSuchTool { tool_name: String, available_tools: Vec<String> },
    /// An image model produced no image.
    NoImageGenerated { message: String, responses: Option<Vec<ImageModelResponseMetadata>> },
    /// No output was produced.
    NoOutputGenerated { message: String },
    /// A speech model produced no audio.
    NoSpeechGenerated { message: String, responses: Vec<SpeechModelResponseMetadata> },
    /// A transcription model produced no transcript.
    NoTranscriptGenerated { message: String, responses: Vec<TranscriptionModelResponseMetadata> },
    /// The model implements a specification version that is not supported.
    UnsupportedModelVersion { version: String, provider: String, model_id: String },
}

/// Builder for `AISDKError::InvalidArgument`.
#[derive(Debug, Clone)]
pub struct InvalidArgumentErrorBuilder {
    parameter: String,
    value: Option<String>,
    message: Option<String>,
}

impl View for InvalidArgumentErrorBuilder {
    /// Parameter name, value and message set so far.
    type V = (Seq<char>, Option<Seq<char>>, Option<Seq<char>>);

    closed spec fn view(&self) -> Self::V {
        (self.parameter@, opt_str_view(self.value), opt_str_view(self.message))
    }
}

impl InvalidArgumentErrorBuilder {
    /// A builder for an invalid value of `parameter`.
    pub fn new(parameter: &str) -> (b: Self)
        ensures
            b@ == (parameter@, None::<Seq<char>>, None::<Seq<char>>),
    {
        InvalidArgumentErrorBuilder { parameter: parameter.to_string(), value: None, message: None }
    }

    /// Sets the offending value, as text.
    pub fn value(self, value: &str) -> (b: Self)
        ensures
            b@ == (self@.0, Some(value@), self@.2),
    {
        InvalidArgumentErrorBuilder { value: Some(value.to_string()), ..self }
    }

    /// Sets the message.
    pub fn message(self, message: &str) -> (b: Self)
        ensures
            b@ == (self@.0, self@.1, Some(message@)),
    {
        InvalidArgumentErrorBuilder { message: Some(message.to_string()), ..self }
    }

    /// The error; the value defaults to `unknown` and the message to
    /// `invalid value`.
    pub fn build(self) -> (e: AISDKError)
        ensures
            e matches AISDKError::InvalidArgument { parameter, value, message } && parameter@
                == self@.0 && value@ == (match self@.1 {
                Some(v) => v,
                None => "unknown"@,
            }) && message@ == (match self@.2 {
                Some(m) => m,
                None => "invalid value"@,
            }),
    {
        let value = match self.value {
            Some(v) => v,
            None => "unknown".to_string(),
        };
        let message = match self.message {
            Some(m) => m,
            None => "invalid value".to_string(),
        };
        AISDKError::InvalidArgument { parameter: self.parameter, value, message }
    }
}

/// Builder for `AISDKError::InvalidPrompt`.
#[derive(Debug, Clone)]
pub struct InvalidPromptErrorBuilder {
    message: String,
}

impl View for InvalidPromptErrorBuilder {
    /// The message.
    type V = Seq<char>;

    closed spec fn view(&self) -> Self::V {
        self.message@
    }
}

impl InvalidPromptErrorBuilder {
    /// A builder with the given message.
    pub fn new(message: &str) -> (b: Self)
        ensures
            b@ == message@,
    {
        InvalidPromptErrorBuilder { message: message.to_string() }
    }

    /// The error.
    pub fn build(self) -> (e: AISDKError)
        ensures
            e matches AISDKError::InvalidPrompt { message } && message@ == self@,
    {
        AISDKError::InvalidPrompt { message: self.message }
    }
}

/// Builder for `AISDKError::InvalidStreamPart`.
#[derive(Debug, Clone)]
pub struct InvalidStreamPartErrorBuilder {
    chunk: String,
    message: Option<String>,
}

impl View for InvalidStreamPartErrorBuilder {
    /// The chunk's JSON text and the message set so far.
    type V = (Seq<char>, Option<Seq<char>>);

    closed spec fn view(&self) -> Self::V {
        (self.chunk@, opt_str_view(self.message))
    }
}

impl InvalidStreamPartErrorBuilder {
    /// A builder for the chunk whose JSON text is `chunk`.
    pub fn new(chunk: &str) -> (b: Self)
        ensures
            b@ == (chunk@, None::<Seq<char>>),
    {
        InvalidStreamPartErrorBuilder { chunk: chunk.to_string(), message: None }
    }

    /// Sets the message.
    pub fn message(self, message: &str) -> (b: Self)
        ensures
            b@ == (self@.0, Some(message@)),
    {
        InvalidStreamPartErrorBuilder { message: Some(message.to_string()), ..self }
    }

    /// The error; the message defaults to `Invalid stream part`.
    pub fn build(self) -> (e: AISDKError)
        ensures
            e matches AISDKError::InvalidStreamPart { chunk, message } && chunk@ == self@.0
                && message@ == (match self@.1 {
                Some(m) => m,
                None => "Invalid stream part"@,
            }),
    {
        let message = match self.message {
            Some(m) => m,
            None => "Invalid stream part".to_string(),
        };
        AISDKError::InvalidStreamPart { chunk: self.chunk, message }
    }
}

/// Builder for `AISDKError::InvalidToolInput`.
#[derive(Debug, Clone)]
pub struct InvalidToolInputErrorBuilder {
    tool_name: String,
    tool_input: String,
    message: Option<String>,
}

impl View for InvalidToolInputErrorBuilder {
    /// Tool name, tool input and the message set so far.
    type V = (Seq<char>, Seq<char>, Option<Seq<char>>);

    closed spec fn view(&self) -> Self::V {
        (self.tool_name@, self.tool_input@, opt_str_view(self.message))
    }
}

impl InvalidToolInputErrorBuilder {
    /// A builder for the tool `tool_name` called with `tool_input`.
    pub fn new(tool_name: &str, tool_input: &str) -> (b: Self)
        ensures
            b@ == (tool_name@, tool_input@, None::<Seq<char>>),
    {
        InvalidToolInputErrorBuilder {
            tool_name: tool_name.to_string(),
            tool_input: tool_input.to_string(),
            message: None,
        }
    }

    /// Sets the message.
    pub fn message(self, message: &str) -> (b: Self)
        ensures
            b@ == (self@.0, self@.1, Some(message@)),
    {
        InvalidToolInputErrorBuilder { message: Some(message.to_string()), ..self }
    }

    /// The error; the message defaults to `Invalid input for tool <name>`.
    pub fn build(self) -> (e: AISDKError)
        ensures
            e matches AISDKError::InvalidToolInput { tool_name, tool_input, message }
                && tool_name@ == self@.0 && tool_input@ == self@.1 && message@ == (match self@.2 {
                Some(m) => m,
                None => "Invalid input for tool "@ + self@.0,
            }),
    {
        let message = match self.message {
            Some(m) => m,
            None => "Invalid input for tool ".to_string().concat(self.tool_name.as_str()),
        };
        AISDKError::InvalidToolInput {
            tool_name: self.tool_name,
            tool_input: self.tool_input,
            message,
        }
    }
}

/// Builder for `AISDKError::ModelError`.
#[derive(Debug, Clone)]
pub struct ModelErrorBuilder {
    message: String,
}

impl View for ModelErrorBuilder {
    /// The message.
    type V = Seq<char>;

    closed spec fn view(&self) -> Self::V {
        self.message@
    }
}

impl ModelErrorBuilder {
    /// A builder with the given message.
    pub fn new(message: &str) -> (b: Self)
        ensures
            b@ == message@,
    {
        ModelErrorBuilder { message: message.to_string() }
    }

    /// The error.
    pub fn build(self) -> (e: AISDKError)
        ensures
            e matches AISDKError::ModelError { message } && message@ == self@,
    {
        AISDKError::ModelError { message: self.message }
    }
}

/// Builder for `AISDKError::NoImageGenerated`.
#[derive(Debug)]
pub struct NoImageGeneratedErrorBuilder {
    message: Option<String>,
    responses: Option<Vec<ImageModelResponseMetadata>>,
}

impl View for NoImageGeneratedErrorBuilder {
    /// The message and the responses set so far.
    type V = (Option<Seq<char>>, Option<Seq<ImageModelResponseMetadata>>);

    closed spec fn view(&self) -> Self::V {
        (
            opt_str_view(self.message),
            match self.responses {
                Some(r) => Some(r@),
                None => None,
            },
        )
    }
}

impl NoImageGeneratedErrorBuilder {
    /// A builder with nothing set.
    pub fn new() -> (b: Self)
        ensures
            b@ == (None::<Seq<char>>, None::<Seq<ImageModelResponseMetadata>>),
    {
        NoImageGeneratedErrorBuilder { message: None, responses: None }
    }

    /// Sets the message.
    pub fn message(self, message: &str) -> (b: Self)
        ensures
            b@ == (Some(message@), self@.1),
    {
        NoImageGeneratedErrorBuilder { message: Some(message.to_string()), ..self }
    }

    /// Sets the responses.
    pub fn responses(self, responses: Vec<ImageModelResponseMetadata>) -> (b: Self)
        ensures
            b@ == (self@.0, Some(responses@)),
    {
        NoImageGeneratedErrorBuilder { responses: Some(responses), ..self }
    }

    /// Appends one response, starting the list if there is none.
    pub fn add_response(self, response: ImageModelResponseMetadata) -> (b: Self)
        ensures
            b@ == (self@.0, Some(
                match self@.1 {
                    Some(r) => r,
                    None => Seq::empty(),
                }.push(response),
            )),
    {
        let mut responses = match self.responses {
            Some(r) => r,
            None => Vec::new(),
        };
        responses.push(response);
        NoImageGeneratedErrorBuilder { message: self.message, responses: Some(responses) }
    }

    /// The error; the message defaults to `No image generated.`.
    pub fn build(self) -> (e: AISDKError)
        ensures
            e matches AISDKError::NoImageGenerated { message, responses } && message@ == (
            match self@.0 {
                Some(m) => m,
                None => "No image generated."@,
            }) && (match responses {
                Some(r) => self@.1 == Some(r@),
                None => self@.1 is None,
            }),
    {
        let message = match self.message {
            Some(m) => m,
            None => "No image generated.".to_string(),
        };
        AISDKError::NoImageGenerated { message, responses: self.responses }
    }
}

/// Builder for `AISDKError::NoOutputGenerated`.
#[derive(Debug, Clone)]
pub struct NoOutputGeneratedErrorBuilder {
    message: Option<String>,
}

impl View for NoOutputGeneratedErrorBuilder {
    /// The message set so far.
    type V = Option<Seq<char>>;

    closed spec fn view(&self) -> Self::V {
        opt_str_view(self.message)
    }
}

impl NoOutputGeneratedErrorBuilder {
    /// A builder with no message.
    pub fn new() -> (b: Self)
        ensures
            b@ == None::<Seq<char>>,
    {
        NoOutputGeneratedErrorBuilder { message: None }
    }

    /// Sets the message.
    pub fn message(self, message: &str) -> (b: Self)
        ensures
            b@ == Some(message@),
    {
        NoOutputGeneratedErrorBuilder { message: Some(message.to_string()) }
    }

    /// The error; the message defaults to `No output generated.`.
    pub fn build(self) -> (e: AISDKError)
        ensures
            e matches AISDKError::NoOutputGenerated { message } && message@ == (match self@ {
                Some(m) => m,
                None => "No output generated."@,
            }),
    {
        let message = match self.message {
            Some(m) => m,
            None => "No output generated.".to_string(),
        };
        AISDKError::NoOutputGenerated { message }
    }
}

/// Builder for `AISDKError::NoSpeechGenerated`.
#[derive(Debug)]
pub struct NoSpeechGeneratedErrorBuilder {
    responses: Vec<SpeechModelResponseMetadata>,
}

impl View for NoSpeechGeneratedErrorBuilder {
    /// The responses.
    type V = Seq<SpeechModelResponseMetadata>;

    closed spec fn view(&self) -> Self::V {
        self.responses@
    }
}

impl NoSpeechGeneratedErrorBuilder {
    /// A builder with the given responses.
    pub fn new(responses: Vec<SpeechModelResponseMetadata>) -> (b: Self)
        ensures
            b@ == responses@,
    {
        NoSpeechGeneratedErrorBuilder { responses }
    }

    /// Appends one response.
    pub fn add_response(self, response: SpeechModelResponseMetadata) -> (b: Self)
        ensures
            b@ == self@.push(response),
    {
        let mut responses = self.responses;
        responses.push(response);
        NoSpeechGeneratedErrorBuilder { responses }
    }

    /// The error, with the message `No speech audio generated.`.
    pub fn build(self) -> (e: AISDKError)
        ensures
            e matches AISDKError::NoSpeechGenerated { message, responses } && message@
                == "No speech audio generated."@ && responses@ == self@,
    {
        AISDKError::NoSpeechGenerated {
            message: "No speech audio generated.".to_string(),
            responses: self.responses,
        }
    }
}

/// Builder for `AISDKError::NoSuchTool`.
#[derive(Debug, Clone)]
pub struct NoSuchToolErrorBuilder {
    tool_name: String,
    available_tools: Vec<String>,
}

impl View for NoSuchToolErrorBuilder {
    /// The tool name and the names of the available tools.
    type V = (Seq<char>, Seq<Seq<char>>);

    closed spec fn view(&self) -> Self::V {
        (self.tool_name@, strs_view(self.available_tools@))
    }
}

impl NoSuchToolErrorBuilder {
    /// A builder for the missing tool `tool_name`, with no available tools.
    pub fn new(tool_name: &str) -> (b: Self)
        ensures
            b@ == (tool_name@, Seq::<Seq<char>>::empty()),
    {
        let b = NoSuchToolErrorBuilder { tool_name: tool_name.to_string(), available_tools: Vec::new() };
        assert(strs_view(b.available_tools@) =~= Seq::<Seq<char>>::empty());
        b
    }

    /// Replaces the list of available tools.
    pub fn available_tools(self, available_tools: Vec<String>) -> (b: Self)
        ensures
            b@ == (self@.0, strs_view(available_tools@)),
    {
        NoSuchToolErrorBuilder { tool_name: self.tool_name, available_tools }
    }

    /// Appends one available tool.
    pub fn add_available_tool(self, tool: &str) -> (b: Self)
        ensures
            b@ == (self@.0, self@.1.push(tool@)),
    {
        let mut available_tools = self.available_tools;
        let ghost old_tools = available_tools@;
        available_tools.push(tool.to_string());
        assert(strs_view(available_tools@) =~= strs_view(old_tools).push(tool@));
        NoSuchToolErrorBuilder { tool_name: self.tool_name, available_tools }
    }

    /// The error.
    pub fn build(self) -> (e: AISDKError)
        ensures
            e matches AISDKError::NoSuchTool { tool_name, available_tools } && tool_name@
                == self@.0 && strs_view(available_tools@) == self@.1,
    {
        AISDKError::NoSuchTool { tool_name: self.tool_name, available_tools: self.available_tools }
    }
}

/// Builder for `AISDKError::NoTranscriptGenerated`.
#[derive(Debug)]
pub struct NoTranscriptGeneratedErrorBuilder {
    responses: Vec<TranscriptionModelResponseMetadata>,
}

impl View for NoTranscriptGeneratedErrorBuilder {
    /// The responses.
    type V = Seq<TranscriptionModelResponseMetadata>;

    closed spec fn view(&self) -> Self::V {
        self.responses@
    }
}

impl NoTranscriptGeneratedErrorBuilder {
    /// A builder with the given responses.
    pub fn new(responses: Vec<TranscriptionModelResponseMetadata>) -> (b: Self)
        ensures
            b@ == responses@,
    {
        NoTranscriptGeneratedErrorBuilder { responses }
    }

    /// Appends one response.
    pub fn add_response(self, response: TranscriptionModelResponseMetadata) -> (b: Self)
        ensures
            b@ == self@.push(response),
    {
        let mut responses = self.responses;
        responses.push(response);
        NoTranscriptGeneratedErrorBuilder { responses }
    }

    /// The error, with the message `No transcript generated.`.
    pub fn build(self) -> (e: AISDKError)
        ensures
            e matches AISDKError::NoTranscriptGenerated { message, responses } && message@
                == "No transcript generated."@ && responses@ == self@,
    {
        AISDKError::NoTranscriptGenerated {
            message: "No transcript generated.".to_string(),
            responses: self.responses,
        }
    }
}

/// Builder for `AISDKError::RetryableError`.
#[derive(Debug, Clone)]
pub struct RetryableErrorBuilder {
    message: String,
    retry_after_ms: Option<u64>,
}

impl View for RetryableErrorBuilder {
    /// The message and the requested delay in milliseconds.
    type V = (Seq<char>, Option<u64>);

    closed spec fn view(&self) -> Self::V {
        (self.message@, self.retry_after_ms)
    }
}

impl RetryableErrorBuilder {
    /// A builder with the given message and no delay.
    pub fn new(message: &str) -> (b: Self)
        ensures
            b@ == (message@, None::<u64>),
    {
        RetryableErrorBuilder { message: message.to_string(), retry_after_ms: None }
    }

    /// Sets the requested delay, in milliseconds.
    pub fn retry_after(self, retry_after_ms: u64) -> (b: Self)
        ensures
            b@ == (self@.0, Some(retry_after_ms)),
    {
        RetryableErrorBuilder { message: self.message, retry_after_ms: Some(retry_after_ms) }
    }

    /// The error.
    pub fn build(self) -> (e: AISDKError)
        ensures
            e matches AISDKError::RetryableError { message, retry_after_ms } && message@
                == self@.0 && retry_after_ms == self@.1,
    {
        AISDKError::RetryableError { message: self.message, retry_after_ms: self.retry_after_ms }
    }
}

/// Builder for `AISDKError::UnsupportedModelVersion`.
#[derive(Debug, Clone)]
pub struct UnsupportedModelVersionErrorBuilder {
    version: String,
    provider: String,
    model_id: String,
}

impl View for UnsupportedModelVersionErrorBuilder {
    /// Version, provider and model id.
    type V = (Seq<char>, Seq<char>, Seq<char>);

    closed spec fn view(&self) -> Self::V {
        (self.version@, self.provider@, self.model_id@)
    }
}

impl UnsupportedModelVersionErrorBuilder {
    /// A builder for the given version, provider and model.
    pub fn new(version: &str, provider: &str, model_id: &str) -> (b: Self)
        ensures
            b@ == (version@, provider@, model_id@),
    {
        UnsupportedModelVersionErrorBuilder {
            version: version.to_string(),
            provider: provider.to_string(),
            model_id: model_id.to_string(),
        }
    }

    /// The error.
    pub fn build(self) -> (e: AISDKError)
        ensures
            e matches AISDKError::UnsupportedModelVersion { version, provider, model_id }
                && version@ == self@.0 && provider@ == self@.1 && model_id@ == self@.2,
    {
        AISDKError::UnsupportedModelVersion {
            version: self.version,
            provider: self.provider,
            model_id: self.model_id,
        }
    }
}

impl AISDKError {
    /// An invalid-argument error.
    pub fn invalid_argument(parameter: &str, value: &str, message: &str) -> (e: Self)
        ensures
            e matches AISDKError::InvalidArgument { parameter: p, value: v, message: m } && p@
                == parameter@ && v@ == value@ && m@ == message@,
    {
        AISDKError::InvalidArgument {
            parameter: parameter.to_string(),
            value: value.to_string(),
            message: message.to_string(),
        }
    }

    /// A builder for an invalid-argument error.
    pub fn invalid_argument_builder(parameter: &str) -> (b: InvalidArgumentErrorBuilder)
        ensures
            b@ == (parameter@, None::<Seq<char>>, None::<Seq<char>>),
    {
        InvalidArgumentErrorBuilder::new(parameter)
    }

    /// An invalid-prompt error.
    pub fn invalid_prompt(message: &str) -> (e: Self)
        ensures
            e matches AISDKError::InvalidPrompt { message: m } && m@ == message@,
    {
        AISDKError::InvalidPrompt { message: message.to_string() }
    }

    /// A builder for an invalid-prompt error.
    pub fn invalid_prompt_builder(message: &str) -> (b: InvalidPromptErrorBuilder)
        ensures
            b@ == message@,
    {
        InvalidPromptErrorBuilder::new(message)
    }

    /// An invalid-stream-part error for the chunk with JSON text `chunk`.
    pub fn invalid_stream_part(chunk: &str, message: &str) -> (e: Self)
        ensures
            e matches AISDKError::InvalidStreamPart { chunk: c, message: m } && c@ == chunk@
                && m@ == message@,
    {
        AISDKError::InvalidStreamPart { chunk: chunk.to_string(), message: message.to_string() }
    }

    /// A builder for an invalid-stream-part error.
    pub fn invalid_stream_part_builder(chunk: &str) -> (b: InvalidStreamPartErrorBuilder)
        ensures
            b@ == (chunk@, None::<Seq<char>>),
    {
        InvalidStreamPartErrorBuilder::new(chunk)
    }

    /// A model error.
    pub fn model_error(message: &str) -> (e: Self)
        ensures
            e matches AISDKError::ModelError { message: m } && m@ == message@,
    {
        AISDKError::ModelError { message: message.to_string() }
    }

    /// A builder for a model error.
    pub fn model_error_builder(message: &str) -> (b: ModelErrorBuilder)
        ensures
            b@ == message@,
    {
        ModelErrorBuilder::new(message)
    }

    /// A retryable error without a requested delay.
    pub fn retryable_error(message: &str) -> (e: Self)
        ensures
            e matches AISDKError::RetryableError { message: m, retry_after_ms } && m@ == message@
                && retry_after_ms is None,
    {
        AISDKError::RetryableError { message: message.to_string(), retry_after_ms: None }
    }

    /// A retryable error that asks for a delay of `retry_after_ms` milliseconds.
    pub fn retryable_error_with_delay(message: &str, retry_after_ms: u64) -> (e: Self)
        ensures
            e matches AISDKError::RetryableError { message: m, retry_after_ms: d } && m@
                == message@ && d == Some(retry_after_ms),
    {
        AISDKError::RetryableError {
            message: message.to_string(),
            retry_after_ms: Some(retry_after_ms),
        }
    }

    /// A builder for a retryable error.
    pub fn retryable_error_builder(message: &str) -> (b: RetryableErrorBuilder)
        ensures
            b@ == (message@, None::<u64>),
    {
        RetryableErrorBuilder::new(message)
    }

    /// An invalid-tool-input error.
    pub fn invalid_tool_input(tool_name: &str, tool_input: &str, message: &str) -> (e: Self)
        ensures
            e matches AISDKError::InvalidToolInput { tool_name: n, tool_input: i, message: m }
                && n@ == tool_name@ && i@ == tool_input@ && m@ == message@,
    {
        AISDKError::InvalidToolInput {
            tool_name: tool_name.to_string(),
            tool_input: tool_input.to_string(),
            message: message.to_string(),
        }
    }

    /// A builder for an invalid-tool-input error.
    pub fn invalid_tool_input_builder(tool_name: &str, tool_input: &str) -> (b:
        InvalidToolInputErrorBuilder)
        ensures
            b@ == (tool_name@, tool_input@, None::<Seq<char>>),
    {
        InvalidToolInputErrorBuilder::new(tool_name, tool_input)
    }

    /// A no-such-tool error.
    pub fn no_such_tool(tool_name: &str, available_tools: Vec<String>) -> (e: Self)
        ensures
            e matches AISDKError::NoSuchTool { tool_name: n, available_tools: a } && n@
                == tool_name@ && a@ == available_tools@,
    {
        AISDKError::NoSuchTool { tool_name: tool_name.to_string(), available_tools }
    }

    /// A builder for a no-such-tool error.
    pub fn no_such_tool_builder(tool_name: &str) -> (b: NoSuchToolErrorBuilder)
        ensures
            b@ == (tool_name@, Seq::<Seq<char>>::empty()),
    {
        NoSuchToolErrorBuilder::new(tool_name)
    }

    /// A no-image error with the message `No image generated.`.
    pub fn no_image_generated() -> (e: Self)
        ensures
            e matches AISDKError::NoImageGenerated { message, responses } && message@
                == "No image generated."@ && responses is None,
    {
        AISDKError::NoImageGenerated { message: "No image generated.".to_string(), responses: None }
    }

    /// A no-image error with the given message.
    pub fn no_image_generated_with_message(message: &str) -> (e: Self)
        ensures
            e matches AISDKError::NoImageGenerated { message: m, responses } && m@ == message@
                && responses is None,
    {
        AISDKError::NoImageGenerated { message: message.to_string(), responses: None }
    }

    /// A no-image error with the given message and responses.
    pub fn no_image_generated_with_responses(
        message: &str,
        responses: Vec<ImageModelResponseMetadata>,
    ) -> (e: Self)
        ensures
            e matches AISDKError::NoImageGenerated { message: m, responses: r } && m@ == message@
                && r == Some(responses),
    {
        AISDKError::NoImageGenerated { message: message.to_string(), responses: Some(responses) }
    }

    /// A builder for a no-image error.
    pub fn no_image_generated_builder() -> (b: NoImageGeneratedErrorBuilder)
        ensures
            b@ == (None::<Seq<char>>, None::<Seq<ImageModelResponseMetadata>>),
    {
        NoImageGeneratedErrorBuilder::new()
    }

    /// A no-output error with the message `No output generated.`.
    pub fn no_output_generated() -> (e: Self)
        ensures
            e matches AISDKError::NoOutputGenerated { message } && message@
                == "No output generated."@,
    {
        AISDKError::NoOutputGenerated { message: "No output generated.".to_string() }
    }

    /// A no-output error with the given message.
    pub fn no_output_generated_with_message(message: &str) -> (e: Self)
        ensures
            e matches AISDKError::NoOutputGenerated { message: m } && m@ == message@,
    {
        AISDKError::NoOutputGenerated { message: message.to_string() }
    }

    /// A builder for a no-output error.
    pub fn no_output_generated_builder() -> (b: NoOutputGeneratedErrorBuilder)
        ensures
            b@ == None::<Seq<char>>,
    {
        NoOutputGeneratedErrorBuilder::new()
    }

    /// A no-speech error with the message `No speech audio generated.`.
    pub fn no_speech_generated(responses: Vec<SpeechModelResponseMetadata>) -> (e: Self)
        ensures
            e matches AISDKError::NoSpeechGenerated { message, responses: r } && message@
                == "No speech audio generated."@ && r == responses,
    {
        AISDKError::NoSpeechGenerated {
            message: "No speech audio generated.".to_string(),
            responses,
        }
    }

    /// A builder for a no-speech error.
    pub fn no_speech_generated_builder(responses: Vec<SpeechModelResponseMetadata>) -> (b:
        NoSpeechGeneratedErrorBuilder)
        ensures
            b@ == responses@,
    {
        NoSpeechGeneratedErrorBuilder::new(responses)
    }

    /// A no-transcript error with the message `No transcript generated.`.
    pub fn no_transcript_generated(responses: Vec<TranscriptionModelResponseMetadata>) -> (e:
        Self)
        ensures
            e matches AISDKError::NoTranscriptGenerated { message, responses: r } && message@
                == "No transcript generated."@ && r == responses,
    {
        AISDKError::NoTranscriptGenerated {
            message: "No transcript generated.".to_string(),
            responses,
        }
    }

    /// A builder for a no-transcript error.
    pub fn no_transcript_generated_builder(
        responses: Vec<TranscriptionModelResponseMetadata>,
    ) -> (b: NoTranscriptGeneratedErrorBuilder)
        ensures
            b@ == responses@,
    {
        NoTranscriptGeneratedErrorBuilder::new(responses)
    }

    /// An unsupported-model-version error.
    pub fn unsupported_model_version(version: &str, provider: &str, model_id: &str) -> (e: Self)
        ensures
            e matches AISDKError::UnsupportedModelVersion { version: v, provider: p, model_id: m }
                && v@ == version@ && p@ == provider@ && m@ == model_id@,
    {
        AISDKError::UnsupportedModelVersion {
            version: version.to_string(),
            provider: provider.to_string(),
            model_id: model_id.to_string(),
        }
    }

    /// A builder for an unsupported-model-version error.
    pub fn unsupported_model_version_builder(version: &str, provider: &str, model_id: &str) -> (b:
        UnsupportedModelVersionErrorBuilder)
        ensures
            b@ == (version@, provider@, model_id@),
    {
        UnsupportedModelVersionErrorBuilder::new(version, provider, model_id)
    }
}

/// What `{:?}` prints for a list of strings (named).
pub uninterp spec fn debug_list_text(items: Seq<Seq<char>>) -> Seq<char>;

/// Calls `format!("{:?}", ..)` on a list of strings; the result is named
/// `debug_list_text` of the strings.
#[verifier::external_body]
fn debug_list(items: &Vec<String>) -> (r: String)
    ensures
        r@ == debug_list_text(strs_view(items@)),
{
    format!("{:?}", items)
}

/// The text that an error shows.
pub open spec fn display_text(e: AISDKError) -> Seq<char> {
    match e {
        AISDKError::InvalidArgument { parameter, value, message } => "Invalid argument for parameter '"@
            + parameter@ + "': "@ + message@ + " (value: "@ + value@ + ")"@,
        AISDKError::InvalidPrompt { message } => "Invalid prompt: "@ + message@,
        AISDKError::InvalidStreamPart { message, .. } => "Invalid stream part: "@ + message@,
        AISDKError::ModelError { message } => "Model error: "@ + message@,
        AISDKError::RetryableError { message, .. } => "Retryable error: "@ + message@,
        AISDKError::InvalidToolInput { tool_name, message, .. } => "Invalid tool input for tool '"@
            + tool_name@ + "': "@ + message@,
        AISDKError::NoSuchTool { tool_name, available_tools } => "No such tool: '"@ + tool_name@
            + "'. Available tools: "@ + debug_list_text(strs_view(available_tools@)),
        AISDKError::NoImageGenerated { message, .. } => "No image generated: "@ + message@,
        AISDKError::NoOutputGenerated { message } => "No output generated: "@ + message@,
        AISDKError::NoSpeechGenerated { message, .. } => "No speech audio generated: "@ + message@,
        AISDKError::NoTranscriptGenerated { message, .. } => "No transcript generated: "@
            + message@,
        AISDKError::UnsupportedModelVersion { version, provider, model_id } =>
            "Unsupported model version "@ + version@ + " for provider \""@ + provider@
            + "\" and model \""@ + model_id@
            + "\". LLM Kit only supports models that implement specification version \"v2\"."@,
    }
}

impl AISDKError {
    /// The text that the error shows.
    pub fn to_display_string(&self) -> (r: String)
        ensures
            r@ == display_text(*self),
    {
        match self {
            AISDKError::InvalidArgument { parameter, value, message } => "Invalid argument for parameter '".to_string().concat(
                parameter.as_str(),
            ).concat("': ").concat(message.as_str()).concat(" (value: ").concat(value.as_str()).concat(
                ")",
            ),
            AISDKError::InvalidPrompt { message } => "Invalid prompt: ".to_string().concat(
                message.as_str(),
            ),
            AISDKError::InvalidStreamPart { message, .. } => "Invalid stream part: ".to_string().concat(
                message.as_str(),
            ),
            AISDKError::ModelError { message } => "Model error: ".to_string().concat(message.as_str()),
            AISDKError::RetryableError { message, .. } => "Retryable error: ".to_string().concat(
                message.as_str(),
            ),
            AISDKError::InvalidToolInput { tool_name, message, .. } => "Invalid tool input for tool '".to_string().concat(
                tool_name.as_str(),
            ).concat("': ").concat(message.as_str()),
            AISDKError::NoSuchTool { tool_name, available_tools } => {
                let list = debug_list(available_tools);
                "No such tool: '".to_string().concat(tool_name.as_str()).concat(
                    "'. Available tools: ",
                ).concat(list.as_str())
            },
            AISDKError::NoImageGenerated { message, .. } => "No image generated: ".to_string().concat(
                message.as_str(),
            ),
            AISDKError::NoOutputGenerated { message } => "No output generated: ".to_string().concat(
                message.as_str(),
            ),
            AISDKError::NoSpeechGenerated { message, .. } => "No speech audio generated: ".to_string().concat(
                message.as_str(),
            ),
            AISDKError::NoTranscriptGenerated { message, .. } => "No transcript generated: ".to_string().concat(
                message.as_str(),
            ),
            AISDKError::UnsupportedModelVersion { version, provider, model_id } => "Unsupported model version ".to_string().concat(
                version.as_str(),
            ).concat(" for provider \"").concat(provider.as_str()).concat("\" and model \"").concat(
                model_id.as_str(),
            ).concat(
                "\". LLM Kit only supports models that implement specification version \"v2\".",
            ),
        }
    }
}

} // verus!
