//! Multi-step text generation: the results of steps, when to stop, what a
//! step adds to the conversation, and the overall result.

use vstd::prelude::*;

use crate::generate_image::{clone_warnings, CallWarning};
use crate::output::{clone_opt_json, clone_opt_string, same_output};
use crate::message::{
    create_tool_model_output, is_model_output, AssistantContentPart, AssistantMessage, ErrorMode, Message,
    ResponseMessage, ToolCallPart, ToolMessage, ToolResultOutput, ToolResultPart,
};
use crate::generated_file::{data_view, opt_string_eq, DataContent, GeneratedFile};
use crate::tool::{opt_text, ToolArgs};
use crate::output::{
    LanguageModelSource, Output, ReasoningOutput, SourceOutput, TextOutput, ToolCall, ToolError,
    ToolOutput, ToolResult,
};

verus! {

broadcast use vstd::string::group_string_axioms;

/// Token counts of one or more model calls.
#[derive(Debug, Clone, Copy, PartialEq, Eq)]
pub struct LanguageModelUsage {
    pub input_tokens: u64,
    pub output_tokens: u64,
    pub total_tokens: u64,
    pub reasoning_tokens: u64,
    pub cached_input_tokens: u64,
}

impl LanguageModelUsage {
    /// Usage of `input_tokens` in and `output_tokens` out; the total is
    /// their sum.
    pub fn new(input_tokens: u64, output_tokens: u64) -> (u: Self)
        requires
            input_tokens + output_tokens <= u64::MAX,
        ensures
            u.input_tokens == input_tokens,
            u.output_tokens == output_tokens,
            u.total_tokens == input_tokens + output_tokens,
            u.reasoning_tokens == 0,
            u.cached_input_tokens == 0,
    {
        LanguageModelUsage {
            input_tokens,
            output_tokens,
            total_tokens: input_tokens + output_tokens,
            reasoning_tokens: 0,
            cached_input_tokens: 0,
        }
    }

    /// No tokens at all.
    pub fn zero() -> (u: Self)
        ensures
            u == spec_zero_usage(),
    {
        LanguageModelUsage {
            input_tokens: 0,
            output_tokens: 0,
            total_tokens: 0,
            reasoning_tokens: 0,
            cached_input_tokens: 0,
        }
    }
}

impl Default for LanguageModelUsage {
    fn default() -> (u: Self)
        ensures
            u == spec_zero_usage(),
    {
        LanguageModelUsage::zero()
    }
}

/// No tokens at all.
pub open spec fn spec_zero_usage() -> LanguageModelUsage {
    LanguageModelUsage {
        input_tokens: 0,
        output_tokens: 0,
        total_tokens: 0,
        reasoning_tokens: 0,
        cached_input_tokens: 0,
    }
}

/// Why a model stopped generating.
#[derive(Debug, Clone, Copy, PartialEq, Eq)]
pub enum LanguageModelFinishReason {
    Stop,
    Length,
    ContentFilter,
    ToolCalls,
    Error,
    Other,
    Unknown,
}

/// What was sent in a model call.
#[derive(Debug, Clone, PartialEq, Default)]
pub struct RequestMetadata {
    pub body: Option<serde_json::Value>,
}

/// What came back from a model call besides its content.
#[derive(Debug, Clone, PartialEq, Default)]
pub struct StepResponseMetadata {
    pub id: Option<String>,
    pub model_id: Option<String>,
    pub timestamp: Option<i64>,
    pub body: Option<serde_json::Value>,
}

/// The result of one generation step.
#[derive(Debug, PartialEq)]
pub struct StepResult {
    /// What the step produced, in order.
    pub content: Vec<Output>,
    pub finish_reason: LanguageModelFinishReason,
    pub usage: LanguageModelUsage,
    pub warnings: Option<Vec<CallWarning>>,
    pub request: RequestMetadata,
    pub response: StepResponseMetadata,
    pub provider_metadata: Option<serde_json::Value>,
}

/// The step calls the tool named `tool_name`.
pub open spec fn step_calls_tool(step: StepResult, tool_name: Seq<char>) -> bool {
    exists|i: int|
        0 <= i < step.content@.len() && #[trigger] step.content@[i] is ToolCall
            && step.content@[i]->ToolCall_0.tool_name@ == tool_name
}

impl StepResult {
    /// A step result of the given parts.
    pub fn new(
        content: Vec<Output>,
        finish_reason: LanguageModelFinishReason,
        usage: LanguageModelUsage,
        warnings: Option<Vec<CallWarning>>,
        request: RequestMetadata,
        response: StepResponseMetadata,
        provider_metadata: Option<serde_json::Value>,
    ) -> (s: Self)
        ensures
            s == (StepResult {
                content,
                finish_reason,
                usage,
                warnings,
                request,
                response,
                provider_metadata,
            }),
    {
        StepResult {
            content,
            finish_reason,
            usage,
            warnings,
            request,
            response,
            provider_metadata,
        }
    }

    /// Whether the step calls the tool named `tool_name`.
    pub fn calls_tool(&self, tool_name: &String) -> (r: bool)
        ensures
            r == step_calls_tool(*self, tool_name@),
    {
        let n = self.content.len();
        let mut i: usize = 0;
        while i < n
            invariant
                n == self.content@.len(),
                i <= n,
                forall|j: int|
                    0 <= j < i ==> !(#[trigger] self.content@[j] is ToolCall
                        && self.content@[j]->ToolCall_0.tool_name@ == tool_name@),
            decreases n - i,
        {
            if let Output::ToolCall(tc) = &self.content[i] {
                if tc.tool_name == *tool_name {
                    return true;
                }
            }
            i = i + 1;
        }
        false
    }
}

/// A condition on the steps so far that ends multi-step generation.
pub trait StopCondition {
    /// Whether the condition holds after `steps`.
    spec fn holds(&self, steps: Seq<StepResult>) -> bool;

    /// Checks the condition after `steps`.
    fn check(&self, steps: &[StepResult]) -> (r: bool)
        ensures
            r == self.holds(steps@),
    ;
}

/// Holds when exactly a given number of steps have been made.
#[derive(Debug, Clone)]
pub struct StepCountIs {
    pub step_count: usize,
}

impl StopCondition for StepCountIs {
    open spec fn holds(&self, steps: Seq<StepResult>) -> bool {
        steps.len() == self.step_count
    }

    fn check(&self, steps: &[StepResult]) -> (r: bool) {
        steps.len() == self.step_count
    }
}

/// A condition that holds when exactly `step_count` steps have been made.
pub fn step_count_is(step_count: usize) -> (c: StepCountIs)
    ensures
        c.step_count == step_count,
{
    StepCountIs { step_count }
}

/// Holds when the last step calls a given tool.
#[derive(Debug, Clone)]
pub struct HasToolCall {
    pub tool_name: String,
}

impl StopCondition for HasToolCall {
    open spec fn holds(&self, steps: Seq<StepResult>) -> bool {
        steps.len() > 0 && step_calls_tool(steps.last(), self.tool_name@)
    }

    fn check(&self, steps: &[StepResult]) -> (r: bool) {
        if steps.len() == 0 {
            false
        } else {
            steps[steps.len() - 1].calls_tool(&self.tool_name)
        }
    }
}

/// A condition that holds when the last step calls the tool `tool_name`.
pub fn has_tool_call(tool_name: &str) -> (c: HasToolCall)
    ensures
        c.tool_name@ == tool_name@,
{
    HasToolCall { tool_name: tool_name.to_string() }
}

/// One of `conditions` holds after `steps`.
pub open spec fn any_holds(conditions: Seq<Box<dyn StopCondition>>, steps: Seq<StepResult>) -> bool {
    exists|i: int| 0 <= i < conditions.len() && #[trigger] conditions[i].holds(steps)
}

/// Whether one of `stop_conditions` holds after `steps`; every condition
/// is checked before the answer is given.
pub fn is_stop_condition_met(stop_conditions: &[Box<dyn StopCondition>], steps: &[StepResult]) -> (r:
    bool)
    ensures
        r == any_holds(stop_conditions@, steps@),
{
    let n = stop_conditions.len();
    let mut met = false;
    let mut i: usize = 0;
    while i < n
        invariant
            n == stop_conditions@.len(),
            i <= n,
            met <==> exists|j: int| 0 <= j < i && #[trigger] stop_conditions@[j].holds(steps@),
        decreases n - i,
    {
        if stop_conditions[i].check(steps) {
            met = true;
        }
        i = i + 1;
    }
    met
}

/// The output goes into the assistant message: everything but sources,
/// files, empty text, and outcomes of tools that the caller ran.
pub open spec fn goes_to_assistant(o: Output) -> bool {
    match o {
        Output::Text(t) => t.text@.len() > 0,
        Output::Reasoning(_) => true,
        Output::ToolCall(_) => true,
        Output::ToolResult(r) => r.provider_executed == Some(true),
        Output::ToolError(e) => e.provider_executed == Some(true),
        _ => false,
    }
}

/// The output goes into the tool message: outcomes of tools that the
/// caller ran.
pub open spec fn goes_to_tool(o: Output) -> bool {
    match o {
        Output::ToolResult(r) => r.provider_executed != Some(true),
        Output::ToolError(e) => e.provider_executed != Some(true),
        _ => false,
    }
}

/// `p` is the assistant part that `o` becomes.
pub open spec fn is_assistant_part(o: Output, p: AssistantContentPart) -> bool {
    match o {
        Output::Text(t) => p == AssistantContentPart::Text(t.text),
        Output::Reasoning(r) => p == AssistantContentPart::Reasoning(r.text),
        Output::ToolCall(c) => p == AssistantContentPart::ToolCall(
            ToolCallPart {
                tool_call_id: c.tool_call_id,
                tool_name: c.tool_name,
                input: c.input,
                provider_executed: Some(c.provider_executed == Some(true)),
            },
        ),
        Output::ToolResult(r) => p matches AssistantContentPart::ToolResult(part)
            && part.tool_call_id == r.tool_call_id && part.tool_name == r.tool_name
            && is_model_output(r.output, ErrorMode::Plain, part.output),
        Output::ToolError(e) => p matches AssistantContentPart::ToolResult(part)
            && part.tool_call_id == e.tool_call_id && part.tool_name == e.tool_name
            && is_model_output(e.error, ErrorMode::Json, part.output),
        _ => false,
    }
}

/// `p` is the tool-message part that `o` becomes.
pub open spec fn is_tool_part(o: Output, p: ToolResultPart) -> bool {
    match o {
        Output::ToolResult(r) => p.tool_call_id == r.tool_call_id && p.tool_name == r.tool_name
            && is_model_output(r.output, ErrorMode::Plain, p.output),
        Output::ToolError(e) => p.tool_call_id == e.tool_call_id && p.tool_name == e.tool_name
            && is_model_output(e.error, ErrorMode::Text, p.output),
        _ => false,
    }
}

/// The outputs that go into the assistant message, in order.
pub open spec fn assistant_outputs(content: Seq<Output>) -> Seq<Output> {
    content.filter(|o: Output| goes_to_assistant(o))
}

/// The outputs that go into the tool message, in order.
pub open spec fn tool_outputs(content: Seq<Output>) -> Seq<Output> {
    content.filter(|o: Output| goes_to_tool(o))
}

/// Every outcome of a tool call goes into exactly one of the two messages:
/// the assistant message when the provider ran the tool, the tool message
/// otherwise; no other output goes into the tool message.
pub proof fn lemma_tool_outcomes_kept(o: Output)
    ensures
        !(goes_to_assistant(o) && goes_to_tool(o)),
        (o is ToolResult || o is ToolError) ==> (goes_to_assistant(o) || goes_to_tool(o)),
        goes_to_tool(o) ==> (o is ToolResult || o is ToolError),
{
}

/// Whether the output goes into the assistant message.
fn goes_to_assistant_exec(o: &Output) -> (r: bool)
    ensures
        r == goes_to_assistant(*o),
{
    match o {
        Output::Text(t) => !t.text.as_str().is_empty(),
        Output::Reasoning(_) => true,
        Output::ToolCall(_) => true,
        Output::ToolResult(r) => r.provider_executed == Some(true),
        Output::ToolError(e) => e.provider_executed == Some(true),
        _ => false,
    }
}

/// Whether the output goes into the tool message.
fn goes_to_tool_exec(o: &Output) -> (r: bool)
    ensures
        r == goes_to_tool(*o),
{
    match o {
        Output::ToolResult(r) => r.provider_executed != Some(true),
        Output::ToolError(e) => e.provider_executed != Some(true),
        _ => false,
    }
}

/// The assistant part of one output, if it has one.
fn assistant_part(o: Output) -> (r: Option<AssistantContentPart>)
    requires
        goes_to_assistant(o),
    ensures
        r matches Some(p) && is_assistant_part(o, p),
{
    match o {
        Output::Text(t) => Some(AssistantContentPart::Text(t.text)),
        Output::Reasoning(r) => Some(AssistantContentPart::Reasoning(r.text)),
        Output::ToolCall(c) => {
            let provider_executed = match c.provider_executed {
                Some(b) => b,
                None => false,
            };
            Some(
                AssistantContentPart::ToolCall(
                    ToolCallPart {
                        tool_call_id: c.tool_call_id,
                        tool_name: c.tool_name,
                        input: c.input,
                        provider_executed: Some(provider_executed),
                    },
                ),
            )
        },
        Output::ToolResult(r) => Some(
            AssistantContentPart::ToolResult(
                ToolResultPart {
                    tool_call_id: r.tool_call_id,
                    tool_name: r.tool_name,
                    output: create_tool_model_output(r.output, ErrorMode::Plain),
                },
            ),
        ),
        Output::ToolError(e) => Some(
            AssistantContentPart::ToolResult(
                ToolResultPart {
                    tool_call_id: e.tool_call_id,
                    tool_name: e.tool_name,
                    output: create_tool_model_output(e.error, ErrorMode::Json),
                },
            ),
        ),
        _ => None,
    }
}

/// The tool-message part of one output.
fn tool_part(o: Output) -> (r: ToolResultPart)
    requires
        goes_to_tool(o),
    ensures
        is_tool_part(o, r),
{
    match o {
        Output::ToolResult(r) => ToolResultPart {
            tool_call_id: r.tool_call_id,
            tool_name: r.tool_name,
            output: create_tool_model_output(r.output, ErrorMode::Plain),
        },
        Output::ToolError(e) => ToolResultPart {
            tool_call_id: e.tool_call_id,
            tool_name: e.tool_name,
            output: create_tool_model_output(e.error, ErrorMode::Text),
        },
        _ => {
            proof {
                assert(false);
            }
            ToolResultPart {
                tool_call_id: String::new(),
                tool_name: String::new(),
                output: ToolResultOutput::Text { value: String::new() },
            }
        },
    }
}

/// `m` is the assistant message of the outputs `a`, part by part.
pub open spec fn is_assistant_message_of(m: ResponseMessage, a: Seq<Output>) -> bool {
    &&& m is Assistant
    &&& m->Assistant_0.role@ == "assistant"@
    &&& m->Assistant_0.content@.len() == a.len()
    &&& forall|i: int|
        0 <= i < a.len() ==> is_assistant_part(a[i], #[trigger] m->Assistant_0.content@[i])
}

/// `m` is the tool message of the outputs `t`, part by part.
pub open spec fn is_tool_message_of(m: ResponseMessage, t: Seq<Output>) -> bool {
    &&& m is Tool
    &&& m->Tool_0.role@ == "tool"@
    &&& m->Tool_0.content@.len() == t.len()
    &&& forall|i: int| 0 <= i < t.len() ==> is_tool_part(t[i], #[trigger] m->Tool_0.content@[i])
}

/// Filtering a sequence extended by one element extends the filtered
/// sequence by that element when it passes.
proof fn lemma_filter_push(s: Seq<Output>, o: Output, pred: spec_fn(Output) -> bool)
    ensures
        s.push(o).filter(pred) == (if pred(o) {
            s.filter(pred).push(o)
        } else {
            s.filter(pred)
        }),
{
    reveal_with_fuel(Seq::filter, 1);
    assert(s.push(o).drop_last() =~= s);
}

/// The messages that a step with `content` adds to the conversation: an
/// assistant message of what the model said and did (unless there is
/// nothing of that), then a tool message of the outcomes of tools that the
/// caller ran (unless there are none).
pub fn to_response_messages(content: Vec<Output>) -> (r: Vec<ResponseMessage>)
    ensures
        ({
            let a = assistant_outputs(content@);
            let t = tool_outputs(content@);
            &&& r@.len() == (if a.len() > 0 { 1int } else { 0int }) + (if t.len() > 0 {
                1int
            } else {
                0int
            })
            &&& a.len() > 0 ==> is_assistant_message_of(r@[0], a)
            &&& t.len() > 0 ==> is_tool_message_of(r@[r@.len() - 1], t)
        }),
{
    let ghost orig = content@;
    let ghost pa = |o: Output| goes_to_assistant(o);
    let ghost pt = |o: Output| goes_to_tool(o);
    let mut rest = content;
    let mut assistant_content: Vec<AssistantContentPart> = Vec::new();
    let mut tool_content: Vec<ToolResultPart> = Vec::new();
    let n = rest.len();
    let mut k: usize = 0;
    assert(orig.subrange(0, 0).filter(pa) =~= Seq::<Output>::empty()) by {
        reveal_with_fuel(Seq::filter, 1);
    }
    assert(orig.subrange(0, 0).filter(pt) =~= Seq::<Output>::empty()) by {
        reveal_with_fuel(Seq::filter, 1);
    }
    while k < n
        invariant
            n == orig.len(),
            k <= n,
            pa == (|o: Output| goes_to_assistant(o)),
            pt == (|o: Output| goes_to_tool(o)),
            rest@ == orig.subrange(k as int, n as int),
            assistant_content@.len() == orig.subrange(0, k as int).filter(pa).len(),
            forall|i: int|
                0 <= i < assistant_content@.len() ==> is_assistant_part(
                    orig.subrange(0, k as int).filter(pa)[i],
                    #[trigger] assistant_content@[i],
                ),
            tool_content@.len() == orig.subrange(0, k as int).filter(pt).len(),
            forall|i: int|
                0 <= i < tool_content@.len() ==> is_tool_part(
                    orig.subrange(0, k as int).filter(pt)[i],
                    #[trigger] tool_content@[i],
                ),
        decreases n - k,
    {
        let o = rest.remove(0);
        let ghost prefix = orig.subrange(0, k as int);
        assert(orig.subrange(0, k as int + 1) =~= prefix.push(o));
        proof {
            lemma_filter_push(prefix, o, pa);
            lemma_filter_push(prefix, o, pt);
        }
        let to_assistant = goes_to_assistant_exec(&o);
        let to_tool = goes_to_tool_exec(&o);
        if to_assistant {
            if let Some(p) = assistant_part(o) {
                assistant_content.push(p);
            }
        } else if to_tool {
            tool_content.push(tool_part(o));
        }
        k = k + 1;
    }
    assert(orig.subrange(0, n as int) =~= orig);
    let mut messages: Vec<ResponseMessage> = Vec::new();
    if assistant_content.len() > 0 {
        messages.push(ResponseMessage::Assistant(AssistantMessage::with_parts(assistant_content)));
    }
    if tool_content.len() > 0 {
        messages.push(ResponseMessage::Tool(ToolMessage::new(tool_content)));
    }
    messages
}

/// The data of a file that a model produced.
#[derive(Debug, Clone, PartialEq)]
pub enum FileData {
    Base64(String),
    Binary(Vec<u8>),
}

/// A file that a model produced.
#[derive(Debug, Clone, PartialEq)]
pub struct LanguageModelFile {
    pub media_type: String,
    pub data: FileData,
}

impl LanguageModelFile {
    /// A file of type `media_type` whose data is the base64 text `data`.
    pub fn from_base64(media_type: &str, data: &str) -> (f: Self)
        ensures
            f.media_type@ == media_type@,
            f.data matches FileData::Base64(d) && d@ == data@,
    {
        LanguageModelFile {
            media_type: media_type.to_string(),
            data: FileData::Base64(data.to_string()),
        }
    }

    /// A file of type `media_type` whose data is `data`.
    pub fn from_binary(media_type: &str, data: Vec<u8>) -> (f: Self)
        ensures
            f.media_type@ == media_type@,
            f.data == FileData::Binary(data),
    {
        LanguageModelFile { media_type: media_type.to_string(), data: FileData::Binary(data) }
    }
}

/// A tool call as a model returns it.
#[derive(Debug, Clone, PartialEq)]
pub struct LanguageModelToolCall {
    pub tool_call_id: String,
    pub tool_name: String,
    /// The input as JSON text.
    pub input: String,
}

/// The outcome of a tool that the provider ran, as a model returns it.
#[derive(Debug, Clone, PartialEq)]
pub struct LanguageModelToolResult {
    pub tool_call_id: String,
    pub tool_name: String,
    pub result: serde_json::Value,
    pub is_error: Option<bool>,
}

/// One part of what a model returned.
#[derive(Debug, Clone, PartialEq)]
pub enum LanguageModelContent {
    Text(String),
    Reasoning(String),
    Source(LanguageModelSource),
    File(LanguageModelFile),
    ToolCall(LanguageModelToolCall),
    ToolResult(LanguageModelToolResult),
}

/// The index of the first call with id `id`, or the number of calls when
/// there is none.
pub open spec fn first_call_index(calls: Seq<ToolCall>, id: Seq<char>) -> nat
    decreases calls.len(),
{
    if calls.len() == 0 {
        0
    } else if calls[0].tool_call_id@ == id {
        0
    } else {
        1 + first_call_index(calls.drop_first(), id)
    }
}

proof fn lemma_first_call_index(calls: Seq<ToolCall>, id: Seq<char>)
    ensures
        first_call_index(calls, id) <= calls.len(),
        first_call_index(calls, id) < calls.len() ==> calls[first_call_index(
            calls,
            id,
        ) as int].tool_call_id@ == id,
        forall|j: int| 0 <= j < first_call_index(calls, id) ==> #[trigger] calls[j].tool_call_id@ != id,
    decreases calls.len(),
{
    if calls.len() > 0 && calls[0].tool_call_id@ != id {
        let t = calls.drop_first();
        lemma_first_call_index(t, id);
        assert forall|j: int| 0 <= j < first_call_index(calls, id) implies #[trigger] calls[j].tool_call_id@
            != id by {
            if j > 0 {
                assert(calls[j] == t[j - 1]);
            }
        }
    }
}

/// The id of the call that a tool call or tool result part refers to.
pub open spec fn content_call_id(c: LanguageModelContent) -> Seq<char> {
    match c {
        LanguageModelContent::ToolCall(tc) => tc.tool_call_id@,
        LanguageModelContent::ToolResult(tr) => tr.tool_call_id@,
        _ => Seq::empty(),
    }
}

/// The part becomes an output: every part but a tool call or tool result
/// that matches none of `calls`.
pub open spec fn has_output(c: LanguageModelContent, calls: Seq<ToolCall>) -> bool {
    match c {
        LanguageModelContent::ToolCall(_) | LanguageModelContent::ToolResult(_) => first_call_index(
            calls,
            content_call_id(c),
        ) < calls.len(),
        _ => true,
    }
}

/// `o` is the output that the part `c` becomes: text, reasoning and
/// sources as they are, files as generated files, a tool call as the first
/// of `calls` with its id, and a provider's tool result as a result or an
/// error of that call, marked as run by the provider.
pub open spec fn is_output_of(c: LanguageModelContent, calls: Seq<ToolCall>, o: Output) -> bool {
    let call = calls[first_call_index(calls, content_call_id(c)) as int];
    match c {
        LanguageModelContent::Text(t) => o == Output::Text(TextOutput { text: t }),
        LanguageModelContent::Reasoning(t) => o matches Output::Reasoning(r) && r.text == t
            && r.reasoning_type@ == "reasoning"@ && r.provider_metadata is None,
        LanguageModelContent::Source(s) => o matches Output::Source(so) && so.source == s
            && so.source_type@ == "source"@ && so.provider_metadata is None,
        LanguageModelContent::File(f) => o == Output::File(
            GeneratedFile {
                data: match f.data {
                    FileData::Base64(b) => DataContent::Base64(b),
                    FileData::Binary(v) => DataContent::Bytes(v),
                },
                media_type: f.media_type,
                name: None,
            },
        ),
        LanguageModelContent::ToolCall(_) => o == Output::ToolCall(call),
        LanguageModelContent::ToolResult(tr) => if tr.is_error == Some(true) {
            o == Output::ToolError(
                ToolError {
                    tool_call_id: tr.tool_call_id,
                    tool_name: tr.tool_name,
                    input: call.input,
                    error: tr.result,
                    provider_executed: Some(true),
                },
            )
        } else {
            o == Output::ToolResult(
                ToolResult {
                    tool_call_id: tr.tool_call_id,
                    tool_name: tr.tool_name,
                    input: call.input,
                    output: tr.result,
                    provider_executed: Some(true),
                },
            )
        },
    }
}

/// The output that a tool run by the caller gives.
pub open spec fn output_of_tool(t: ToolOutput) -> Output {
    match t {
        ToolOutput::Result(r) => Output::ToolResult(r),
        ToolOutput::Error(e) => Output::ToolError(e),
    }
}

/// The index of the first of `calls` with id `id`, if there is one.
fn find_call(calls: &Vec<ToolCall>, id: &String) -> (r: Option<usize>)
    ensures
        first_call_index(calls@, id@) <= calls@.len(),
        match r {
            Some(i) => i == first_call_index(calls@, id@) && i < calls@.len(),
            None => first_call_index(calls@, id@) == calls@.len(),
        },
{
    proof {
        lemma_first_call_index(calls@, id@);
    }
    let n = calls.len();
    let mut i: usize = 0;
    while i < n
        invariant
            n == calls@.len(),
            i <= n,
            i <= first_call_index(calls@, id@),
            first_call_index(calls@, id@) <= n,
            first_call_index(calls@, id@) < n ==> calls@[first_call_index(calls@, id@) as int].tool_call_id@
                == id@,
            forall|j: int| 0 <= j < first_call_index(calls@, id@) ==> #[trigger] calls@[j].tool_call_id@ != id@,
        decreases n - i,
    {
        if calls[i].tool_call_id == *id {
            return Some(i);
        }
        i = i + 1;
    }
    None
}

/// The output that one part of a model's reply becomes, if any.
fn content_output(c: LanguageModelContent, calls: &Vec<ToolCall>) -> (r: Option<Output>)
    ensures
        r is Some <==> has_output(c, calls@),
        r matches Some(o) ==> is_output_of(c, calls@, o),
{
    match c {
        LanguageModelContent::Text(text) => Some(Output::Text(TextOutput { text })),
        LanguageModelContent::Reasoning(text) => Some(
            Output::Reasoning(
                ReasoningOutput {
                    reasoning_type: "reasoning".to_string(),
                    text,
                    provider_metadata: None,
                },
            ),
        ),
        LanguageModelContent::Source(source) => Some(Output::Source(SourceOutput::new(source))),
        LanguageModelContent::File(file) => {
            let data = match file.data {
                FileData::Base64(b) => DataContent::Base64(b),
                FileData::Binary(v) => DataContent::Bytes(v),
            };
            Some(Output::File(GeneratedFile { data, media_type: file.media_type, name: None }))
        },
        LanguageModelContent::ToolCall(tc) => match find_call(calls, &tc.tool_call_id) {
            Some(i) => Some(Output::ToolCall(calls[i].clone())),
            None => None,
        },
        LanguageModelContent::ToolResult(tr) => match find_call(calls, &tr.tool_call_id) {
            Some(i) => {
                let input = calls[i].input.clone();
                if tr.is_error == Some(true) {
                    Some(
                        Output::ToolError(
                            ToolError {
                                tool_call_id: tr.tool_call_id,
                                tool_name: tr.tool_name,
                                input,
                                error: tr.result,
                                provider_executed: Some(true),
                            },
                        ),
                    )
                } else {
                    Some(
                        Output::ToolResult(
                            ToolResult {
                                tool_call_id: tr.tool_call_id,
                                tool_name: tr.tool_name,
                                input,
                                output: tr.result,
                                provider_executed: Some(true),
                            },
                        ),
                    )
                }
            },
            None => None,
        },
    }
}

/// Filtering a sequence extended by one element extends the filtered
/// sequence by that element when it passes.
proof fn lemma_filter_push_content(
    s: Seq<LanguageModelContent>,
    c: LanguageModelContent,
    pred: spec_fn(LanguageModelContent) -> bool,
)
    ensures
        s.push(c).filter(pred) == (if pred(c) {
            s.filter(pred).push(c)
        } else {
            s.filter(pred)
        }),
{
    reveal_with_fuel(Seq::filter, 1);
    assert(s.push(c).drop_last() =~= s);
}

/// The outputs of a step: each part of the model's reply that becomes an
/// output, in order, then the outcomes of the tools that the caller ran,
/// in order.
pub fn as_output(
    content: Vec<LanguageModelContent>,
    tool_calls: Vec<ToolCall>,
    tool_outputs: Vec<ToolOutput>,
) -> (r: Vec<Output>)
    ensures
        ({
            let produced = content@.filter(|c: LanguageModelContent| has_output(c, tool_calls@));
            &&& r@.len() == produced.len() + tool_outputs@.len()
            &&& forall|i: int|
                0 <= i < produced.len() ==> is_output_of(produced[i], tool_calls@, #[trigger] r@[i])
            &&& forall|j: int|
                0 <= j < tool_outputs@.len() ==> #[trigger] r@[produced.len() + j]
                    == output_of_tool(tool_outputs@[j])
        }),
{
    let ghost orig = content@;
    let ghost pred = |c: LanguageModelContent| has_output(c, tool_calls@);
    let mut rest = content;
    let mut result: Vec<Output> = Vec::new();
    let n = rest.len();
    let mut k: usize = 0;
    assert(orig.subrange(0, 0).filter(pred) =~= Seq::<LanguageModelContent>::empty()) by {
        reveal_with_fuel(Seq::filter, 1);
    }
    while k < n
        invariant
            n == orig.len(),
            k <= n,
            pred == (|c: LanguageModelContent| has_output(c, tool_calls@)),
            rest@ == orig.subrange(k as int, n as int),
            result@.len() == orig.subrange(0, k as int).filter(pred).len(),
            forall|i: int|
                0 <= i < result@.len() ==> is_output_of(
                    orig.subrange(0, k as int).filter(pred)[i],
                    tool_calls@,
                    #[trigger] result@[i],
                ),
        decreases n - k,
    {
        let c = rest.remove(0);
        let ghost prefix = orig.subrange(0, k as int);
        assert(orig.subrange(0, k as int + 1) =~= prefix.push(c));
        proof {
            lemma_filter_push_content(prefix, c, pred);
        }
        if let Some(o) = content_output(c, &tool_calls) {
            result.push(o);
        }
        k = k + 1;
    }
    assert(orig.subrange(0, n as int) =~= orig);
    let ghost produced = orig.filter(pred);
    let ghost produced_len = result@.len();
    let mut outs = tool_outputs;
    let m = outs.len();
    let ghost outs0 = outs@;
    let mut j: usize = 0;
    while j < m
        invariant
            m == outs0.len(),
            j <= m,
            outs@ == outs0.subrange(j as int, m as int),
            result@.len() == produced_len + j,
            produced_len == produced.len(),
            forall|i: int|
                0 <= i < produced_len ==> is_output_of(produced[i], tool_calls@, #[trigger] result@[i]),
            forall|i: int| 0 <= i < j ==> #[trigger] result@[produced_len + i] == output_of_tool(outs0[i]),
        decreases m - j,
    {
        let t = outs.remove(0);
        let o = match t {
            ToolOutput::Result(res) => Output::ToolResult(res),
            ToolOutput::Error(err) => Output::ToolError(err),
        };
        result.push(o);
        j = j + 1;
    }
    result
}

/// The sum of one usage field over the steps.
pub open spec fn usage_sum(steps: Seq<StepResult>, field: spec_fn(LanguageModelUsage) -> u64) -> int
    decreases steps.len(),
{
    if steps.len() == 0 {
        0
    } else {
        usage_sum(steps.drop_last(), field) + field(steps.last().usage)
    }
}

/// The five usage fields.
pub open spec fn input_tokens_of(u: LanguageModelUsage) -> u64 {
    u.input_tokens
}

pub open spec fn output_tokens_of(u: LanguageModelUsage) -> u64 {
    u.output_tokens
}

pub open spec fn total_tokens_of(u: LanguageModelUsage) -> u64 {
    u.total_tokens
}

pub open spec fn reasoning_tokens_of(u: LanguageModelUsage) -> u64 {
    u.reasoning_tokens
}

pub open spec fn cached_tokens_of(u: LanguageModelUsage) -> u64 {
    u.cached_input_tokens
}

/// Each usage field summed over the steps fits in a `u64`.
pub open spec fn usage_fits(steps: Seq<StepResult>) -> bool {
    &&& usage_sum(steps, |u: LanguageModelUsage| input_tokens_of(u)) <= u64::MAX
    &&& usage_sum(steps, |u: LanguageModelUsage| output_tokens_of(u)) <= u64::MAX
    &&& usage_sum(steps, |u: LanguageModelUsage| total_tokens_of(u)) <= u64::MAX
    &&& usage_sum(steps, |u: LanguageModelUsage| reasoning_tokens_of(u)) <= u64::MAX
    &&& usage_sum(steps, |u: LanguageModelUsage| cached_tokens_of(u)) <= u64::MAX
}

/// `u` is the usage of the steps added up field by field.
pub open spec fn is_total_usage(steps: Seq<StepResult>, u: LanguageModelUsage) -> bool {
    &&& u.input_tokens == usage_sum(steps, |u: LanguageModelUsage| input_tokens_of(u))
    &&& u.output_tokens == usage_sum(steps, |u: LanguageModelUsage| output_tokens_of(u))
    &&& u.total_tokens == usage_sum(steps, |u: LanguageModelUsage| total_tokens_of(u))
    &&& u.reasoning_tokens == usage_sum(steps, |u: LanguageModelUsage| reasoning_tokens_of(u))
    &&& u.cached_input_tokens == usage_sum(steps, |u: LanguageModelUsage| cached_tokens_of(u))
}

/// Sums of a prefix are at most the sums of the whole.
proof fn lemma_usage_sum_prefix(
    steps: Seq<StepResult>,
    k: int,
    field: spec_fn(LanguageModelUsage) -> u64,
)
    requires
        0 <= k <= steps.len(),
    ensures
        usage_sum(steps.subrange(0, k), field) <= usage_sum(steps, field),
        k < steps.len() ==> usage_sum(steps.subrange(0, k + 1), field) == usage_sum(
            steps.subrange(0, k),
            field,
        ) + field(steps[k].usage),
    decreases steps.len(),
{
    if k < steps.len() {
        let t = steps.subrange(0, k + 1);
        assert(t.drop_last() =~= steps.subrange(0, k));
        assert(t.last() == steps[k]);
    }
    if k == steps.len() {
        assert(steps.subrange(0, k) =~= steps);
    } else {
        let d = steps.drop_last();
        lemma_usage_sum_prefix(d, k, field);
        assert(d.subrange(0, k) =~= steps.subrange(0, k));
    }
}

/// The usage of all the steps, added up field by field.
pub fn total_usage(steps: &Vec<StepResult>) -> (u: LanguageModelUsage)
    requires
        usage_fits(steps@),
    ensures
        is_total_usage(steps@, u),
{
    let n = steps.len();
    let mut acc = LanguageModelUsage::zero();
    let mut k: usize = 0;
    assert(steps@.subrange(0, 0) =~= Seq::<StepResult>::empty());
    while k < n
        invariant
            n == steps@.len(),
            k <= n,
            usage_fits(steps@),
            is_total_usage(steps@.subrange(0, k as int), acc),
        decreases n - k,
    {
        proof {
            lemma_usage_sum_prefix(steps@, k as int, |u: LanguageModelUsage| input_tokens_of(u));
            lemma_usage_sum_prefix(steps@, k as int, |u: LanguageModelUsage| output_tokens_of(u));
            lemma_usage_sum_prefix(steps@, k as int, |u: LanguageModelUsage| total_tokens_of(u));
            lemma_usage_sum_prefix(steps@, k as int, |u: LanguageModelUsage| reasoning_tokens_of(u));
            lemma_usage_sum_prefix(steps@, k as int, |u: LanguageModelUsage| cached_tokens_of(u));
            lemma_usage_sum_prefix(steps@, k as int + 1, |u: LanguageModelUsage| input_tokens_of(u));
            lemma_usage_sum_prefix(steps@, k as int + 1, |u: LanguageModelUsage| output_tokens_of(u));
            lemma_usage_sum_prefix(steps@, k as int + 1, |u: LanguageModelUsage| total_tokens_of(u));
            lemma_usage_sum_prefix(steps@, k as int + 1, |u: LanguageModelUsage| reasoning_tokens_of(u));
            lemma_usage_sum_prefix(steps@, k as int + 1, |u: LanguageModelUsage| cached_tokens_of(u));
        }
        let u = steps[k].usage;
        acc = LanguageModelUsage {
            input_tokens: acc.input_tokens + u.input_tokens,
            output_tokens: acc.output_tokens + u.output_tokens,
            total_tokens: acc.total_tokens + u.total_tokens,
            reasoning_tokens: acc.reasoning_tokens + u.reasoning_tokens,
            cached_input_tokens: acc.cached_input_tokens + u.cached_input_tokens,
        };
        k = k + 1;
    }
    assert(steps@.subrange(0, n as int) =~= steps@);
    acc
}

/// The call is for a tool that the caller runs.
pub open spec fn is_client_call(c: ToolCall) -> bool {
    c.provider_executed != Some(true)
}

/// The calls among `calls` that the caller runs, in order: those that the
/// provider did not run.
pub fn client_tool_calls(calls: &Vec<ToolCall>) -> (r: Vec<ToolCall>)
    ensures
        r@ == calls@.filter(|c: ToolCall| is_client_call(c)),
{
    let ghost pred = |c: ToolCall| is_client_call(c);
    let n = calls.len();
    let mut r: Vec<ToolCall> = Vec::new();
    let mut k: usize = 0;
    assert(calls@.subrange(0, 0).filter(pred) =~= Seq::<ToolCall>::empty()) by {
        reveal_with_fuel(Seq::filter, 1);
    }
    while k < n
        invariant
            n == calls@.len(),
            k <= n,
            pred == (|c: ToolCall| is_client_call(c)),
            r@ == calls@.subrange(0, k as int).filter(pred),
        decreases n - k,
    {
        let ghost prefix = calls@.subrange(0, k as int);
        assert(calls@.subrange(0, k as int + 1) =~= prefix.push(calls@[k as int]));
        assert(prefix.push(calls@[k as int]).drop_last() =~= prefix);
        proof {
            reveal_with_fuel(Seq::filter, 1);
        }
        if calls[k].provider_executed != Some(true) {
            r.push(calls[k].clone());
        }
        k = k + 1;
    }
    assert(calls@.subrange(0, n as int) =~= calls@);
    r
}

/// A tool as offered to a model in a call.
#[derive(Debug, Clone)]
pub enum LanguageModelTool {
    /// A tool that the caller runs, described by a JSON schema text.
    Function { name: String, description: Option<String>, input_schema: String },
    /// A tool that the provider defines.
    ProviderDefined { id: String, name: String, args: ToolArgs },
}

/// The name that the model calls a tool by.
pub open spec fn tool_name_of(t: LanguageModelTool) -> Seq<char> {
    match t {
        LanguageModelTool::Function { name, .. } => name@,
        LanguageModelTool::ProviderDefined { name, .. } => name@,
    }
}

/// The tool is among the active ones.
pub open spec fn is_active(t: LanguageModelTool, active: Seq<String>) -> bool {
    exists|i: int| 0 <= i < active.len() && #[trigger] active[i]@ == tool_name_of(t)
}

/// Whether `name` is among `active`.
fn name_is_active(name: &String, active: &Vec<String>) -> (r: bool)
    ensures
        r == exists|i: int| 0 <= i < active@.len() && #[trigger] active@[i]@ == name@,
{
    let n = active.len();
    let mut i: usize = 0;
    while i < n
        invariant
            n == active@.len(),
            i <= n,
            forall|j: int| 0 <= j < i ==> #[trigger] active@[j]@ != name@,
        decreases n - i,
    {
        if active[i] == *name {
            return true;
        }
        i = i + 1;
    }
    false
}

/// The tools whose names are among `active`, in order.
pub fn filter_active_tools(tools: Vec<LanguageModelTool>, active: &Vec<String>) -> (r: Vec<
    LanguageModelTool,
>)
    ensures
        r@ == tools@.filter(|t: LanguageModelTool| is_active(t, active@)),
{
    let ghost orig = tools@;
    let ghost pred = |t: LanguageModelTool| is_active(t, active@);
    let mut rest = tools;
    let mut r: Vec<LanguageModelTool> = Vec::new();
    let n = rest.len();
    let mut k: usize = 0;
    assert(orig.subrange(0, 0).filter(pred) =~= Seq::<LanguageModelTool>::empty()) by {
        reveal_with_fuel(Seq::filter, 1);
    }
    while k < n
        invariant
            n == orig.len(),
            k <= n,
            pred == (|t: LanguageModelTool| is_active(t, active@)),
            rest@ == orig.subrange(k as int, n as int),
            r@ == orig.subrange(0, k as int).filter(pred),
        decreases n - k,
    {
        let t = rest.remove(0);
        let ghost prefix = orig.subrange(0, k as int);
        assert(orig.subrange(0, k as int + 1) =~= prefix.push(t));
        assert(prefix.push(t).drop_last() =~= prefix);
        proof {
            reveal_with_fuel(Seq::filter, 1);
        }
        let keep = match &t {
            LanguageModelTool::Function { name, .. } => name_is_active(name, active),
            LanguageModelTool::ProviderDefined { name, .. } => name_is_active(name, active),
        };
        if keep {
            r.push(t);
        }
        k = k + 1;
    }
    assert(orig.subrange(0, n as int) =~= orig);
    r
}

/// How a model is told to use the tools it is offered.
#[derive(Debug, Clone, PartialEq)]
pub enum LanguageModelToolChoice {
    /// The model decides.
    Auto,
    /// The model calls no tool.
    NoTools,
    /// The model calls some tool.
    Required,
    /// The model calls the tool `tool_name`.
    Tool { tool_name: String },
}

/// What the preparation of a step changes for that step; what it leaves
/// out stays as the generation set it.
#[derive(Debug, Clone, Default, PartialEq)]
pub struct PrepareStepResult {
    pub tool_choice: Option<LanguageModelToolChoice>,
    /// The names of the tools offered in the step.
    pub active_tools: Option<Vec<String>>,
    pub system: Option<String>,
    pub messages: Option<Vec<Message>>,
}

/// What the preparation of a step is shown: the steps so far, the number
/// of the coming step and the conversation it would be sent.
pub struct PrepareStepOptions<'a> {
    pub steps: &'a [StepResult],
    pub step_number: usize,
    pub messages: &'a [Message],
}

/// What one step sends to the model.
#[derive(Debug, Clone)]
pub struct StepCall {
    pub system: Option<String>,
    pub messages: Vec<Message>,
    pub tool_choice: Option<LanguageModelToolChoice>,
    pub tools: Vec<LanguageModelTool>,
}

/// The value that a preparation gives for a setting when it gives one,
/// else the generation's own.
pub open spec fn prepared_or<T>(prepared: Option<T>, own: T) -> T {
    match prepared {
        Some(v) => v,
        None => own,
    }
}

/// What a step sends: the system instruction, conversation and tool choice
/// that its preparation gives, or else the generation's own, and the tools
/// among `tools` that the preparation makes active (all of them when it
/// names none).
pub fn prepare_step_call(
    prepared: Option<PrepareStepResult>,
    system: Option<String>,
    messages: Vec<Message>,
    tool_choice: Option<LanguageModelToolChoice>,
    tools: Vec<LanguageModelTool>,
) -> (r: StepCall)
    ensures
        ({
            let p = match prepared {
                Some(p) => p,
                None => PrepareStepResult {
                    tool_choice: None,
                    active_tools: None,
                    system: None,
                    messages: None,
                },
            };
            &&& r.system == (match p.system {
                Some(s) => Some(s),
                None => system,
            })
            &&& r.messages == prepared_or(p.messages, messages)
            &&& r.tool_choice == (match p.tool_choice {
                Some(c) => Some(c),
                None => tool_choice,
            })
            &&& r.tools@ == (match p.active_tools {
                Some(a) => tools@.filter(|t: LanguageModelTool| is_active(t, a@)),
                None => tools@,
            })
        }),
{
    let p = match prepared {
        Some(p) => p,
        None => PrepareStepResult {
            tool_choice: None,
            active_tools: None,
            system: None,
            messages: None,
        },
    };
    let system = match p.system {
        Some(s) => Some(s),
        None => system,
    };
    let messages = match p.messages {
        Some(m) => m,
        None => messages,
    };
    let tool_choice = match p.tool_choice {
        Some(c) => Some(c),
        None => tool_choice,
    };
    let tools = match p.active_tools {
        Some(a) => filter_active_tools(tools, &a),
        None => tools,
    };
    StepCall { system, messages, tool_choice, tools }
}

/// What the loop of a multi-step generation does next.
#[derive(Debug, Clone, Copy, PartialEq, Eq)]
pub enum LoopAction {
    /// Make another step with the outcomes of the tools.
    NextStep,
    /// Stop and build the result.
    Finish,
}

/// Another step follows a step when the step made calls of tools that the
/// caller runs, every such call has an outcome, and no stop condition holds.
pub open spec fn continues(client_calls: nat, client_outputs: nat, stop_met: bool) -> bool {
    client_calls > 0 && client_outputs == client_calls && !stop_met
}

/// Whether a stop condition holds after `steps`: one of the given
/// conditions, or, when none were given, the condition that one step has
/// been made.
pub open spec fn stop_met(conditions: Option<Seq<Box<dyn StopCondition>>>, steps: Seq<StepResult>) -> bool {
    match conditions {
        Some(c) => any_holds(c, steps),
        None => steps.len() == 1,
    }
}

/// Without stop conditions a generation ends after its first step,
/// whatever that step did.
pub proof fn lemma_default_ends_after_first_step(steps: Seq<StepResult>, client_calls: nat, client_outputs: nat)
    requires
        steps.len() == 1,
    ensures
        !continues(client_calls, client_outputs, stop_met(None, steps)),
{
}

/// A generation never goes on after a step whose calls of tools that the
/// caller runs did not all get an outcome, nor after a step without such
/// calls.
pub proof fn lemma_no_step_without_outcomes(client_calls: nat, client_outputs: nat, met: bool)
    requires
        client_calls == 0 || client_outputs != client_calls,
    ensures
        !continues(client_calls, client_outputs, met),
{
}

/// The decisions of a multi-step generation: it records each step and says
/// whether another one follows.
pub struct GenerationLoop {
    steps: Vec<StepResult>,
    stop_conditions: Option<Vec<Box<dyn StopCondition>>>,
}

impl GenerationLoop {
    /// The steps recorded so far.
    pub closed spec fn spec_steps(&self) -> Seq<StepResult> {
        self.steps@
    }

    /// The stop conditions that were given, if any.
    pub closed spec fn spec_conditions(&self) -> Option<Seq<Box<dyn StopCondition>>> {
        match self.stop_conditions {
            Some(c) => Some(c@),
            None => None,
        }
    }

    /// A loop with no steps yet, stopping on `stop_when`, or after one step
    /// when no conditions are given.
    pub fn new(stop_when: Option<Vec<Box<dyn StopCondition>>>) -> (l: Self)
        ensures
            l.spec_steps().len() == 0,
            l.spec_conditions() == (match stop_when {
                Some(c) => Some(c@),
                None => None,
            }),
    {
        GenerationLoop { steps: Vec::new(), stop_conditions: stop_when }
    }

    /// The steps recorded so far.
    pub fn steps(&self) -> (r: &Vec<StepResult>)
        ensures
            r@ == self.spec_steps(),
    {
        &self.steps
    }

    /// Whether a stop condition holds after the steps recorded so far.
    fn stop_condition_met(&self) -> (r: bool)
        ensures
            r == stop_met(self.spec_conditions(), self.spec_steps()),
    {
        match &self.stop_conditions {
            Some(c) => {
                let cs = c.as_slice();
                let st = self.steps.as_slice();
                let r = is_stop_condition_met(cs, st);
                assert(self.spec_conditions() == Some(c@));
                assert(cs@ == c@ && st@ == self.steps@);
                r
            },
            None => self.steps.len() == 1,
        }
    }

    /// Records a step that made `client_calls` calls of tools that the
    /// caller runs, of which `client_outputs` have an outcome, and says
    /// whether another step follows.
    pub fn record_step(&mut self, step: StepResult, client_calls: usize, client_outputs: usize) -> (a:
        LoopAction)
        ensures
            final(self).spec_steps() == old(self).spec_steps().push(step),
            final(self).spec_conditions() == old(self).spec_conditions(),
            (a == LoopAction::NextStep) == continues(
                client_calls as nat,
                client_outputs as nat,
                stop_met(old(self).spec_conditions(), final(self).spec_steps()),
            ),
    {
        self.steps.push(step);
        if client_calls > 0 && client_outputs == client_calls {
            if self.stop_condition_met() {
                LoopAction::Finish
            } else {
                LoopAction::NextStep
            }
        } else {
            LoopAction::Finish
        }
    }

    /// The steps, handing them over.
    pub fn into_steps(self) -> (r: Vec<StepResult>)
        ensures
            r@ == self.spec_steps(),
    {
        self.steps
    }
}

/// The text of the outputs: their text parts joined.
pub open spec fn text_of(c: Seq<Output>) -> Seq<char>
    decreases c.len(),
{
    if c.len() == 0 {
        Seq::empty()
    } else {
        match c.last() {
            Output::Text(t) => text_of(c.drop_last()) + t.text@,
            _ => text_of(c.drop_last()),
        }
    }
}

/// The reasoning of the outputs: their reasoning parts joined, or nothing
/// when there is none.
pub open spec fn reasoning_text_of(c: Seq<Output>) -> Option<Seq<char>>
    decreases c.len(),
{
    if c.len() == 0 {
        None
    } else {
        match c.last() {
            Output::Reasoning(r) => Some(
                match reasoning_text_of(c.drop_last()) {
                    Some(t) => t + r.text@,
                    None => r.text@,
                },
            ),
            _ => reasoning_text_of(c.drop_last()),
        }
    }
}

/// The reasoning parts of the outputs, in order.
pub open spec fn reasoning_of(c: Seq<Output>) -> Seq<ReasoningOutput>
    decreases c.len(),
{
    if c.len() == 0 {
        Seq::empty()
    } else {
        match c.last() {
            Output::Reasoning(r) => reasoning_of(c.drop_last()).push(r),
            _ => reasoning_of(c.drop_last()),
        }
    }
}

/// The files of the outputs, in order.
pub open spec fn files_of(c: Seq<Output>) -> Seq<GeneratedFile>
    decreases c.len(),
{
    if c.len() == 0 {
        Seq::empty()
    } else {
        match c.last() {
            Output::File(f) => files_of(c.drop_last()).push(f),
            _ => files_of(c.drop_last()),
        }
    }
}

/// The sources of the outputs, in order.
pub open spec fn sources_of(c: Seq<Output>) -> Seq<LanguageModelSource>
    decreases c.len(),
{
    if c.len() == 0 {
        Seq::empty()
    } else {
        match c.last() {
            Output::Source(so) => sources_of(c.drop_last()).push(so.source),
            _ => sources_of(c.drop_last()),
        }
    }
}

/// The tool calls of the outputs, in order.
pub open spec fn tool_calls_of(c: Seq<Output>) -> Seq<ToolCall>
    decreases c.len(),
{
    if c.len() == 0 {
        Seq::empty()
    } else {
        match c.last() {
            Output::ToolCall(t) => tool_calls_of(c.drop_last()).push(t),
            _ => tool_calls_of(c.drop_last()),
        }
    }
}

/// The tool results of the outputs, in order.
pub open spec fn tool_results_of(c: Seq<Output>) -> Seq<ToolResult>
    decreases c.len(),
{
    if c.len() == 0 {
        Seq::empty()
    } else {
        match c.last() {
            Output::ToolResult(t) => tool_results_of(c.drop_last()).push(t),
            _ => tool_results_of(c.drop_last()),
        }
    }
}

/// The first `k + 1` items are the first `k` and item `k`.
proof fn lemma_prefix_step<T>(s: Seq<T>, k: int)
    requires
        0 <= k < s.len(),
    ensures
        s.subrange(0, k + 1).drop_last() == s.subrange(0, k),
        s.subrange(0, k + 1).last() == s[k],
        s.subrange(0, k + 1).len() > 0,
{
    assert(s.subrange(0, k + 1).drop_last() =~= s.subrange(0, k));
}

/// Two files are the same: same content, media type and name.
pub open spec fn same_file(f: GeneratedFile, g: GeneratedFile) -> bool {
    &&& data_view(f.data) == data_view(g.data)
    &&& f.media_type@ == g.media_type@
    &&& opt_string_eq(f.name, g.name)
}

impl StepResult {
    /// The text of the step: its text parts joined.
    pub fn text(&self) -> (r: String)
        ensures
            r@ == text_of(self.content@),
    {
        let n = self.content.len();
        let mut r = String::new();
        let mut k: usize = 0;
        while k < n
            invariant
                n == self.content@.len(),
                k <= n,
                r@ == text_of(self.content@.subrange(0, k as int)),
            decreases n - k,
        {
            proof {
                lemma_prefix_step(self.content@, k as int);
            }
            if let Output::Text(t) = &self.content[k] {
                r = r.concat(t.text.as_str());
            }
            k = k + 1;
        }
        assert(self.content@.subrange(0, n as int) =~= self.content@);
        r
    }

    /// The reasoning of the step: its reasoning parts joined, or nothing
    /// when there is none.
    pub fn reasoning_text(&self) -> (r: Option<String>)
        ensures
            opt_text(r) == reasoning_text_of(self.content@),
    {
        let n = self.content.len();
        let mut r: Option<String> = None;
        let mut k: usize = 0;
        while k < n
            invariant
                n == self.content@.len(),
                k <= n,
                opt_text(r) == reasoning_text_of(self.content@.subrange(0, k as int)),
            decreases n - k,
        {
            proof {
                lemma_prefix_step(self.content@, k as int);
            }
            if let Output::Reasoning(x) = &self.content[k] {
                r = match r {
                    Some(t) => Some(t.concat(x.text.as_str())),
                    None => Some(x.text.clone()),
                };
            }
            k = k + 1;
        }
        assert(self.content@.subrange(0, n as int) =~= self.content@);
        r
    }

    /// The reasoning parts of the step.
    pub fn reasoning(&self) -> (r: Vec<ReasoningOutput>)
        ensures
            r@ == reasoning_of(self.content@),
    {
        let n = self.content.len();
        let mut r: Vec<ReasoningOutput> = Vec::new();
        let mut k: usize = 0;
        while k < n
            invariant
                n == self.content@.len(),
                k <= n,
                r@ == reasoning_of(self.content@.subrange(0, k as int)),
            decreases n - k,
        {
            proof {
                lemma_prefix_step(self.content@, k as int);
            }
            if let Output::Reasoning(x) = &self.content[k] {
                r.push(x.clone());
            }
            k = k + 1;
        }
        assert(self.content@.subrange(0, n as int) =~= self.content@);
        r
    }

    /// The files of the step.
    pub fn files(&self) -> (r: Vec<GeneratedFile>)
        ensures
            r@.len() == files_of(self.content@).len(),
            forall|i: int| 0 <= i < r@.len() ==> same_file(#[trigger] r@[i], files_of(self.content@)[i]),
    {
        let n = self.content.len();
        let mut r: Vec<GeneratedFile> = Vec::new();
        let mut k: usize = 0;
        while k < n
            invariant
                n == self.content@.len(),
                k <= n,
                r@.len() == files_of(self.content@.subrange(0, k as int)).len(),
                forall|i: int|
                    0 <= i < r@.len() ==> same_file(
                        #[trigger] r@[i],
                        files_of(self.content@.subrange(0, k as int))[i],
                    ),
            decreases n - k,
        {
            proof {
                lemma_prefix_step(self.content@, k as int);
            }
            if let Output::File(x) = &self.content[k] {
                r.push(x.clone());
            }
            k = k + 1;
        }
        assert(self.content@.subrange(0, n as int) =~= self.content@);
        r
    }

    /// The sources of the step.
    pub fn sources(&self) -> (r: Vec<LanguageModelSource>)
        ensures
            r@ == sources_of(self.content@),
    {
        let n = self.content.len();
        let mut r: Vec<LanguageModelSource> = Vec::new();
        let mut k: usize = 0;
        while k < n
            invariant
                n == self.content@.len(),
                k <= n,
                r@ == sources_of(self.content@.subrange(0, k as int)),
            decreases n - k,
        {
            proof {
                lemma_prefix_step(self.content@, k as int);
            }
            if let Output::Source(x) = &self.content[k] {
                r.push(x.source.clone());
            }
            k = k + 1;
        }
        assert(self.content@.subrange(0, n as int) =~= self.content@);
        r
    }

    /// The tool calls of the step.
    pub fn tool_calls(&self) -> (r: Vec<ToolCall>)
        ensures
            r@ == tool_calls_of(self.content@),
    {
        let n = self.content.len();
        let mut r: Vec<ToolCall> = Vec::new();
        let mut k: usize = 0;
        while k < n
            invariant
                n == self.content@.len(),
                k <= n,
                r@ == tool_calls_of(self.content@.subrange(0, k as int)),
            decreases n - k,
        {
            proof {
                lemma_prefix_step(self.content@, k as int);
            }
            if let Output::ToolCall(x) = &self.content[k] {
                r.push(x.clone());
            }
            k = k + 1;
        }
        assert(self.content@.subrange(0, n as int) =~= self.content@);
        r
    }

    /// The tool results of the step.
    pub fn tool_results(&self) -> (r: Vec<ToolResult>)
        ensures
            r@ == tool_results_of(self.content@),
    {
        let n = self.content.len();
        let mut r: Vec<ToolResult> = Vec::new();
        let mut k: usize = 0;
        while k < n
            invariant
                n == self.content@.len(),
                k <= n,
                r@ == tool_results_of(self.content@.subrange(0, k as int)),
            decreases n - k,
        {
            proof {
                lemma_prefix_step(self.content@, k as int);
            }
            if let Output::ToolResult(x) = &self.content[k] {
                r.push(x.clone());
            }
            k = k + 1;
        }
        assert(self.content@.subrange(0, n as int) =~= self.content@);
        r
    }
}

/// The response of a generation: the messages it added and what came back
/// besides content.
#[derive(Debug, Clone, PartialEq)]
pub struct ResponseMetadata {
    pub messages: Vec<ResponseMessage>,
    pub body: Option<serde_json::Value>,
    pub id: Option<String>,
    pub model_id: Option<String>,
    pub timestamp: Option<i64>,
}

impl ResponseMetadata {
    /// Metadata of the given messages and nothing else.
    pub fn new(messages: Vec<ResponseMessage>) -> (r: Self)
        ensures
            r == (ResponseMetadata { messages, body: None, id: None, model_id: None, timestamp: None }),
    {
        ResponseMetadata { messages, body: None, id: None, model_id: None, timestamp: None }
    }

    /// Metadata of the given messages with the id, model and time of a
    /// step's response; the body is left out.
    pub fn from_step_metadata(messages: Vec<ResponseMessage>, metadata: StepResponseMetadata) -> (r:
        Self)
        ensures
            r == (ResponseMetadata {
                messages,
                body: None,
                id: metadata.id,
                model_id: metadata.model_id,
                timestamp: metadata.timestamp,
            }),
    {
        ResponseMetadata {
            messages,
            body: None,
            id: metadata.id,
            model_id: metadata.model_id,
            timestamp: metadata.timestamp,
        }
    }

    /// Sets the body.
    pub fn with_body(self, body: serde_json::Value) -> (r: Self)
        ensures
            r == (ResponseMetadata { body: Some(body), ..self }),
    {
        ResponseMetadata { body: Some(body), ..self }
    }

    /// Sets the id.
    pub fn with_id(self, id: String) -> (r: Self)
        ensures
            r == (ResponseMetadata { id: Some(id), ..self }),
    {
        ResponseMetadata { id: Some(id), ..self }
    }

    /// Sets the model id.
    pub fn with_model_id(self, model_id: String) -> (r: Self)
        ensures
            r == (ResponseMetadata { model_id: Some(model_id), ..self }),
    {
        ResponseMetadata { model_id: Some(model_id), ..self }
    }

    /// Sets the time stamp.
    pub fn with_timestamp(self, timestamp: i64) -> (r: Self)
        ensures
            r == (ResponseMetadata { timestamp: Some(timestamp), ..self }),
    {
        ResponseMetadata { timestamp: Some(timestamp), ..self }
    }
}

/// The result of a text generation.
#[derive(Debug, Clone, PartialEq)]
pub struct GenerateTextResult {
    /// What the last step produced.
    pub content: Vec<Output>,
    pub text: String,
    pub reasoning: Vec<ReasoningOutput>,
    pub reasoning_text: Option<String>,
    pub files: Vec<GeneratedFile>,
    pub sources: Vec<LanguageModelSource>,
    pub tool_calls: Vec<ToolCall>,
    pub tool_results: Vec<ToolResult>,
    pub finish_reason: LanguageModelFinishReason,
    /// Usage of the last step.
    pub usage: LanguageModelUsage,
    /// Usage of all steps.
    pub total_usage: LanguageModelUsage,
    pub warnings: Option<Vec<CallWarning>>,
    pub request: RequestMetadata,
    pub response: ResponseMetadata,
    pub provider_metadata: Option<serde_json::Value>,
    /// All steps, in order.
    pub steps: Vec<StepResult>,
}

/// A copy of the outputs, each the same as the one it copies.
fn clone_outputs(c: &Vec<Output>) -> (r: Vec<Output>)
    ensures
        r@.len() == c@.len(),
        forall|i: int| 0 <= i < c@.len() ==> same_output(#[trigger] r@[i], c@[i]),
{
    let n = c.len();
    let mut r: Vec<Output> = Vec::new();
    let mut k: usize = 0;
    while k < n
        invariant
            n == c@.len(),
            k <= n,
            r@.len() == k,
            forall|i: int| 0 <= i < k ==> same_output(#[trigger] r@[i], c@[i]),
        decreases n - k,
    {
        r.push(c[k].clone());
        k = k + 1;
    }
    r
}

impl GenerateTextResult {
    /// A result of the given parts.
    pub fn new(
        content: Vec<Output>,
        text: String,
        reasoning: Vec<ReasoningOutput>,
        reasoning_text: Option<String>,
        files: Vec<GeneratedFile>,
        sources: Vec<LanguageModelSource>,
        tool_calls: Vec<ToolCall>,
        tool_results: Vec<ToolResult>,
        finish_reason: LanguageModelFinishReason,
        usage: LanguageModelUsage,
        total_usage: LanguageModelUsage,
        warnings: Option<Vec<CallWarning>>,
        request: RequestMetadata,
        response: ResponseMetadata,
        provider_metadata: Option<serde_json::Value>,
        steps: Vec<StepResult>,
    ) -> (r: Self)
        ensures
            r == (GenerateTextResult {
                content,
                text,
                reasoning,
                reasoning_text,
                files,
                sources,
                tool_calls,
                tool_results,
                finish_reason,
                usage,
                total_usage,
                warnings,
                request,
                response,
                provider_metadata,
                steps,
            }),
    {
        GenerateTextResult {
            content,
            text,
            reasoning,
            reasoning_text,
            files,
            sources,
            tool_calls,
            tool_results,
            finish_reason,
            usage,
            total_usage,
            warnings,
            request,
            response,
            provider_metadata,
            steps,
        }
    }

    /// The result of the steps of a generation, with `total_usage` as the
    /// usage of all of them: what the last step produced, said and used.
    pub fn from_steps(steps: Vec<StepResult>, total_usage: LanguageModelUsage) -> (r: Self)
        requires
            steps@.len() > 0,
        ensures
            ({
                let last = steps@.last();
                &&& r.steps == steps
                &&& r.content@.len() == last.content@.len()
                &&& forall|i: int|
                    0 <= i < r.content@.len() ==> same_output(#[trigger] r.content@[i], last.content@[i])
                &&& r.text@ == text_of(last.content@)
                &&& r.reasoning@ == reasoning_of(last.content@)
                &&& opt_text(r.reasoning_text) == reasoning_text_of(last.content@)
                &&& r.files@.len() == files_of(last.content@).len()
                &&& forall|i: int|
                    0 <= i < r.files@.len() ==> same_file(#[trigger] r.files@[i], files_of(last.content@)[i])
                &&& r.sources@ == sources_of(last.content@)
                &&& r.tool_calls@ == tool_calls_of(last.content@)
                &&& r.tool_results@ == tool_results_of(last.content@)
                &&& r.finish_reason == last.finish_reason
                &&& r.usage == last.usage
                &&& r.total_usage == total_usage
                &&& r.warnings is Some <==> last.warnings is Some
                &&& r.warnings is Some ==> r.warnings->0@ == last.warnings->0@
                &&& r.request == last.request
                &&& r.response.messages@.len() == 0
                &&& r.response.body is None
                &&& r.response.id == last.response.id
                &&& r.response.model_id == last.response.model_id
                &&& r.response.timestamp == last.response.timestamp
                &&& r.provider_metadata == last.provider_metadata
            }),
    {
        let last = &steps[steps.len() - 1];
        let content = clone_outputs(&last.content);
        let text = last.text();
        let reasoning = last.reasoning();
        let reasoning_text = last.reasoning_text();
        let files = last.files();
        let sources = last.sources();
        let tool_calls = last.tool_calls();
        let tool_results = last.tool_results();
        let finish_reason = last.finish_reason;
        let usage = last.usage;
        let warnings = clone_warnings(&last.warnings);
        let request = RequestMetadata { body: clone_opt_json(&last.request.body) };
        let response = ResponseMetadata::from_step_metadata(
            Vec::new(),
            StepResponseMetadata {
                id: clone_opt_string(&last.response.id),
                model_id: clone_opt_string(&last.response.model_id),
                timestamp: last.response.timestamp,
                body: None,
            },
        );
        let provider_metadata = clone_opt_json(&last.provider_metadata);
        GenerateTextResult {
            content,
            text,
            reasoning,
            reasoning_text,
            files,
            sources,
            tool_calls,
            tool_results,
            finish_reason,
            usage,
            total_usage,
            warnings,
            request,
            response,
            provider_metadata,
            steps,
        }
    }
}

/// Two steps are the same: the same outputs (files by content) and the
/// same everything else.
pub open spec fn same_step(a: StepResult, b: StepResult) -> bool {
    &&& a.content@.len() == b.content@.len()
    &&& forall|i: int| 0 <= i < a.content@.len() ==> same_output(#[trigger] a.content@[i], b.content@[i])
    &&& a.finish_reason == b.finish_reason
    &&& a.usage == b.usage
    &&& (a.warnings is Some <==> b.warnings is Some)
    &&& a.warnings is Some ==> a.warnings->0@ == b.warnings->0@
    &&& a.request == b.request
    &&& a.response == b.response
    &&& a.provider_metadata == b.provider_metadata
}

impl Clone for StepResult {
    /// The same step.
    fn clone(&self) -> (r: Self)
        ensures
            same_step(r, *self),
    {
        StepResult {
            content: clone_outputs(&self.content),
            finish_reason: self.finish_reason,
            usage: self.usage,
            warnings: clone_warnings(&self.warnings),
            request: RequestMetadata { body: clone_opt_json(&self.request.body) },
            response: StepResponseMetadata {
                id: clone_opt_string(&self.response.id),
                model_id: clone_opt_string(&self.response.model_id),
                timestamp: self.response.timestamp,
                body: clone_opt_json(&self.response.body),
            },
            provider_metadata: clone_opt_json(&self.provider_metadata),
        }
    }
}

} // verus!

verus! {

/// A stop condition anywhere in the list that holds stops generation,
/// and when no condition of the list holds, generation is not stopped.
pub proof fn lemma_any_condition_stops(
    conditions: Seq<Box<dyn StopCondition>>,
    steps: Seq<StepResult>,
    i: int,
)
    ensures
        0 <= i < conditions.len() && conditions[i].holds(steps) ==> any_holds(conditions, steps),
        (forall|j: int| 0 <= j < conditions.len() ==> !#[trigger] conditions[j].holds(steps))
            ==> !any_holds(conditions, steps),
{
    if 0 <= i < conditions.len() && conditions[i].holds(steps) {
        assert(conditions[i].holds(steps));
    }
}

/// A tool result that the provider returns becomes an error output exactly
/// when it is flagged as an error (`is_error` is `Some(true)`), and a
/// result output otherwise, with or without a `false` flag. Either way it
/// carries the provider's value and the call's id and name, and it is
/// marked as run by the provider.
pub proof fn lemma_provider_result_output(
    tr: LanguageModelToolResult,
    calls: Seq<ToolCall>,
    o: Output,
)
    requires
        is_output_of(LanguageModelContent::ToolResult(tr), calls, o),
    ensures
        o is ToolError <==> tr.is_error == Some(true),
        o is ToolResult <==> tr.is_error != Some(true),
        o matches Output::ToolResult(r) ==> r.output == tr.result && r.tool_call_id
            == tr.tool_call_id && r.tool_name == tr.tool_name && r.provider_executed == Some(true),
        o matches Output::ToolError(e) ==> e.error == tr.result && e.tool_call_id
            == tr.tool_call_id && e.tool_name == tr.tool_name && e.provider_executed == Some(true),
{
}

/// In the assistant message of a step, the part of a tool call is a tool
/// call part with the call's id, name and input that keeps whether the
/// provider ran the tool: marked so exactly when the call was.
pub proof fn lemma_assistant_tool_call_part(m: ResponseMessage, a: Seq<Output>, i: int)
    requires
        is_assistant_message_of(m, a),
        0 <= i < a.len(),
        a[i] is ToolCall,
    ensures
        m->Assistant_0.content@[i] matches AssistantContentPart::ToolCall(p) && p.tool_call_id
            == a[i]->ToolCall_0.tool_call_id && p.tool_name == a[i]->ToolCall_0.tool_name
            && p.input == a[i]->ToolCall_0.input,
        m->Assistant_0.content@[i] matches AssistantContentPart::ToolCall(p) && (p.provider_executed
            == Some(true) <==> a[i]->ToolCall_0.provider_executed == Some(true)),
        m->Assistant_0.content@[i] matches AssistantContentPart::ToolCall(p) && p.provider_executed
            is Some,
{
    assert(is_assistant_part(a[i], m->Assistant_0.content@[i]));
}

} // verus!
