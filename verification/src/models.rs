//! The shared message vocabulary: roles, messages, tool calls and tool
//! definitions, as exchanged with the remote chat-completion endpoint.
//!
//! JSON schemas and tool-call arguments travel as raw JSON text
//! (`String`), exactly as the wire protocol encodes them; they are
//! parsed and checked by the tool-invocation pipeline before use.

use vstd::prelude::*;

verus! {

/// The four message roles of the chat protocol.
#[derive(Clone, Copy, PartialEq, Eq, Debug, Structural)]
pub enum Role {
    System,
    User,
    Assistant,
    Tool,
}

/// The function part of a model-issued tool call; `arguments` is a raw
/// JSON-encoded string and is re-serialized unchanged when echoed.
#[derive(Debug)]
pub struct ToolCallFunction {
    pub name: String,
    pub arguments: String,
}

impl Clone for ToolCallFunction {
    fn clone(&self) -> (res: Self)
        ensures
            res == *self,
    {
        ToolCallFunction { name: self.name.clone(), arguments: self.arguments.clone() }
    }
}

/// A model-issued request to invoke a named capability.
#[derive(Debug)]
pub struct ToolCall {
    pub id: String,
    pub tool_type: String,
    pub function: ToolCallFunction,
}

impl Clone for ToolCall {
    fn clone(&self) -> (res: Self)
        ensures
            res == *self,
    {
        ToolCall { id: self.id.clone(), tool_type: self.tool_type.clone(), function: self.function.clone() }
    }
}

/// Clones a list of tool calls element by element.
pub fn clone_tool_calls(calls: &Vec<ToolCall>) -> (res: Vec<ToolCall>)
    ensures
        res@ == calls@,
{
    let mut res: Vec<ToolCall> = Vec::new();
    let mut i: usize = 0;
    while i < calls.len()
        invariant
            i <= calls.len(),
            res@ == calls@.take(i as int),
        decreases calls.len() - i,
    {
        res.push(calls[i].clone());
        proof {
            assert(res@ =~= calls@.take(i + 1 as int));
        }
        i = i + 1;
    }
    proof {
        assert(calls@.take(calls@.len() as int) =~= calls@);
    }
    res
}

/// One conversational turn.  A `Tool`-role message carries the
/// `tool_call_id` of the call it answers; an `Assistant` message may
/// carry `tool_calls` with empty content.
#[derive(Debug)]
pub struct Message {
    pub role: Role,
    pub content: Option<String>,
    pub tool_calls: Option<Vec<ToolCall>>,
    pub tool_call_id: Option<String>,
}

/// Value equality of two messages: same role and the same text in
/// every field.  (Two `Vec`s with equal contents need not be equal as
/// abstract values, so cloned messages are related by this predicate
/// rather than by `==`.)
pub open spec fn msg_eqv(a: Message, b: Message) -> bool {
    &&& a.role == b.role
    &&& a.content == b.content
    &&& a.tool_call_id == b.tool_call_id
    &&& a.tool_calls is Some <==> b.tool_calls is Some
    &&& a.tool_calls is Some ==> a.tool_calls->0@ == b.tool_calls->0@
}

impl Clone for Message {
    fn clone(&self) -> (res: Self)
        ensures
            msg_eqv(res, *self),
    {
        let tool_calls = match &self.tool_calls {
            Some(calls) => Some(clone_tool_calls(calls)),
            None => None,
        };
        Message {
            role: self.role,
            content: self.content.clone(),
            tool_calls,
            tool_call_id: self.tool_call_id.clone(),
        }
    }
}

/// The definition of one callable tool, sent verbatim to the remote
/// endpoint; `parameters` holds the JSON Schema as JSON text.
#[derive(Debug)]
pub struct FunctionDefinition {
    pub name: String,
    pub description: String,
    pub parameters: String,
}

impl Clone for FunctionDefinition {
    fn clone(&self) -> (res: Self)
        ensures
            res == *self,
    {
        FunctionDefinition {
            name: self.name.clone(),
            description: self.description.clone(),
            parameters: self.parameters.clone(),
        }
    }
}

/// Wrapper pairing a function definition with its protocol type tag.
#[derive(Debug)]
pub struct ToolDefinition {
    pub tool_type: String,
    pub function: FunctionDefinition,
}

impl Clone for ToolDefinition {
    fn clone(&self) -> (res: Self)
        ensures
            res == *self,
    {
        ToolDefinition { tool_type: self.tool_type.clone(), function: self.function.clone() }
    }
}

/// Names one tool when the caller forces a specific function choice.
#[derive(Debug)]
pub struct ToolChoiceFunction {
    pub name: String,
}

impl Clone for ToolChoiceFunction {
    fn clone(&self) -> (res: Self)
        ensures
            res == *self,
    {
        ToolChoiceFunction { name: self.name.clone() }
    }
}

/// The caller's tool-choice directive: no tools, automatic selection,
/// or one specific function.
#[derive(Debug)]
pub enum ToolChoice {
    NoTools,
    Auto,
    Specific { tool_type: String, function: ToolChoiceFunction },
}

impl Clone for ToolChoice {
    fn clone(&self) -> (res: Self)
        ensures
            res == *self,
    {
        match self {
            ToolChoice::NoTools => ToolChoice::NoTools,
            ToolChoice::Auto => ToolChoice::Auto,
            ToolChoice::Specific { tool_type, function } => ToolChoice::Specific {
                tool_type: tool_type.clone(),
                function: function.clone(),
            },
        }
    }
}

/// Token usage reported by the remote endpoint.
#[derive(Clone, Copy, PartialEq, Eq, Debug, Structural)]
pub struct UsageStats {
    pub prompt_tokens: u32,
    pub completion_tokens: u32,
    pub total_tokens: u32,
}

/// One alternative completion within a response.
#[derive(Debug)]
pub struct Choice {
    pub index: u32,
    pub message: Message,
    pub finish_reason: Option<String>,
}

impl Clone for Choice {
    fn clone(&self) -> (res: Self)
        ensures
            res.index == self.index,
            msg_eqv(res.message, self.message),
            res.finish_reason == self.finish_reason,
    {
        Choice {
            index: self.index,
            message: self.message.clone(),
            finish_reason: self.finish_reason.clone(),
        }
    }
}

/// A complete (non-streaming) chat-completion response.
#[derive(Debug)]
pub struct ChatCompletionResponse {
    pub id: String,
    pub object: String,
    pub created: u64,
    pub model: String,
    pub choices: Vec<Choice>,
    pub usage: Option<UsageStats>,
    pub stop_reason: Option<String>,
}

/// The function fragment of a streamed tool-call delta.
#[derive(Debug)]
pub struct ToolCallFunctionChunk {
    pub name: Option<String>,
    pub arguments: Option<String>,
}

/// One partial tool call within a streamed delta.
#[derive(Debug)]
pub struct ToolCallChunk {
    pub index: u32,
    pub id: Option<String>,
    pub tool_type: Option<String>,
    pub function: Option<ToolCallFunctionChunk>,
}

/// The incremental change carried by one streamed chunk.
#[derive(Debug)]
pub struct Delta {
    pub role: Option<Role>,
    pub content: Option<String>,
    pub reasoning: Option<String>,
    pub tool_calls: Option<Vec<ToolCallChunk>>,
}

/// One alternative within a streamed chunk.
#[derive(Debug)]
pub struct ChunkChoice {
    pub index: u32,
    pub delta: Delta,
    pub finish_reason: Option<String>,
}

/// One decoded frame of a streamed chat-completion response.
#[derive(Debug)]
pub struct ChatCompletionChunk {
    pub id: String,
    pub object: String,
    pub created: u64,
    pub model: String,
    pub choices: Vec<ChunkChoice>,
    pub usage: Option<UsageStats>,
}

/// A tool call whose arguments parsed and passed schema validation;
/// `arguments` holds the original JSON text unchanged.
#[derive(Debug, PartialEq)]
pub struct ValidatedToolCall {
    pub id: String,
    pub name: String,
    pub arguments: String,
}

} // verus!
