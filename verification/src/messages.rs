//! The chat-request messages that the host keeps in its logs and sends to a
//! model, with their textual rendering and token counting.

use vstd::prelude::*;
use crate::text::push_str;

verus! {

/// Author of a message.
#[derive(Clone, Copy, Debug, PartialEq, Eq, Structural)]
pub enum Role {
    System,
    User,
    Assistant,
    Tool,
    Function,
}

/// A function call requested by the model: its name and JSON arguments.
#[derive(Debug)]
pub struct FunctionCall {
    pub name: String,
    pub arguments: String,
}

/// A message of a chat-completion request.
#[derive(Debug)]
pub enum ChatRequestMessage {
    System { content: Option<String>, name: Option<String> },
    /// The content, where present, is plain text.
    User { content: Option<String>, name: Option<String> },
    Assistant { content: Option<String>, name: Option<String>, function_call: Option<FunctionCall> },
    Tool { content: Option<String>, tool_call_id: String },
    Function { content: Option<String>, name: String },
}

/// The mathematical value of a [`ChatRequestMessage`].
pub enum MsgView {
    System { content: Option<Seq<char>>, name: Option<Seq<char>> },
    User { content: Option<Seq<char>>, name: Option<Seq<char>> },
    Assistant {
        content: Option<Seq<char>>,
        name: Option<Seq<char>>,
        function_call: Option<(Seq<char>, Seq<char>)>,
    },
    Tool { content: Option<Seq<char>>, tool_call_id: Seq<char> },
    Function { content: Option<Seq<char>>, name: Seq<char> },
}

impl View for ChatRequestMessage {
    type V = MsgView;

    open spec fn view(&self) -> MsgView {
        match self {
            ChatRequestMessage::System { content, name } => MsgView::System {
                content: content.deep_view(),
                name: name.deep_view(),
            },
            ChatRequestMessage::User { content, name } => MsgView::User {
                content: content.deep_view(),
                name: name.deep_view(),
            },
            ChatRequestMessage::Assistant { content, name, function_call } => MsgView::Assistant {
                content: content.deep_view(),
                name: name.deep_view(),
                function_call: match function_call {
                    Some(fc) => Some((fc.name@, fc.arguments@)),
                    None => None,
                },
            },
            ChatRequestMessage::Tool { content, tool_call_id } => MsgView::Tool {
                content: content.deep_view(),
                tool_call_id: tool_call_id@,
            },
            ChatRequestMessage::Function { content, name } => MsgView::Function {
                content: content.deep_view(),
                name: name@,
            },
        }
    }
}

/// The role that a message value carries.
pub open spec fn role_of(m: MsgView) -> Role {
    match m {
        MsgView::System { .. } => Role::System,
        MsgView::User { .. } => Role::User,
        MsgView::Assistant { .. } => Role::Assistant,
        MsgView::Tool { .. } => Role::Tool,
        MsgView::Function { .. } => Role::Function,
    }
}

/// A copy of an optional string.
pub fn copy_opt(o: &Option<String>) -> (r: Option<String>)
    ensures
        r.deep_view() == o.deep_view(),
{
    match o {
        Some(s) => Some(s.clone()),
        None => None,
    }
}

impl ChatRequestMessage {
    /// A copy of this message with the same value.
    pub fn duplicate(&self) -> (r: ChatRequestMessage)
        ensures
            r@ == self@,
    {
        match self {
            ChatRequestMessage::System { content, name } => ChatRequestMessage::System {
                content: copy_opt(content),
                name: copy_opt(name),
            },
            ChatRequestMessage::User { content, name } => ChatRequestMessage::User {
                content: copy_opt(content),
                name: copy_opt(name),
            },
            ChatRequestMessage::Assistant { content, name, function_call } => {
                let fc = match function_call {
                    Some(f) => Some(FunctionCall { name: f.name.clone(), arguments: f.arguments.clone() }),
                    None => None,
                };
                ChatRequestMessage::Assistant { content: copy_opt(content), name: copy_opt(name), function_call: fc }
            },
            ChatRequestMessage::Tool { content, tool_call_id } => ChatRequestMessage::Tool {
                content: copy_opt(content),
                tool_call_id: tool_call_id.clone(),
            },
            ChatRequestMessage::Function { content, name } => ChatRequestMessage::Function {
                content: copy_opt(content),
                name: name.clone(),
            },
        }
    }

    /// The role of this message.
    pub fn role(&self) -> (r: Role)
        ensures
            r == role_of(self@),
    {
        match self {
            ChatRequestMessage::System { .. } => Role::System,
            ChatRequestMessage::User { .. } => Role::User,
            ChatRequestMessage::Assistant { .. } => Role::Assistant,
            ChatRequestMessage::Tool { .. } => Role::Tool,
            ChatRequestMessage::Function { .. } => Role::Function,
        }
    }
}

/// What `{:?}` prints for a string: the quoted, escaped string.
pub uninterp spec fn str_debug(s: Seq<char>) -> Seq<char>;

/// `format!("{:?}", s)` for a string slice.
///
/// Trusted: std's `Debug` for `str`; its result is named `str_debug` of the
/// string's characters and nothing more is claimed.
#[verifier::external_body]
fn debug_quoted(s: &str) -> (r: String)
    ensures
        r@ == str_debug(s@),
{
    format!("{:?}", s)
}

/// `Debug` text of an optional string: `Some("..")` or `None`.
pub open spec fn opt_debug(o: Option<Seq<char>>) -> Seq<char> {
    match o {
        Some(s) => "Some("@ + str_debug(s) + ")"@,
        None => "None"@,
    }
}

/// `Debug` text of the optional text content of a user message.
pub open spec fn user_content_debug(o: Option<Seq<char>>) -> Seq<char> {
    match o {
        Some(s) => "Some(Text("@ + str_debug(s) + "))"@,
        None => "None"@,
    }
}

/// `Debug` text of an optional function call.
pub open spec fn call_debug(o: Option<(Seq<char>, Seq<char>)>) -> Seq<char> {
    match o {
        Some(fc) => "Some(FunctionCall { name: "@ + str_debug(fc.0) + ", arguments: "@ + str_debug(fc.1) + " })"@,
        None => "None"@,
    }
}

/// The debug rendering of a request message, laid out field by field as the
/// chat API's request types print themselves with `{:?}`.
pub open spec fn message_debug(m: MsgView) -> Seq<char> {
    match m {
        MsgView::System { content, name } =>
            "System(ChatCompletionRequestSystemMessage { content: "@ + opt_debug(content)
                + ", role: System, name: "@ + opt_debug(name) + " })"@,
        MsgView::User { content, name } =>
            "User(ChatCompletionRequestUserMessage { content: "@ + user_content_debug(content)
                + ", role: User, name: "@ + opt_debug(name) + " })"@,
        MsgView::Assistant { content, name, function_call } =>
            "Assistant(ChatCompletionRequestAssistantMessage { content: "@ + opt_debug(content)
                + ", role: Assistant, name: "@ + opt_debug(name) + ", tool_calls: None, function_call: "@
                + call_debug(function_call) + " })"@,
        MsgView::Tool { content, tool_call_id } =>
            "Tool(ChatCompletionRequestToolMessage { role: Tool, content: "@ + opt_debug(content)
                + ", tool_call_id: "@ + str_debug(tool_call_id) + " })"@,
        MsgView::Function { content, name } =>
            "Function(ChatCompletionRequestFunctionMessage { role: Function, content: "@ + opt_debug(content)
                + ", name: "@ + str_debug(name) + " })"@,
    }
}

fn push_opt_debug(out: &mut String, o: &Option<String>)
    ensures
        final(out)@ == old(out)@ + opt_debug(o.deep_view()),
{
    match o {
        Some(s) => {
            push_str(out, "Some(");
            let d = debug_quoted(s.as_str());
            push_str(out, d.as_str());
            push_str(out, ")");
        },
        None => {
            push_str(out, "None");
        },
    }
}

fn push_debug(out: &mut String, s: &String)
    ensures
        final(out)@ == old(out)@ + str_debug(s@),
{
    let d = debug_quoted(s.as_str());
    push_str(out, d.as_str());
}

/// Renders a request message as its `{:?}` text.
pub fn debug_text(m: &ChatRequestMessage) -> (s: String)
    ensures
        s@ == message_debug(m@),
{
    let mut out = String::new();
    match m {
        ChatRequestMessage::System { content, name } => {
            push_str(&mut out, "System(ChatCompletionRequestSystemMessage { content: ");
            push_opt_debug(&mut out, content);
            push_str(&mut out, ", role: System, name: ");
            push_opt_debug(&mut out, name);
            push_str(&mut out, " })");
        },
        ChatRequestMessage::User { content, name } => {
            push_str(&mut out, "User(ChatCompletionRequestUserMessage { content: ");
            match content {
                Some(t) => {
                    push_str(&mut out, "Some(Text(");
                    push_debug(&mut out, t);
                    push_str(&mut out, "))");
                },
                None => {
                    push_str(&mut out, "None");
                },
            }
            push_str(&mut out, ", role: User, name: ");
            push_opt_debug(&mut out, name);
            push_str(&mut out, " })");
        },
        ChatRequestMessage::Assistant { content, name, function_call } => {
            push_str(&mut out, "Assistant(ChatCompletionRequestAssistantMessage { content: ");
            push_opt_debug(&mut out, content);
            push_str(&mut out, ", role: Assistant, name: ");
            push_opt_debug(&mut out, name);
            push_str(&mut out, ", tool_calls: None, function_call: ");
            match function_call {
                Some(fc) => {
                    push_str(&mut out, "Some(FunctionCall { name: ");
                    push_debug(&mut out, &fc.name);
                    push_str(&mut out, ", arguments: ");
                    push_debug(&mut out, &fc.arguments);
                    push_str(&mut out, " })");
                },
                None => {
                    push_str(&mut out, "None");
                },
            }
            push_str(&mut out, " })");
        },
        ChatRequestMessage::Tool { content, tool_call_id } => {
            push_str(&mut out, "Tool(ChatCompletionRequestToolMessage { role: Tool, content: ");
            push_opt_debug(&mut out, content);
            push_str(&mut out, ", tool_call_id: ");
            push_debug(&mut out, tool_call_id);
            push_str(&mut out, " })");
        },
        ChatRequestMessage::Function { content, name } => {
            push_str(&mut out, "Function(ChatCompletionRequestFunctionMessage { role: Function, content: ");
            push_opt_debug(&mut out, content);
            push_str(&mut out, ", name: ");
            push_debug(&mut out, name);
            push_str(&mut out, " })");
        },
    }
    out
}

/// The token ids that the `cl100k_base` encoding gives a text, special tokens allowed.
pub uninterp spec fn cl100k_tokens(text: Seq<char>) -> Seq<usize>;

/// Encodes a text with the `cl100k_base` tokenizer.
///
/// Trusted: `tiktoken_rs::CoreBPE::encode_with_special_tokens` on the shared
/// `cl100k_base` tokenizer; the token ids are named `cl100k_tokens` of the
/// text, a function of the text alone, and nothing else is claimed of them.
/// The encoder unwraps each match of its split pattern, which would panic
/// only if `fancy_regex` exceeded its backtracking limit on one match
/// attempt; that limit counts per attempt and the pattern needs few
/// backtracks, so this is not expected to happen.
#[verifier::external_body]
fn encode_tokens(text: &str) -> (tokens: Vec<usize>)
    ensures
        tokens@ == cl100k_tokens(text@),
{
    tiktoken_rs::cl100k_base_singleton().lock().encode_with_special_tokens(text)
}

/// The token length the host records for a message: the number of
/// `cl100k_base` tokens of its debug rendering.
pub open spec fn token_length(m: MsgView) -> nat {
    cl100k_tokens(message_debug(m)).len()
}

/// Counts the tokens of a message's debug rendering.
pub fn message_token_length(m: &ChatRequestMessage) -> (n: usize)
    ensures
        n == token_length(m@),
{
    let text = debug_text(m);
    let tokens = encode_tokens(text.as_str());
    tokens.len()
}

} // verus!
