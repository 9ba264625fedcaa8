//! Messages shown to a chat front end.

use vstd::prelude::*;
use crate::messages::{ChatRequestMessage, MsgView, Role, role_of};
use crate::chatlog::serialize::role_text;
use crate::text::to_owned_string;

verus! {

/// A message for the chat front end.
#[derive(Debug)]
pub enum ChatUIMessage {
    /// The user the event stream belongs to.
    UserId(String),
    /// A complete message.
    Reply { role: String, name: String, content: String },
    /// A piece of a reply still being written.
    Fragment(String),
    /// A function the agent called, its parameters and its result.
    FunctionCall { name: String, params: String, result: String },
}

/// The value of a [`ChatUIMessage`].
pub enum UiView {
    UserId(Seq<char>),
    Reply { role: Seq<char>, name: Seq<char>, content: Seq<char> },
    Fragment(Seq<char>),
    FunctionCall { name: Seq<char>, params: Seq<char>, result: Seq<char> },
}

impl View for ChatUIMessage {
    type V = UiView;

    open spec fn view(&self) -> UiView {
        match self {
            ChatUIMessage::UserId(u) => UiView::UserId(u@),
            ChatUIMessage::Reply { role, name, content } => UiView::Reply {
                role: role@,
                name: name@,
                content: content@,
            },
            ChatUIMessage::Fragment(f) => UiView::Fragment(f@),
            ChatUIMessage::FunctionCall { name, params, result } => UiView::FunctionCall {
                name: name@,
                params: params@,
                result: result@,
            },
        }
    }
}

/// How a logged request message is shown: user, assistant and system text
/// as replies (named `User`, `Assistant` and empty), anything else as a
/// fragment that says what could not be shown.
pub open spec fn ui_message_of(m: MsgView) -> UiView {
    match m {
        MsgView::User { content, .. } => match content {
            Some(t) => UiView::Reply { role: "user"@, name: "User"@, content: t },
            None => UiView::Fragment("Unsupported User Message Content"@),
        },
        MsgView::Assistant { content, .. } => match content {
            Some(t) => UiView::Reply { role: "assistant"@, name: "Assistant"@, content: t },
            None => UiView::Fragment("Empty Assistant Message"@),
        },
        MsgView::System { content, .. } => match content {
            Some(t) => UiView::Reply { role: "system"@, name: Seq::empty(), content: t },
            None => UiView::Fragment("Empty System Message"@),
        },
        _ => UiView::Fragment("Unsupported message type"@),
    }
}

impl ChatUIMessage {
    /// Shows a logged request message in the front end.
    pub fn from_message(item: ChatRequestMessage) -> (r: ChatUIMessage)
        ensures
            r@ == ui_message_of(item@),
    {
        match item {
            ChatRequestMessage::User { content, .. } => match content {
                Some(text) => ChatUIMessage::Reply {
                    role: to_owned_string("user"),
                    name: to_owned_string("User"),
                    content: text,
                },
                None => ChatUIMessage::Fragment(to_owned_string("Unsupported User Message Content")),
            },
            ChatRequestMessage::Assistant { content, .. } => match content {
                Some(text) => ChatUIMessage::Reply {
                    role: to_owned_string("assistant"),
                    name: to_owned_string("Assistant"),
                    content: text,
                },
                None => ChatUIMessage::Fragment(to_owned_string("Empty Assistant Message")),
            },
            ChatRequestMessage::System { content, .. } => match content {
                Some(text) => ChatUIMessage::Reply {
                    role: to_owned_string("system"),
                    name: String::new(),
                    content: text,
                },
                None => ChatUIMessage::Fragment(to_owned_string("Empty System Message")),
            },
            _ => ChatUIMessage::Fragment(to_owned_string("Unsupported message type")),
        }
    }

    /// A copy with the same value.
    pub fn duplicate(&self) -> (r: ChatUIMessage)
        ensures
            r@ == self@,
    {
        match self {
            ChatUIMessage::UserId(u) => ChatUIMessage::UserId(u.clone()),
            ChatUIMessage::Reply { role, name, content } => ChatUIMessage::Reply {
                role: role.clone(),
                name: name.clone(),
                content: content.clone(),
            },
            ChatUIMessage::Fragment(f) => ChatUIMessage::Fragment(f.clone()),
            ChatUIMessage::FunctionCall { name, params, result } => ChatUIMessage::FunctionCall {
                name: name.clone(),
                params: params.clone(),
                result: result.clone(),
            },
        }
    }
}


/// The text content a request message carries, if any.
pub open spec fn message_text(m: MsgView) -> Option<Seq<char>> {
    match m {
        MsgView::System { content, .. } => content,
        MsgView::User { content, .. } => content,
        MsgView::Assistant { content, .. } => content,
        MsgView::Tool { content, .. } => content,
        MsgView::Function { content, .. } => content,
    }
}

/// The name the front end shows for an author: `User`, `Assistant`, or none.
pub open spec fn author_label(r: Role) -> Seq<char> {
    match r {
        Role::User => "User"@,
        Role::Assistant => "Assistant"@,
        _ => Seq::empty(),
    }
}

/// A replayed message keeps its author and its text: a user, assistant or
/// system message with text is shown as a reply under its own role (the
/// lowercase role name), named after its author, with that very text; any
/// other message is shown as a fragment, never as someone's reply.
pub proof fn law_replay_keeps_author(m: MsgView)
    ensures
        (m is User || m is Assistant || m is System) && message_text(m) is Some ==> ui_message_of(m) == (UiView::Reply {
            role: role_text(role_of(m)),
            name: author_label(role_of(m)),
            content: message_text(m)->0,
        }),
        !((m is User || m is Assistant || m is System) && message_text(m) is Some) ==> ui_message_of(m) is Fragment,
{
}

} // verus!
