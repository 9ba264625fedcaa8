//! Messages an agent streams to a connected client.

use vstd::prelude::*;
use crate::json::{
    json_quote, json_string_literal, key_less, lemma_object_text_2, member_text, object_text, plain_key, well_keyed,
};
use crate::text::{push_str, to_owned_string};

verus! {

/// What an agent tells a client while it works.
#[derive(Debug)]
pub enum AgentMessage {
    /// A piece of a reply.
    Fragment(String),
    /// A finished reply.
    Complete(String),
    /// A function call with its parameters and result.
    FunctionCall { name: String, params: Vec<String>, result: String },
}

/// The JSON object `{"content":..,"type":..}` a client receives.
pub open spec fn client_json(kind: Seq<char>, content: Seq<char>) -> Seq<char> {
    "{\"content\":"@ + json_string_literal(content) + ",\"type\":"@ + json_string_literal(kind) + "}"@
}

fn write_client_json(kind: &str, content: &str) -> (s: String)
    ensures
        s@ == client_json(kind@, content@),
{
    let mut s = to_owned_string("{\"content\":");
    let c = json_quote(content);
    push_str(&mut s, c.as_str());
    push_str(&mut s, ",\"type\":");
    let k = json_quote(kind);
    push_str(&mut s, k.as_str());
    push_str(&mut s, "}");
    s
}

/// The JSON a client receives for a message: fragments and complete replies
/// are sent with their type; function calls have no client form.
pub fn receive_message_json(message: &AgentMessage) -> (r: Option<String>)
    ensures
        match message {
            AgentMessage::Fragment(f) => r matches Some(s) && s@ == client_json("fragment"@, f@),
            AgentMessage::Complete(c) => r matches Some(s) && s@ == client_json("complete"@, c@),
            AgentMessage::FunctionCall { .. } => r is None,
        },
{
    match message {
        AgentMessage::Fragment(f) => Some(write_client_json("fragment", f.as_str())),
        AgentMessage::Complete(c) => Some(write_client_json("complete", c.as_str())),
        AgentMessage::FunctionCall { .. } => None,
    }
}


/// What a client receives is a JSON object with the message's text under
/// `content` and its kind under `type`, keys plain and in ascending order.
pub proof fn law_client_json_fields(kind: Seq<char>, content: Seq<char>)
    ensures
        client_json(kind, content) == object_text(seq![("content"@, content), ("type"@, kind)]),
        well_keyed(seq![("content"@, content), ("type"@, kind)]),
{
    reveal_strlit("content");
    reveal_strlit("type");
    reveal_strlit("\"");
    reveal_strlit("\":");
    reveal_strlit(",");
    reveal_strlit("{");
    reveal_strlit("}");
    reveal_strlit("{\"content\":");
    reveal_strlit(",\"type\":");
    lemma_object_text_2("content"@, content, "type"@, kind);
    assert(client_json(kind, content) =~= "{"@ + member_text(("content"@, content)) + ","@ + member_text(
        ("type"@, kind),
    ) + "}"@);
    let r = seq![("content"@, content), ("type"@, kind)];
    assert forall|i: int| 0 <= i < r.len() implies plain_key(#[trigger] r[i].0) by {
        assert forall|k: int| 0 <= k < r[i].0.len() implies 'a' <= #[trigger] r[i].0[k] && r[i].0[k] <= 'z' by {}
    }
    assert(key_less("content"@, "type"@));
}

} // verus!
