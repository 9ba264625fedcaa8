//! The session-file form of messages and the role/name/content triple that
//! prompt renderers read.

use vstd::prelude::*;
use crate::messages::{ChatRequestMessage, MsgView, Role};
use crate::json::{json_quote, json_string_literal, key_less, member_text, members_text, object_text, plain_key, well_keyed};
use crate::text::{push_str, str_eq, to_owned_string};

verus! {

/// A message reduced to its name, role and text content.
pub struct AnyChatMessage {
    pub name: String,
    pub role: String,
    pub content: String,
}

/// The value of an [`AnyChatMessage`]: (name, role, content).
pub open spec fn any_view(a: &AnyChatMessage) -> (Seq<char>, Seq<char>, Seq<char>) {
    (a.name@, a.role@, a.content@)
}

/// The lowercase name of a role, as the chat API writes it.
pub open spec fn role_text(r: Role) -> Seq<char> {
    match r {
        Role::System => "system"@,
        Role::User => "user"@,
        Role::Assistant => "assistant"@,
        Role::Tool => "tool"@,
        Role::Function => "function"@,
    }
}

/// The lowercase name of a role.
pub fn role_name(r: Role) -> (s: &'static str)
    ensures
        s@ == role_text(r),
{
    match r {
        Role::System => "system",
        Role::User => "user",
        Role::Assistant => "assistant",
        Role::Tool => "tool",
        Role::Function => "function",
    }
}

/// The role a lowercase role name stands for.
pub open spec fn role_from_text(s: Seq<char>) -> Option<Role> {
    if s == "system"@ {
        Some(Role::System)
    } else if s == "user"@ {
        Some(Role::User)
    } else if s == "assistant"@ {
        Some(Role::Assistant)
    } else if s == "tool"@ {
        Some(Role::Tool)
    } else if s == "function"@ {
        Some(Role::Function)
    } else {
        None
    }
}

/// Reads a lowercase role name.
pub fn parse_role(s: &str) -> (r: Option<Role>)
    ensures
        r == role_from_text(s@),
{
    if str_eq(s, "system") {
        Some(Role::System)
    } else if str_eq(s, "user") {
        Some(Role::User)
    } else if str_eq(s, "assistant") {
        Some(Role::Assistant)
    } else if str_eq(s, "tool") {
        Some(Role::Tool)
    } else if str_eq(s, "function") {
        Some(Role::Function)
    } else {
        None
    }
}

/// The JSON object `{"content":..,"name":..,"role":..}` with keys in the
/// order JSON objects are written.
pub open spec fn json_record(content: Seq<char>, name: Seq<char>, role: Seq<char>) -> Seq<char> {
    "{\"content\":"@ + json_string_literal(content) + ",\"name\":"@ + json_string_literal(name)
        + ",\"role\":"@ + json_string_literal(role) + "}"@
}

fn write_json_record(content: &str, name: &str, role: &str) -> (s: String)
    ensures
        s@ == json_record(content@, name@, role@),
{
    let mut out = String::new();
    push_str(&mut out, "{\"content\":");
    let c = json_quote(content);
    push_str(&mut out, c.as_str());
    push_str(&mut out, ",\"name\":");
    let n = json_quote(name);
    push_str(&mut out, n.as_str());
    push_str(&mut out, ",\"role\":");
    let r = json_quote(role);
    push_str(&mut out, r.as_str());
    push_str(&mut out, "}");
    out
}

/// Text content or the empty text.
pub open spec fn or_empty(o: Option<Seq<char>>) -> Seq<char> {
    match o {
        Some(s) => s,
        None => Seq::empty(),
    }
}

fn content_or_empty(o: &Option<String>) -> (s: String)
    ensures
        s@ == or_empty(o.deep_view()),
{
    match o {
        Some(t) => t.clone(),
        None => String::new(),
    }
}

/// The session-file record of a message.  Every kept message is written
/// with the name `test`; tool and function messages are written as empty
/// system records.
pub open spec fn serialized_message(m: MsgView) -> Seq<char> {
    match m {
        MsgView::User { content, .. } => json_record(or_empty(content), "test"@, "user"@),
        MsgView::System { content, .. } => json_record(or_empty(content), "test"@, "system"@),
        MsgView::Assistant { content, .. } => json_record(or_empty(content), "test"@, "assistant"@),
        _ => json_record(Seq::empty(), Seq::empty(), "system"@),
    }
}

/// Writes a message as a session-file record.
pub fn serialize_message(message: &ChatRequestMessage) -> (s: String)
    ensures
        s@ == serialized_message(message@),
{
    match message {
        ChatRequestMessage::User { content, .. } => {
            let c = content_or_empty(content);
            write_json_record(c.as_str(), "test", "user")
        },
        ChatRequestMessage::System { content, .. } => {
            let c = content_or_empty(content);
            write_json_record(c.as_str(), "test", "system")
        },
        ChatRequestMessage::Assistant { content, .. } => {
            let c = content_or_empty(content);
            write_json_record(c.as_str(), "test", "assistant")
        },
        _ => {
            let empty = String::new();
            write_json_record(empty.as_str(), empty.as_str(), "system")
        },
    }
}

/// The (name, role, content) triple that prompt renderers read from a
/// message.  A function result is shown as assistant output named
/// `SYSTEM OUTPUT`; a tool message has no triple.
pub open spec fn any_message(m: MsgView) -> (Seq<char>, Seq<char>, Seq<char>) {
    match m {
        MsgView::User { content, .. } => ("test"@, "user"@, or_empty(content)),
        MsgView::System { content, .. } => ("test"@, "system"@, or_empty(content)),
        MsgView::Assistant { content, .. } => ("test"@, "assistant"@, or_empty(content)),
        MsgView::Function { content, .. } =>
            ("SYSTEM OUTPUT"@, "assistant"@, "`RESULT: "@ + or_empty(content) + "`"@),
        MsgView::Tool { .. } => (Seq::empty(), Seq::empty(), Seq::empty()),
    }
}

/// Reduces a message to its (name, role, content) triple.
pub fn to_anychatmessage(message: &ChatRequestMessage) -> (a: AnyChatMessage)
    ensures
        any_view(&a) == any_message(message@),
{
    match message {
        ChatRequestMessage::User { content, .. } => AnyChatMessage {
            name: to_owned_string("test"),
            role: to_owned_string("user"),
            content: content_or_empty(content),
        },
        ChatRequestMessage::System { content, .. } => AnyChatMessage {
            name: to_owned_string("test"),
            role: to_owned_string("system"),
            content: content_or_empty(content),
        },
        ChatRequestMessage::Assistant { content, .. } => AnyChatMessage {
            name: to_owned_string("test"),
            role: to_owned_string("assistant"),
            content: content_or_empty(content),
        },
        ChatRequestMessage::Function { content, .. } => {
            let mut c = to_owned_string("`RESULT: ");
            let body = content_or_empty(content);
            push_str(&mut c, body.as_str());
            push_str(&mut c, "`");
            AnyChatMessage { name: to_owned_string("SYSTEM OUTPUT"), role: to_owned_string("assistant"), content: c }
        },
        ChatRequestMessage::Tool { .. } => AnyChatMessage {
            name: String::new(),
            role: String::new(),
            content: String::new(),
        },
    }
}

/// The value stored under `key` in a record: the first pair with that key.
pub open spec fn record_get(r: Seq<(Seq<char>, Seq<char>)>, key: Seq<char>) -> Option<Seq<char>>
    decreases r.len(),
{
    if r.len() == 0 {
        None
    } else if r[0].0 == key {
        Some(r[0].1)
    } else {
        record_get(r.drop_first(), key)
    }
}

/// Looks a key up in a record.
pub fn record_lookup(r: &Vec<(String, String)>, key: &str) -> (v: Option<String>)
    ensures
        v.deep_view() == record_get(r.deep_view(), key@),
{
    let mut i: usize = 0;
    assert(r.deep_view().subrange(0, r@.len() as int) =~= r.deep_view());
    while i < r.len()
        invariant
            i <= r@.len(),
            record_get(r.deep_view(), key@) == record_get(r.deep_view().subrange(i as int, r@.len() as int), key@),
        decreases r.len() - i,
    {
        let ghost rest = r.deep_view().subrange(i as int, r@.len() as int);
        assert(rest[0] == r.deep_view()[i as int]);
        assert(rest.drop_first() =~= r.deep_view().subrange(i + 1, r@.len() as int));
        if str_eq(r[i].0.as_str(), key) {
            return Some(r[i].1.clone());
        }
        i = i + 1;
    }
    assert(r.deep_view().subrange(i as int, r@.len() as int).len() == 0);
    None
}

/// Why a session-file record could not be read back as a message.
#[derive(Debug)]
pub enum DeserializeError {
    /// The record has no `role`.
    MissingRole,
    /// The `role` is not a role name.
    UnknownRole(String),
    /// Tool and function records are not read back.
    UnsupportedRole(Role),
}

/// Whether a record's role is one whose messages are not read back from a
/// session file (tool or function).
pub open spec fn has_unread_role(r: Seq<(Seq<char>, Seq<char>)>) -> bool {
    match record_get(r, "role"@) {
        Some(role) => role_from_text(role) == Some(Role::Tool) || role_from_text(role) == Some(Role::Function),
        None => false,
    }
}

/// The role of a record that is not read back, if it has one.
pub fn unread_role(record: &Vec<(String, String)>) -> (r: Option<Role>)
    ensures
        match r {
            Some(role) => has_unread_role(record.deep_view()) && record_get(record.deep_view(), "role"@)
                == Some(role_text(role)) && (role == Role::Tool || role == Role::Function),
            None => !has_unread_role(record.deep_view()),
        },
{
    match record_lookup(record, "role") {
        Some(v) => match parse_role(v.as_str()) {
            Some(Role::Tool) => Some(Role::Tool),
            Some(Role::Function) => Some(Role::Function),
            _ => None,
        },
        None => None,
    }
}

/// The message a session-file record stands for: its role picks the kind of
/// message, its `content` (empty when absent) becomes the content and every
/// message is named `test`.
pub open spec fn deserialized(r: Seq<(Seq<char>, Seq<char>)>) -> Option<MsgView> {
    match record_get(r, "role"@) {
        Some(role) => match role_from_text(role) {
            Some(Role::User) => Some(MsgView::User {
                content: Some(or_empty(record_get(r, "content"@))),
                name: Some("test"@),
            }),
            Some(Role::System) => Some(MsgView::System {
                content: Some(or_empty(record_get(r, "content"@))),
                name: Some("test"@),
            }),
            Some(Role::Assistant) => Some(MsgView::Assistant {
                content: Some(or_empty(record_get(r, "content"@))),
                name: Some("test"@),
                function_call: None,
            }),
            _ => None,
        },
        None => None,
    }
}

/// Reads a session-file record back as a message.
pub fn deserialize_message(record: &Vec<(String, String)>) -> (res: Result<ChatRequestMessage, DeserializeError>)
    requires
        !has_unread_role(record.deep_view()),
    ensures
        match res {
            Ok(m) => deserialized(record.deep_view()) == Some(m@),
            Err(DeserializeError::MissingRole) => record_get(record.deep_view(), "role"@) is None,
            Err(DeserializeError::UnknownRole(s)) => record_get(record.deep_view(), "role"@) == Some(s@)
                && role_from_text(s@) is None,
            Err(DeserializeError::UnsupportedRole(_)) => false,
        },
        res is Ok <==> deserialized(record.deep_view()) is Some,
{
    let role_value = match record_lookup(record, "role") {
        Some(v) => v,
        None => return Err(DeserializeError::MissingRole),
    };
    let content = match record_lookup(record, "content") {
        Some(c) => c,
        None => String::new(),
    };
    match parse_role(role_value.as_str()) {
        Some(Role::User) => Ok(ChatRequestMessage::User {
            content: Some(content),
            name: Some(to_owned_string("test")),
        }),
        Some(Role::System) => Ok(ChatRequestMessage::System {
            content: Some(content),
            name: Some(to_owned_string("test")),
        }),
        Some(Role::Assistant) => Ok(ChatRequestMessage::Assistant {
            content: Some(content),
            name: Some(to_owned_string("test")),
            function_call: None,
        }),
        Some(_) => Err(DeserializeError::UnknownRole(role_value)),
        None => Err(DeserializeError::UnknownRole(role_value)),
    }
}


/// The (content, name, role) fields a message is written with.
pub open spec fn record_fields(m: MsgView) -> (Seq<char>, Seq<char>, Seq<char>) {
    match m {
        MsgView::User { content, .. } => (or_empty(content), "test"@, "user"@),
        MsgView::System { content, .. } => (or_empty(content), "test"@, "system"@),
        MsgView::Assistant { content, .. } => (or_empty(content), "test"@, "assistant"@),
        _ => (Seq::empty(), Seq::empty(), "system"@),
    }
}

/// The record of a JSON object with these `content`, `name` and `role`
/// fields, keys in ascending order.
pub open spec fn record_pairs(f: (Seq<char>, Seq<char>, Seq<char>)) -> Seq<(Seq<char>, Seq<char>)> {
    seq![("content"@, f.0), ("name"@, f.1), ("role"@, f.2)]
}

/// A message as the session file keeps it: its kind and its text (empty
/// when absent), named `test`, without a function call.
pub open spec fn stored_message(m: MsgView) -> MsgView {
    match m {
        MsgView::User { content, .. } => MsgView::User { content: Some(or_empty(content)), name: Some("test"@) },
        MsgView::System { content, .. } => MsgView::System { content: Some(or_empty(content)), name: Some("test"@) },
        MsgView::Assistant { content, .. } => MsgView::Assistant {
            content: Some(or_empty(content)),
            name: Some("test"@),
            function_call: None,
        },
        _ => m,
    }
}

/// A user, system or assistant message written to a session file and read
/// back keeps its kind and its text: the record of the fields it is written
/// with reads back as its stored form, and the stored form is written with
/// the same fields, so a second save and load changes nothing.
pub proof fn law_record_roundtrip(m: MsgView)
    requires
        m is User || m is System || m is Assistant,
    ensures
        serialized_message(m) == json_record(record_fields(m).0, record_fields(m).1, record_fields(m).2),
        deserialized(record_pairs(record_fields(m))) == Some(stored_message(m)),
        record_fields(stored_message(m)) == record_fields(m),
        !has_unread_role(record_pairs(record_fields(m))),
{
    reveal_strlit("content");
    reveal_strlit("name");
    reveal_strlit("role");
    let r = record_pairs(record_fields(m));
    let r1 = r.drop_first();
    let r2 = r1.drop_first();
    assert(r1 =~= seq![("name"@, record_fields(m).1), ("role"@, record_fields(m).2)]);
    assert(r2 =~= seq![("role"@, record_fields(m).2)]);
    assert("content"@ != "role"@) by {
        assert("content"@[0] != "role"@[0]);
    }
    assert("name"@ != "role"@) by {
        assert("name"@[0] != "role"@[0]);
    }
    assert(record_get(r2, "role"@) == Some(record_fields(m).2));
    assert(record_get(r1, "role"@) == Some(record_fields(m).2));
    assert(record_get(r, "role"@) == Some(record_fields(m).2));
    assert(record_get(r, "content"@) == Some(record_fields(m).0));
    reveal_strlit("user");
    reveal_strlit("system");
    reveal_strlit("assistant");
    assert("user"@ != "system"@) by {
        assert("user"@[0] != "system"@[0]);
    }
    assert("assistant"@ != "system"@) by {
        assert("assistant"@[0] != "system"@[0]);
    }
    assert("assistant"@ != "user"@) by {
        assert("assistant"@[0] != "user"@[0]);
    }
}


/// The record a message is written as is a JSON object with plain keys in
/// ascending order: `serialized_message` is `object_text` of its pairs.
pub proof fn lemma_serialized_object(m: MsgView)
    ensures
        serialized_message(m) == object_text(record_pairs(record_fields(m))),
        well_keyed(record_pairs(record_fields(m))),
{
    reveal_strlit("content");
    reveal_strlit("name");
    reveal_strlit("role");
    reveal_strlit("\"");
    reveal_strlit("\":");
    reveal_strlit(",");
    reveal_strlit("{");
    reveal_strlit("}");
    reveal_strlit("{\"content\":");
    reveal_strlit(",\"name\":");
    reveal_strlit(",\"role\":");
    let f = record_fields(m);
    let r = record_pairs(f);
    let r2 = r.drop_last();
    let r1 = r2.drop_last();
    assert(r2 =~= seq![("content"@, f.0), ("name"@, f.1)]);
    assert(r1 =~= seq![("content"@, f.0)]);
    let m0 = member_text(r[0]);
    let m1 = member_text(r[1]);
    let m2 = member_text(r[2]);
    assert(members_text(r1) == m0);
    assert(members_text(r2) == m0 + ","@ + m1);
    assert(members_text(r) == m0 + ","@ + m1 + ","@ + m2);
    assert(object_text(r) =~= json_record(f.0, f.1, f.2));
    assert(serialized_message(m) == json_record(f.0, f.1, f.2));
    assert forall|i: int| 0 <= i < r.len() implies plain_key(#[trigger] r[i].0) by {
        assert forall|k: int| 0 <= k < r[i].0.len() implies 'a' <= #[trigger] r[i].0[k] && r[i].0[k] <= 'z' by {}
    }
    assert(key_less("content"@, "name"@));
    assert(key_less("content"@, "role"@));
    assert(key_less("name"@, "role"@));
}


/// The triple a prompt renderer reads keeps a message's author and text: a
/// user, system or assistant message gives its lowercase role and its text
/// (empty when absent) under the name `test`, and a function result is
/// assistant output named `SYSTEM OUTPUT` that quotes the result.
pub proof fn law_any_message_keeps_author(m: MsgView)
    ensures
        m matches MsgView::User { content, .. } ==> any_message(m) == ("test"@, role_text(Role::User), or_empty(
            content,
        )),
        m matches MsgView::System { content, .. } ==> any_message(m) == ("test"@, role_text(Role::System), or_empty(
            content,
        )),
        m matches MsgView::Assistant { content, .. } ==> any_message(m) == (
            "test"@,
            role_text(Role::Assistant),
            or_empty(content),
        ),
        m matches MsgView::Function { content, .. } ==> any_message(m) == (
            "SYSTEM OUTPUT"@,
            role_text(Role::Assistant),
            "`RESULT: "@ + or_empty(content) + "`"@,
        ),
{
}

/// A message is saved as a JSON object of its text under `content`, the
/// name `test` under `name` and its lowercase role under `role`; a tool or
/// function message as an empty system record.
pub proof fn law_saved_record_fields(m: MsgView)
    ensures
        m matches MsgView::User { content, .. } ==> serialized_message(m) == object_text(
            seq![("content"@, or_empty(content)), ("name"@, "test"@), ("role"@, role_text(Role::User))],
        ),
        m matches MsgView::System { content, .. } ==> serialized_message(m) == object_text(
            seq![("content"@, or_empty(content)), ("name"@, "test"@), ("role"@, role_text(Role::System))],
        ),
        m matches MsgView::Assistant { content, .. } ==> serialized_message(m) == object_text(
            seq![("content"@, or_empty(content)), ("name"@, "test"@), ("role"@, role_text(Role::Assistant))],
        ),
        m is Tool || m is Function ==> serialized_message(m) == object_text(
            seq![("content"@, Seq::<char>::empty()), ("name"@, Seq::<char>::empty()), ("role"@, role_text(Role::System))],
        ),
        well_keyed(record_pairs(record_fields(m))),
{
    lemma_serialized_object(m);
    let f = record_fields(m);
    assert(record_pairs(f) =~= seq![("content"@, f.0), ("name"@, f.1), ("role"@, f.2)]);
}

} // verus!
