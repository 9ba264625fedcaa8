//! Chat logs: the messages of a session with their token lengths, the
//! window of recent messages that fits a model's token budget, and the
//! session file the log is kept in.

pub mod serialize;

use vstd::prelude::*;
use crate::messages::{ChatRequestMessage, FunctionCall, MsgView, message_token_length, token_length};
use crate::json::{json_string_records, objects_text, parse_string_records, records_array_text, well_keyed};
use crate::text::{push_str, str_eq, to_owned_string, usize_to_decimal, decimal};
use self::serialize::{
    DeserializeError, deserialize_message, deserialized, has_unread_role, law_record_roundtrip, lemma_serialized_object,
    record_fields, record_pairs, serialize_message, serialized_message, stored_message, unread_role,
};

verus! {

/// A logged message and its token length.
pub struct ChatMessage {
    pub message: ChatRequestMessage,
    pub length: usize,
}

/// Building a message failed.  The message builders used here set every
/// field, so this does not happen; it is kept for the fallible signatures.
#[derive(Debug)]
pub struct MessageBuildError;

impl ChatMessage {
    /// A logged message whose length is the token count of its rendering.
    pub fn new(message: ChatRequestMessage) -> (r: ChatMessage)
        ensures
            r.message == message,
            r.length == token_length(message@),
    {
        let length = message_token_length(&message);
        ChatMessage { message, length }
    }

    /// A logged message with a given length.
    pub fn new_with_len(message: ChatRequestMessage, length: usize) -> (r: ChatMessage)
        ensures
            r.message == message,
            r.length == length,
    {
        ChatMessage { message, length }
    }

    /// Recomputes the length from the message.
    pub fn calc_length(&mut self)
        ensures
            final(self).message == old(self).message,
            final(self).length == token_length(old(self).message@),
    {
        self.length = message_token_length(&self.message);
    }
}

/// A system message with the given text.
pub fn sys_msg(text: &String) -> (res: Result<ChatMessage, MessageBuildError>)
    ensures
        res matches Ok(m) && m.message@ == (MsgView::System { content: Some(text@), name: None })
            && m.length == token_length(m.message@),
{
    Ok(ChatMessage::new(ChatRequestMessage::System { content: Some(text.clone()), name: None }))
}

/// A user message with the given text.
pub fn user_msg(text: &String) -> (res: Result<ChatMessage, MessageBuildError>)
    ensures
        res matches Ok(m) && m.message@ == (MsgView::User { content: Some(text@), name: None })
            && m.length == token_length(m.message@),
{
    Ok(ChatMessage::new(ChatRequestMessage::User { content: Some(text.clone()), name: None }))
}

/// An assistant message with the given text.
pub fn agent_msg(text: &String) -> (res: Result<ChatMessage, MessageBuildError>)
    ensures
        res matches Ok(m) && m.message@ == (MsgView::Assistant {
            content: Some(text@),
            name: None,
            function_call: None,
        }) && m.length == token_length(m.message@),
{
    Ok(ChatMessage::new(ChatRequestMessage::Assistant { content: Some(text.clone()), name: None, function_call: None }))
}

/// An assistant message that calls `fn_name` with JSON arguments `args_json`.
pub fn fn_call_msg(fn_name: &String, args_json: &String) -> (res: Result<ChatMessage, MessageBuildError>)
    ensures
        res matches Ok(m) && m.message@ == (MsgView::Assistant {
            content: None,
            name: None,
            function_call: Some((fn_name@, args_json@)),
        }) && m.length == token_length(m.message@),
{
    let call = FunctionCall { name: fn_name.clone(), arguments: args_json.clone() };
    Ok(ChatMessage::new(ChatRequestMessage::Assistant { content: None, name: None, function_call: Some(call) }))
}

/// A function message carrying the result of calling `fn_name`.
pub fn fn_result_msg(fn_name: &String, result: &String) -> (res: Result<ChatMessage, MessageBuildError>)
    ensures
        res matches Ok(m) && m.message@ == (MsgView::Function { content: Some(result@), name: fn_name@ })
            && m.length == token_length(m.message@),
{
    Ok(ChatMessage::new(ChatRequestMessage::Function { content: Some(result.clone()), name: fn_name.clone() }))
}

/// The log of one session of one user.
pub struct ChatLog {
    pub username: String,
    pub session_id: usize,
    pub messages: Vec<ChatMessage>,
}

/// The token budget of a model's request: 3000 for `gpt-3.5-turbo`, 7000 otherwise.
pub open spec fn token_budget(model: Seq<char>) -> nat {
    if model == "gpt-3.5-turbo"@ {
        3000
    } else {
        7000
    }
}

/// The total token length of the last `k` messages of a log.
pub open spec fn suffix_tokens(log: Seq<ChatMessage>, k: nat) -> nat
    decreases k,
{
    if k == 0 || k > log.len() {
        0
    } else {
        log[log.len() - k].length as nat + suffix_tokens(log, (k - 1) as nat)
    }
}

/// Whether the first message together with the last `k` messages fits `max` tokens.
pub open spec fn fits(log: Seq<ChatMessage>, max: nat, k: nat) -> bool {
    log[0].length + suffix_tokens(log, k) <= max
}

/// Starting from `k` kept messages, keep taking older messages while the
/// next one still fits and the first message is not reached.
pub open spec fn window_count(log: Seq<ChatMessage>, max: nat, k: nat) -> nat
    decreases log.len() - k,
{
    if k + 1 < log.len() && fits(log, max, k + 1) {
        window_count(log, max, k + 1)
    } else {
        k
    }
}

/// The messages sent for a log under a token budget: the first (system)
/// message, then the longest run of most recent messages that fits the
/// budget together with it.
pub open spec fn request_window(log: Seq<ChatMessage>, max: nat) -> Seq<MsgView> {
    let k = window_count(log, max, 0);
    seq![log[0].message@] + log.subrange(log.len() - k, log.len() as int).map_values(|m: ChatMessage| m.message@)
}

/// The views of a sequence of request messages.
pub open spec fn views(s: Seq<ChatRequestMessage>) -> Seq<MsgView> {
    s.map_values(|m: ChatRequestMessage| m@)
}

/// The text of a session file: a JSON array, one record per line.
pub open spec fn records_text(log: Seq<ChatMessage>) -> Seq<char>
    decreases log.len(),
{
    if log.len() == 0 {
        Seq::empty()
    } else if log.len() == 1 {
        serialized_message(log[0].message@)
    } else {
        records_text(log.drop_last()) + ",\n"@ + serialized_message(log.last().message@)
    }
}

/// The session file text of a log.
pub open spec fn log_json(log: Seq<ChatMessage>) -> Seq<char> {
    "[\n"@ + records_text(log) + "]"@
}

/// The directory holding a user's session files: `data/<user>/sessions`.
pub open spec fn sessions_dir_path(username: Seq<char>) -> Seq<char> {
    "data/"@ + username + "/sessions"@
}

/// The session file of a user's session: `data/<user>/sessions/<id>.json`.
pub open spec fn session_file_path(username: Seq<char>, session_id: nat) -> Seq<char> {
    "data/"@ + username + "/sessions/"@ + decimal(session_id) + ".json"@
}

/// The directory of a user's session files.
pub fn sessions_dir(username: &str) -> (p: String)
    ensures
        p@ == sessions_dir_path(username@),
{
    let mut p = to_owned_string("data/");
    push_str(&mut p, username);
    push_str(&mut p, "/sessions");
    p
}

/// The session file of a user's session.
pub fn session_path(username: &str, session_id: usize) -> (p: String)
    ensures
        p@ == session_file_path(username@, session_id as nat),
{
    let mut p = to_owned_string("data/");
    push_str(&mut p, username);
    push_str(&mut p, "/sessions/");
    let n = usize_to_decimal(session_id);
    push_str(&mut p, n.as_str());
    push_str(&mut p, ".json");
    p
}

/// Why a saved session could not be loaded.
#[derive(Debug)]
pub enum LoadError {
    /// The file is not a JSON array of string-valued objects.
    InvalidJson,
    /// A record does not stand for a message that is read back.
    BadRecord(DeserializeError),
}

/// Whether every record of a saved session is read back as a message.
pub open spec fn all_records_readable(recs: Seq<Seq<(Seq<char>, Seq<char>)>>) -> bool {
    forall|i: int| 0 <= i < recs.len() ==> (#[trigger] deserialized(recs[i])) is Some
}

/// The records a log is saved as, one per message.
pub open spec fn saved_records(log: Seq<ChatMessage>) -> Seq<Seq<(Seq<char>, Seq<char>)>> {
    log.map_values(|m: ChatMessage| record_pairs(record_fields(m.message@)))
}

/// Whether every message of a log is a user, system or assistant message,
/// the kinds a session file keeps.
pub open spec fn all_kept(log: Seq<ChatMessage>) -> bool {
    forall|i: int| 0 <= i < log.len() ==> (#[trigger] log[i].message@ is User || log[i].message@ is System
        || log[i].message@ is Assistant)
}

/// Whether a text is the session file of a log whose messages are all kept.
pub open spec fn saved_log_of(text: Seq<char>, log: Seq<ChatMessage>) -> bool {
    log_json(log) == text && all_kept(log)
}

/// Whether saved records are those of a log of kept messages: one per
/// message, each reading back as the message's stored form.
pub open spec fn reloads_from(recs: Seq<Seq<(Seq<char>, Seq<char>)>>, log: Seq<ChatMessage>) -> bool {
    &&& recs.len() == log.len()
    &&& forall|j: int| 0 <= j < recs.len() ==> {
        &&& deserialized(#[trigger] recs[j]) == Some(stored_message(log[j].message@))
        &&& !has_unread_role(recs[j])
        &&& recs[j].len() == 3
    }
}

proof fn lemma_records_text(log: Seq<ChatMessage>)
    ensures
        records_text(log) == objects_text(saved_records(log)),
    decreases log.len(),
{
    let recs = saved_records(log);
    if log.len() == 0 {
    } else if log.len() == 1 {
        lemma_serialized_object(log[0].message@);
    } else {
        lemma_records_text(log.drop_last());
        assert(recs.drop_last() =~= saved_records(log.drop_last()));
        lemma_serialized_object(log.last().message@);
    }
}

/// The session file of a log is the JSON array of its records, and every
/// record of a kept message reads back as the message's stored form.
proof fn lemma_saved_records(log: Seq<ChatMessage>)
    ensures
        log_json(log) == records_array_text(saved_records(log)),
        saved_records(log).len() == log.len(),
        forall|i: int| 0 <= i < log.len() ==> well_keyed(#[trigger] saved_records(log)[i]),
        all_kept(log) ==> forall|i: int|
            0 <= i < log.len() ==> {
                &&& deserialized(#[trigger] saved_records(log)[i]) == Some(stored_message(log[i].message@))
                &&& !has_unread_role(saved_records(log)[i])
                &&& saved_records(log)[i].len() == 3
            },
{
    lemma_records_text(log);
    assert forall|i: int| 0 <= i < log.len() implies well_keyed(#[trigger] saved_records(log)[i]) by {
        lemma_serialized_object(log[i].message@);
    }
    if all_kept(log) {
        assert forall|i: int| 0 <= i < log.len() implies {
            &&& deserialized(#[trigger] saved_records(log)[i]) == Some(stored_message(log[i].message@))
            &&& !has_unread_role(saved_records(log)[i])
            &&& saved_records(log)[i].len() == 3
        } by {
            assert(log[i].message@ is User || log[i].message@ is System || log[i].message@ is Assistant);
            law_record_roundtrip(log[i].message@);
        }
    }
}

/// Proof that the token window is the longest fitting run of recent messages.
pub proof fn lemma_window_count(log: Seq<ChatMessage>, max: nat, j: nat)
    requires
        log.len() >= 1,
        j + 1 <= log.len(),
        j > 0 ==> fits(log, max, j),
    ensures
        j <= window_count(log, max, j) <= log.len() - 1,
        window_count(log, max, j) > 0 ==> fits(log, max, window_count(log, max, j)),
        window_count(log, max, j) < log.len() - 1 ==> !fits(log, max, window_count(log, max, j) + 1),
    decreases log.len() - j,
{
    if j + 1 < log.len() && fits(log, max, j + 1) {
        lemma_window_count(log, max, j + 1);
    }
}

/// The request window of a log starts with the log's first message, fits the
/// budget whenever it keeps any other message, and cannot take one more
/// message without exceeding the budget or reaching the first message.
pub proof fn law_request_window(log: Seq<ChatMessage>, max: nat)
    requires
        log.len() >= 1,
    ensures
        request_window(log, max)[0] == log[0].message@,
        request_window(log, max).len() == window_count(log, max, 0) + 1,
        request_window(log, max).len() <= log.len(),
        window_count(log, max, 0) > 0 ==> log[0].length + suffix_tokens(log, window_count(log, max, 0)) <= max,
        window_count(log, max, 0) < log.len() - 1 ==> log[0].length + suffix_tokens(
            log,
            window_count(log, max, 0) + 1,
        ) > max,
{
    lemma_window_count(log, max, 0);
}

/// The total token length of a run of messages.
pub open spec fn total_length(s: Seq<ChatMessage>) -> nat
    decreases s.len(),
{
    if s.len() == 0 {
        0
    } else {
        s[0].length as nat + total_length(s.drop_first())
    }
}

proof fn lemma_suffix_tokens_total(log: Seq<ChatMessage>, k: nat)
    requires
        k <= log.len(),
    ensures
        suffix_tokens(log, k) == total_length(log.subrange(log.len() - k, log.len() as int)),
    decreases k,
{
    let run = log.subrange(log.len() - k, log.len() as int);
    if k == 0 {
        assert(run.len() == 0);
    } else {
        lemma_suffix_tokens_total(log, (k - 1) as nat);
        assert(run[0] == log[log.len() - k]);
        assert(run.drop_first() =~= log.subrange(log.len() - (k - 1), log.len() as int));
    }
}

/// The messages sent are the first (system) message followed by the last
/// messages of the log, in the log's order, as many as fit: the total
/// length of the first message and of the messages sent after it is within
/// the budget whenever any are sent, and one more of the most recent
/// messages (short of the first) would exceed it.
pub proof fn law_request_window_messages(log: Seq<ChatMessage>, max: nat)
    requires
        log.len() >= 1,
    ensures
        request_window(log, max)[0] == log[0].message@,
        forall|i: int|
            1 <= i < request_window(log, max).len() ==> #[trigger] request_window(log, max)[i] == log[log.len()
                - request_window(log, max).len() + i].message@,
        request_window(log, max).len() <= log.len(),
        request_window(log, max).len() > 1 ==> log[0].length + total_length(
            log.subrange(log.len() - (request_window(log, max).len() - 1), log.len() as int),
        ) <= max,
        request_window(log, max).len() < log.len() ==> log[0].length + total_length(
            log.subrange(log.len() - request_window(log, max).len(), log.len() as int),
        ) > max,
{
    lemma_window_count(log, max, 0);
    let k = window_count(log, max, 0);
    let w = request_window(log, max);
    assert(w.len() == k + 1);
    assert forall|i: int| 1 <= i < w.len() implies #[trigger] w[i] == log[log.len() - w.len() + i].message@ by {
        assert(w[i] == log.subrange(log.len() - k, log.len() as int)[i - 1].message@);
    }
    lemma_suffix_tokens_total(log, k);
    if k + 1 <= log.len() {
        lemma_suffix_tokens_total(log, k + 1);
    }
}

impl ChatLog {
    /// The log of a user's session.  `saved` is the text of the session file
    /// where one exists; an absent file gives an empty log.  Each saved
    /// record becomes a message whose length is the record's number of fields.
    /// A record whose role is tool or function is refused as `BadRecord`.
    /// The text `to_json` saves for a log of user, system and assistant
    /// messages loads back as that log, message for message, each in its
    /// stored form (same kind and text, named `test`, no function call).
    pub fn new(username: String, session_id: usize, saved: Option<&str>) -> (res: Result<ChatLog, LoadError>)
        ensures
            res matches Ok(log) ==> log.username == username && log.session_id == session_id,
            saved is None ==> (res matches Ok(log) && log.messages@.len() == 0),
            saved matches Some(text) ==> match json_string_records(text@) {
                None => res matches Err(LoadError::InvalidJson),
                Some(recs) => {
                    &&& (res is Ok <==> all_records_readable(recs))
                    &&& res matches Ok(log) ==> {
                        &&& log.messages@.len() == recs.len()
                        &&& forall|i: int|
                            0 <= i < recs.len() ==> Some(#[trigger] log.messages@[i].message@) == deserialized(recs[i])
                                && log.messages@[i].length == recs[i].len()
                    }
                    &&& res matches Err(e) ==> e is BadRecord
                },
            },
            saved matches Some(text) ==> forall|prev: Seq<ChatMessage>| #[trigger]
                saved_log_of(text@, prev) ==> (res matches Ok(log) && log.messages@.len() == prev.len() && forall|i: int|
                    0 <= i < prev.len() ==> (#[trigger] log.messages@[i]).message@ == stored_message(prev[i].message@)
                        && log.messages@[i].length == 3),
    {
        match saved {
            None => Ok(ChatLog { username, session_id, messages: Vec::new() }),
            Some(text) => {
                let recs = match parse_string_records(text) {
                    Some(r) => r,
                    None => {
                        assert forall|prev: Seq<ChatMessage>| #[trigger] saved_log_of(text@, prev) implies false by {
                            lemma_saved_records(prev);
                        }
                        return Err(LoadError::InvalidJson);
                    },
                };
                let ghost rv = recs.deep_view();
                assert forall|prev: Seq<ChatMessage>| #[trigger] saved_log_of(text@, prev) implies reloads_from(rv, prev) by {
                    lemma_saved_records(prev);
                    assert forall|j: int| 0 <= j < rv.len() implies {
                        &&& deserialized(#[trigger] rv[j]) == Some(stored_message(prev[j].message@))
                        &&& !has_unread_role(rv[j])
                        &&& rv[j].len() == 3
                    } by {
                        assert(rv[j] == saved_records(prev)[j]);
                    }
                }
                let mut messages: Vec<ChatMessage> = Vec::new();
                let mut i: usize = 0;
                while i < recs.len()
                    invariant
                        saved == Some(text),
                        json_string_records(text@) == Some(rv),
                        rv == recs.deep_view(),
                        i <= recs@.len(),
                        messages@.len() == i,
                        forall|j: int| 0 <= j < i ==> (#[trigger] deserialized(rv[j])) is Some,
                        forall|j: int|
                            0 <= j < i ==> Some(#[trigger] messages@[j].message@) == deserialized(rv[j])
                                && messages@[j].length == rv[j].len(),
                        forall|prev: Seq<ChatMessage>| #[trigger] saved_log_of(text@, prev) ==> reloads_from(rv, prev),
                    decreases recs.len() - i,
                {
                    assert(recs[i as int].deep_view() == rv[i as int]);
                    match unread_role(&recs[i]) {
                        Some(r) => {
                            assert forall|prev: Seq<ChatMessage>| #[trigger] saved_log_of(text@, prev) implies false by {
                                assert(!has_unread_role(rv[i as int]));
                            }
                            return Err(LoadError::BadRecord(DeserializeError::UnsupportedRole(r)));
                        },
                        None => {},
                    }
                    match deserialize_message(&recs[i]) {
                        Ok(m) => {
                            messages.push(ChatMessage::new_with_len(m, recs[i].len()));
                        },
                        Err(e) => {
                            assert forall|prev: Seq<ChatMessage>| #[trigger] saved_log_of(text@, prev) implies false by {
                                assert(deserialized(rv[i as int]) is Some);
                            }
                            return Err(LoadError::BadRecord(e));
                        },
                    }
                    i = i + 1;
                }
                assert forall|prev: Seq<ChatMessage>| #[trigger] saved_log_of(text@, prev) implies messages@.len()
                    == prev.len() && forall|k: int|
                    0 <= k < prev.len() ==> (#[trigger] messages@[k]).message@ == stored_message(prev[k].message@)
                        && messages@[k].length == 3 by {
                    assert forall|k: int| 0 <= k < prev.len() implies (#[trigger] messages@[k]).message@ == stored_message(
                        prev[k].message@,
                    ) && messages@[k].length == 3 by {
                        assert(deserialized(rv[k]) == Some(stored_message(prev[k].message@)));
                    }
                }
                Ok(ChatLog { username, session_id, messages })
            },
        }
    }

    /// Appends a message.
    pub fn add(&mut self, msg: ChatMessage)
        ensures
            final(self).messages@ == old(self).messages@.push(msg),
            final(self).username == old(self).username,
            final(self).session_id == old(self).session_id,
    {
        self.messages.push(msg);
    }

    /// Replaces the first (system) message, or adds it to an empty log.
    pub fn change_sys_msg(&mut self, msg: ChatMessage)
        ensures
            final(self).messages@ == if old(self).messages@.len() > 0 {
                old(self).messages@.update(0, msg)
            } else {
                seq![msg]
            },
            final(self).username == old(self).username,
            final(self).session_id == old(self).session_id,
    {
        if self.messages.len() > 0 {
            self.messages.set(0, msg);
        } else {
            self.messages.push(msg);
            assert(self.messages@ =~= seq![msg]);
        }
    }

    /// Appends a user message with the given text and returns its token length.
    pub fn add_user_message(&mut self, text: String) -> (res: Result<usize, MessageBuildError>)
        ensures
            final(self).messages@.len() == old(self).messages@.len() + 1,
            final(self).messages@.subrange(0, old(self).messages@.len() as int) == old(self).messages@,
            final(self).messages@.last().message@ == (MsgView::User { content: Some(text@), name: None }),
            res matches Ok(n) && n == final(self).messages@.last().length
                && n == token_length(final(self).messages@.last().message@),
            final(self).username == old(self).username,
            final(self).session_id == old(self).session_id,
    {
        let chatmsg = ChatMessage::new(ChatRequestMessage::User { content: Some(text), name: None });
        let length = chatmsg.length;
        self.messages.push(chatmsg);
        assert(self.messages@.subrange(0, old(self).messages@.len() as int) =~= old(self).messages@);
        Ok(length)
    }

    /// The messages to send to `model`: the first (system) message followed
    /// by the most recent messages that fit the model's token budget.
    pub fn to_request_msgs(&self, model: &str) -> (res: Result<Vec<ChatRequestMessage>, MessageBuildError>)
        requires
            self.messages@.len() >= 1,
        ensures
            res matches Ok(v) && views(v@) == request_window(self.messages@, token_budget(model@)),
    {
        let max_tokens: usize = if str_eq(model, "gpt-3.5-turbo") {
            3000
        } else {
            7000
        };
        let ghost log = self.messages@;
        let ghost max = max_tokens as nat;
        let n = self.messages.len();
        let mut msgs: Vec<ChatRequestMessage> = Vec::new();
        msgs.push(self.messages[0].message.duplicate());
        let mut tokens: usize = self.messages[0].length;
        let mut i: usize = 0;
        let mut done = false;
        proof {
            assert(log.subrange(n as int, n as int).map_values(|m: ChatMessage| m.message@) =~= Seq::<MsgView>::empty());
            assert(views(msgs@) =~= seq![log[0].message@]);
        }
        while !done
            invariant
                log == self.messages@,
                n == log.len(),
                n >= 1,
                max == max_tokens as nat,
                max <= 7000,
                i + 1 <= n,
                msgs@.len() == i + 1,
                i > 0 ==> fits(log, max, i as nat),
                tokens == log[0].length + suffix_tokens(log, i as nat),
                i > 0 ==> tokens <= max,
                window_count(log, max, 0) == window_count(log, max, i as nat),
                done ==> window_count(log, max, i as nat) == i,
                views(msgs@) == seq![log[0].message@] + log.subrange(n - i, n as int).map_values(
                    |m: ChatMessage| m.message@,
                ),
            decreases (n - i) * 2 + if done { 0int } else { 1int },
        {
            let next = n - 1 - i;
            if i < n - 1 && tokens <= max_tokens && self.messages[next].length <= max_tokens - tokens {
                proof {
                    assert(suffix_tokens(log, (i + 1) as nat) == log[next as int].length + suffix_tokens(log, i as nat));
                }
                tokens = tokens + self.messages[next].length;
                let m = self.messages[next].message.duplicate();
                let ghost before = msgs@;
                msgs.insert(1, m);
                proof {
                    let old_tail = log.subrange(n - i, n as int).map_values(|m: ChatMessage| m.message@);
                    let new_tail = log.subrange(n - (i + 1), n as int).map_values(|m: ChatMessage| m.message@);
                    assert(new_tail =~= seq![log[next as int].message@] + old_tail);
                    assert(msgs@ == before.insert(1, m));
                    assert(views(msgs@) =~= views(before).insert(1, m@));
                    assert(views(before).insert(1, m@) =~= seq![log[0].message@] + new_tail);
                }
                i = i + 1;
            } else {
                proof {
                    assert(suffix_tokens(log, (i + 1) as nat) == log[next as int].length + suffix_tokens(log, i as nat));
                }
                done = true;
            }
        }
        Ok(msgs)
    }

    /// The text of the session file of this log.
    pub fn to_json(&self) -> (s: String)
        ensures
            s@ == log_json(self.messages@),
    {
        let mut out = to_owned_string("[\n");
        let mut i: usize = 0;
        while i < self.messages.len()
            invariant
                i <= self.messages@.len(),
                out@ == "[\n"@ + records_text(self.messages@.subrange(0, i as int)),
            decreases self.messages.len() - i,
        {
            let ghost prefix = self.messages@.subrange(0, i as int);
            let ghost next = self.messages@.subrange(0, i + 1);
            assert(next.drop_last() =~= prefix);
            if i > 0 {
                push_str(&mut out, ",\n");
            }
            let json = serialize_message(&self.messages[i].message);
            push_str(&mut out, json.as_str());
            proof {
                if i == 0 {
                    assert(prefix =~= Seq::<ChatMessage>::empty());
                }
            }
            i = i + 1;
        }
        assert(self.messages@.subrange(0, self.messages@.len() as int) =~= self.messages@);
        push_str(&mut out, "]");
        out
    }

    /// The path of this log's session file.
    pub fn file_path(&self) -> (p: String)
        ensures
            p@ == session_file_path(self.username@, self.session_id as nat),
    {
        session_path(self.username.as_str(), self.session_id)
    }
}

} // verus!
