//! The decisions of the host's HTTP front end: which requests need a token,
//! the query parameters it reads, and the event stream sent to a client.

pub mod chatuimessage;

use vstd::prelude::*;
use crate::agentmgr::SessionCache;
use self::chatuimessage::{ChatUIMessage, UiView};
use crate::chatlog::serialize::json_record;
use crate::json::{json_quote, json_string_literal, lemma_object_text_3, member_text, object_text};
use crate::text::{is_prefix, parse_unsigned, parsed_unsigned, push_str, starts_with, str_eq, to_owned_string};

verus! {

/// Whether some prefix of the list starts the string.
pub open spec fn starts_with_some(s: Seq<char>, prefixes: Seq<Seq<char>>) -> bool {
    exists|i: int| 0 <= i < prefixes.len() && is_prefix(#[trigger] prefixes[i], s)
}

/// Checks whether a string starts with any of the given prefixes.
pub fn starts_with_any(string_to_check: &str, prefixes: Vec<String>) -> (b: bool)
    ensures
        b == starts_with_some(string_to_check@, prefixes.deep_view()),
{
    let mut i: usize = 0;
    while i < prefixes.len()
        invariant
            i <= prefixes@.len(),
            forall|k: int| 0 <= k < i ==> !is_prefix(#[trigger] prefixes.deep_view()[k], string_to_check@),
        decreases prefixes.len() - i,
    {
        if starts_with(string_to_check, prefixes[i].as_str()) {
            assert(prefixes.deep_view()[i as int] == prefixes[i as int]@);
            return true;
        }
        assert(prefixes.deep_view()[i as int] == prefixes[i as int]@);
        i = i + 1;
    }
    false
}

/// The paths whose requests carry a login token.
pub open spec fn protected_paths() -> Seq<Seq<char>> {
    seq!["/chat"@, "/send"@, "/stop"@, "/sessions"@]
}

/// Whether a request path needs a login token.
pub fn needs_auth(path: &str) -> (b: bool)
    ensures
        b == starts_with_some(path@, protected_paths()),
{
    let prefixes = vec![
        to_owned_string("/chat"),
        to_owned_string("/send"),
        to_owned_string("/stop"),
        to_owned_string("/sessions"),
    ];
    assert(prefixes.deep_view() =~= protected_paths());
    starts_with_any(path, prefixes)
}

/// The (name, value) pairs of a URL query string.
pub uninterp spec fn form_pairs(query: Seq<char>) -> Option<Seq<(Seq<char>, Seq<char>)>>;

/// Reads a URL query string as percent-decoded (name, value) pairs.
///
/// Trusted: `serde_urlencoded::from_str::<Vec<(String, String)>>`; the
/// pairs, in query order, are named `form_pairs` of the query (`None` on
/// failure).  Nothing else is claimed.
#[verifier::external_body]
fn parse_query(query: &str) -> (r: Option<Vec<(String, String)>>)
    ensures
        r.deep_view() == form_pairs(query@),
{
    serde_urlencoded::from_str::<Vec<(String, String)>>(query).ok()
}

/// The value of the last pair named `key`: what a map built from the pairs
/// in order keeps for it.
pub open spec fn last_value(pairs: Seq<(Seq<char>, Seq<char>)>, key: Seq<char>) -> Option<Seq<char>>
    decreases pairs.len(),
{
    if pairs.len() == 0 {
        None
    } else if pairs.last().0 == key {
        Some(pairs.last().1)
    } else {
        last_value(pairs.drop_last(), key)
    }
}

/// The value of a query parameter: the last one of that name; none when the
/// query cannot be read.
pub open spec fn query_param(query: Seq<char>, key: Seq<char>) -> Option<Seq<char>> {
    match form_pairs(query) {
        Some(pairs) => last_value(pairs, key),
        None => None,
    }
}

/// Reads one parameter of a URL query string.
pub fn query_value(query: &str, key: &str) -> (v: Option<String>)
    ensures
        v.deep_view() == query_param(query@, key@),
{
    let pairs = match parse_query(query) {
        Some(p) => p,
        None => return None,
    };
    let mut i = pairs.len();
    assert(pairs.deep_view().subrange(0, i as int) =~= pairs.deep_view());
    while i > 0
        invariant
            i <= pairs@.len(),
            form_pairs(query@) == Some(pairs.deep_view()),
            last_value(pairs.deep_view(), key@) == last_value(pairs.deep_view().subrange(0, i as int), key@),
        decreases i,
    {
        let ghost pre = pairs.deep_view().subrange(0, i as int);
        assert(pre.last() == pairs.deep_view()[i - 1]);
        assert(pre.drop_last() =~= pairs.deep_view().subrange(0, i - 1));
        if str_eq(pairs[i - 1].0.as_str(), key) {
            return Some(pairs[i - 1].1.clone());
        }
        i = i - 1;
    }
    None
}

/// What to do with a request before it reaches its handler.
#[derive(Debug)]
pub enum AuthStep {
    /// The path needs no token.
    Pass,
    /// Verify this token and pass its claims on.
    CheckToken(String),
    /// Refuse: the path needs a token and the request has none.
    Reject,
}

/// The step for a request with this path and query string.
pub open spec fn auth_step(path: Seq<char>, query: Option<Seq<char>>) -> Option<Option<Seq<char>>> {
    if !starts_with_some(path, protected_paths()) {
        None
    } else {
        match query {
            Some(q) => Some(query_param(q, "token"@)),
            None => Some(None),
        }
    }
}

/// Decides how the authentication layer treats a request: paths that need a
/// token get the `token` query parameter checked, and are refused without one.
pub fn auth_decision(path: &str, query: Option<&str>) -> (step: AuthStep)
    ensures
        match step {
            AuthStep::Pass => auth_step(path@, query.deep_view()) is None,
            AuthStep::CheckToken(t) => auth_step(path@, query.deep_view()) == Some(Some(t@)),
            AuthStep::Reject => auth_step(path@, query.deep_view()) == Some(None::<Seq<char>>),
        },
{
    if !needs_auth(path) {
        return AuthStep::Pass;
    }
    match query {
        Some(q) => match query_value(q, "token") {
            Some(t) => AuthStep::CheckToken(t),
            None => AuthStep::Reject,
        },
        None => AuthStep::Reject,
    }
}

/// The status and message of a refused request.
pub fn auth_failure() -> (r: (u16, &'static str))
    ensures
        r.0 == 500,
        r.1@ == "Auth failed"@,
{
    (500, "Auth failed")
}

/// The session a `/send` or `/stop` request addresses when it names none.
pub const DEFAULT_SEND_SESSION: usize = 1;

/// The session a `/chat` event stream addresses when it names none.
pub const DEFAULT_CHAT_SESSION: usize = 10;

/// A `session_id` parameter that is not a session number.
#[derive(Debug)]
pub struct InvalidSessionId;

/// The session a request addresses: the `session_id` parameter read as a
/// number, or the default when the parameter is absent.
pub fn session_id_param(param: Option<&str>, default: usize) -> (r: Result<usize, InvalidSessionId>)
    ensures
        param is None ==> r == Ok::<usize, InvalidSessionId>(default),
        param matches Some(p) ==> match parsed_unsigned(p@, usize::MAX as nat) {
            Some(n) => r == Ok::<usize, InvalidSessionId>(n as usize),
            None => r is Err,
        },
{
    match param {
        None => Ok(default),
        Some(p) => match parse_unsigned(p, usize::MAX) {
            Some(n) => Ok(n),
            None => Err(InvalidSessionId),
        },
    }
}

/// Whether a reply tells the front end that the agent waits for input.
pub open spec fn is_ready_view(m: UiView) -> bool {
    m matches UiView::Reply { name, .. } && name == "__READY__"@
}

/// Whether a reply tells the front end that the agent waits for input.
pub fn is_ready_reply(msg: &ChatUIMessage) -> (b: bool)
    ensures
        b == is_ready_view(msg@),
{
    match msg {
        ChatUIMessage::Reply { name, .. } => str_eq(name.as_str(), "__READY__"),
        _ => false,
    }
}

/// The JSON object `{"name":..,"params":..,"result":..}`.
pub open spec fn json_call_record(name: Seq<char>, params: Seq<char>, result: Seq<char>) -> Seq<char> {
    "{\"name\":"@ + json_string_literal(name) + ",\"params\":"@ + json_string_literal(params)
        + ",\"result\":"@ + json_string_literal(result) + "}"@
}

/// The server-sent event (event name, data) that carries a message.
pub open spec fn sse_event_of(m: UiView) -> (Seq<char>, Seq<char>) {
    match m {
        UiView::UserId(u) => ("user"@, u),
        UiView::Fragment(f) => ("fragment"@, f),
        UiView::Reply { role, name, content } => ("msg"@, json_record(content, name, role)),
        UiView::FunctionCall { name, params, result } => ("functionCall"@, json_call_record(name, params, result)),
    }
}

/// The server-sent event for a message: user id, fragment, message as JSON,
/// or function call as JSON.
pub fn sse_event(msg: &ChatUIMessage) -> (r: (String, String))
    ensures
        (r.0@, r.1@) == sse_event_of(msg@),
{
    match msg {
        ChatUIMessage::UserId(u) => (to_owned_string("user"), u.clone()),
        ChatUIMessage::Fragment(f) => (to_owned_string("fragment"), f.clone()),
        ChatUIMessage::Reply { role, name, content } => {
            let mut d = to_owned_string("{\"content\":");
            let c = json_quote(content.as_str());
            push_str(&mut d, c.as_str());
            push_str(&mut d, ",\"name\":");
            let n = json_quote(name.as_str());
            push_str(&mut d, n.as_str());
            push_str(&mut d, ",\"role\":");
            let r = json_quote(role.as_str());
            push_str(&mut d, r.as_str());
            push_str(&mut d, "}");
            (to_owned_string("msg"), d)
        },
        ChatUIMessage::FunctionCall { name, params, result } => {
            let mut d = to_owned_string("{\"name\":");
            let n = json_quote(name.as_str());
            push_str(&mut d, n.as_str());
            push_str(&mut d, ",\"params\":");
            let p = json_quote(params.as_str());
            push_str(&mut d, p.as_str());
            push_str(&mut d, ",\"result\":");
            let r = json_quote(result.as_str());
            push_str(&mut d, r.as_str());
            push_str(&mut d, "}");
            (to_owned_string("functionCall"), d)
        },
    }
}

/// The last event of a client's stream, sent when the client goes away.
pub fn disconnect_event() -> (r: (String, String))
    ensures
        r.0@ == "disconnect"@,
        r.1@ == "disconnected"@,
{
    (to_owned_string("disconnect"), to_owned_string("disconnected"))
}


/// The event stream a reply goes to: the stream of the user's session, or
/// status 500 saying whether the user has no stream at all or no stream for
/// that session.
pub fn session_stream<'a, H>(streams: &'a SessionCache<H>, user: &str, id: usize) -> (r: Result<&'a H, (u16, &'static str)>)
    ensures
        match streams.lookup(user@, id) {
            Some(h) => r matches Ok(x) && *x == h,
            None => r matches Err(e) && e.0 == 500 && e.1@ == (if streams.knows_user(user@) {
                "Session not found"@
            } else {
                "User stream not found"@
            }),
        },
{
    if !streams.has_user(user) {
        proof {
            if streams.lookup(user@, id) is Some {
                assert(streams.knows_user(user@));
            }
        }
        return Err((500, "User stream not found"));
    }
    match streams.get(user, id) {
        Some(h) => Ok(h),
        None => Err((500, "Session not found")),
    }
}


/// An event carries what its message says: a reply as a JSON object of its
/// `content`, `name` and `role`, a function call as one of its `name`,
/// `params` and `result`, keys in ascending order, each under its own key;
/// a user id and a fragment as their own text.
pub proof fn law_sse_event_fields(m: UiView)
    ensures
        m matches UiView::Reply { role, name, content } ==> sse_event_of(m) == ("msg"@, object_text(
            seq![("content"@, content), ("name"@, name), ("role"@, role)],
        )),
        m matches UiView::FunctionCall { name, params, result } ==> sse_event_of(m) == ("functionCall"@, object_text(
            seq![("name"@, name), ("params"@, params), ("result"@, result)],
        )),
        m matches UiView::UserId(u) ==> sse_event_of(m) == ("user"@, u),
        m matches UiView::Fragment(f) ==> sse_event_of(m) == ("fragment"@, f),
{
    reveal_strlit("content");
    reveal_strlit("name");
    reveal_strlit("role");
    reveal_strlit("params");
    reveal_strlit("result");
    reveal_strlit("\"");
    reveal_strlit("\":");
    reveal_strlit(",");
    reveal_strlit("{");
    reveal_strlit("}");
    reveal_strlit("{\"content\":");
    reveal_strlit(",\"name\":");
    reveal_strlit(",\"role\":");
    reveal_strlit("{\"name\":");
    reveal_strlit(",\"params\":");
    reveal_strlit(",\"result\":");
    match m {
        UiView::Reply { role, name, content } => {
            lemma_object_text_3("content"@, content, "name"@, name, "role"@, role);
            assert(json_record(content, name, role) =~= "{"@ + member_text(("content"@, content)) + ","@ + member_text(
                ("name"@, name),
            ) + ","@ + member_text(("role"@, role)) + "}"@);
        },
        UiView::FunctionCall { name, params, result } => {
            lemma_object_text_3("name"@, name, "params"@, params, "result"@, result);
            assert(json_call_record(name, params, result) =~= "{"@ + member_text(("name"@, name)) + ","@
                + member_text(("params"@, params)) + ","@ + member_text(("result"@, result)) + "}"@);
        },
        _ => {},
    }
}


/// The value read for a key is that of its last pair: some pair carries the
/// key and that value and no later pair carries the key; no value is read
/// when no pair carries the key.
pub proof fn law_last_value_is_last(pairs: Seq<(Seq<char>, Seq<char>)>, key: Seq<char>)
    ensures
        last_value(pairs, key) matches Some(v) ==> exists|i: int|
            0 <= i < pairs.len() && #[trigger] pairs[i] == (key, v) && forall|j: int|
                i < j < pairs.len() ==> (#[trigger] pairs[j]).0 != key,
        last_value(pairs, key) is None ==> forall|i: int| 0 <= i < pairs.len() ==> (#[trigger] pairs[i]).0 != key,
    decreases pairs.len(),
{
    if pairs.len() > 0 {
        let n = pairs.len() - 1;
        if pairs.last().0 == key {
            assert(pairs[n] == (key, pairs.last().1));
        } else {
            law_last_value_is_last(pairs.drop_last(), key);
            if let Some(v) = last_value(pairs, key) {
                let i = choose|i: int|
                    0 <= i < pairs.drop_last().len() && #[trigger] pairs.drop_last()[i] == (key, v) && forall|j: int|
                        i < j < pairs.drop_last().len() ==> (#[trigger] pairs.drop_last()[j]).0 != key;
                assert(pairs[i] == (key, v));
                assert forall|j: int| i < j < pairs.len() implies (#[trigger] pairs[j]).0 != key by {
                    if j < n {
                        assert(pairs[j] == pairs.drop_last()[j]);
                    }
                }
            } else {
                assert forall|i: int| 0 <= i < pairs.len() implies (#[trigger] pairs[i]).0 != key by {
                    if i < n {
                        assert(pairs[i] == pairs.drop_last()[i]);
                    }
                }
            }
        }
    }
}

/// A request needs a login token exactly when its path starts with `/chat`,
/// `/send`, `/stop` or `/sessions`; such a request is checked with the last
/// `token` parameter of its query, and refused when it has none; any other
/// request passes.
pub proof fn law_auth_paths(path: Seq<char>, query: Option<Seq<char>>)
    ensures
        starts_with_some(path, protected_paths()) <==> (is_prefix("/chat"@, path) || is_prefix("/send"@, path)
            || is_prefix("/stop"@, path) || is_prefix("/sessions"@, path)),
        !starts_with_some(path, protected_paths()) ==> auth_step(path, query) is None,
        starts_with_some(path, protected_paths()) ==> auth_step(path, query) == Some(
            match query {
                Some(q) => match form_pairs(q) {
                    Some(pairs) => last_value(pairs, "token"@),
                    None => None,
                },
                None => None,
            },
        ),
{
    let ps = protected_paths();
    if is_prefix("/chat"@, path) {
        assert(is_prefix(ps[0], path));
    }
    if is_prefix("/send"@, path) {
        assert(is_prefix(ps[1], path));
    }
    if is_prefix("/stop"@, path) {
        assert(is_prefix(ps[2], path));
    }
    if is_prefix("/sessions"@, path) {
        assert(is_prefix(ps[3], path));
    }
}

} // verus!
