//! The decisions an agent makes between model replies and script calls.

use vstd::prelude::*;
use crate::api::chatuimessage::{ChatUIMessage, UiView};
use crate::json::{json_quote, json_string_literal, lemma_object_text_1, lemma_object_text_2, member_text, object_text};
use crate::text::{contains, is_prefix, push_str, starts_with, str_contains, str_eq, to_owned_string};

verus! {

/// The hosted model agents talk to.
pub const AGENT_MODEL: &'static str = "gpt-4-1106-preview";

/// What a line of user input is.
#[derive(Debug, PartialEq, Eq, Structural)]
pub enum CommandKind {
    /// `//history`: replay the log to the front end.
    History,
    /// Another line starting with `//`: not handled.
    Unknown,
    /// Ordinary input for the model.
    NotACommand,
}

/// The kind of an input line.
pub open spec fn command_kind_of(cmd: Seq<char>) -> CommandKind {
    if !is_prefix("//"@, cmd) {
        CommandKind::NotACommand
    } else if cmd == "//history"@ {
        CommandKind::History
    } else {
        CommandKind::Unknown
    }
}

/// Classifies a line of user input.
pub fn command_kind(cmd: &str) -> (k: CommandKind)
    ensures
        k == command_kind_of(cmd@),
{
    if starts_with(cmd, "//") {
        if str_eq(cmd, "//history") {
            CommandKind::History
        } else {
            CommandKind::Unknown
        }
    } else {
        CommandKind::NotACommand
    }
}

/// Whether the agent handles an input line itself instead of sending it on.
pub fn handles_command(cmd: &str) -> (b: bool)
    ensures
        b == (command_kind_of(cmd@) == CommandKind::History),
{
    match command_kind(cmd) {
        CommandKind::History => true,
        _ => false,
    }
}

/// The stage a script's exit check moves to: none when the script has no
/// exit check, or when it answers with nothing (`""` or `()`).
pub open spec fn exit_stage_of(next_step: Seq<char>) -> Option<Seq<char>> {
    if contains(next_step, "Function not found"@) {
        None
    } else if next_step == ""@ || next_step == "()"@ {
        None
    } else {
        Some(next_step)
    }
}

/// Reads the answer of a script's exit check.
pub fn exit_stage_target(next_step: &str) -> (r: Option<String>)
    ensures
        r.deep_view() == exit_stage_of(next_step@),
{
    if str_contains(next_step, "Function not found") {
        None
    } else if str_eq(next_step, "") || str_eq(next_step, "()") {
        None
    } else {
        Some(to_owned_string(next_step))
    }
}

/// The script arguments for rendering the system message: `{"timestamp":..}`.
pub open spec fn sys_msg_args_text(timestamp: Seq<char>) -> Seq<char> {
    "{\"timestamp\":"@ + json_string_literal(timestamp) + "}"@
}

/// The script arguments for rendering a user message:
/// `{"timestamp":..,"user_msg":..}`.
pub open spec fn user_msg_args_text(timestamp: Seq<char>, user_msg: Seq<char>) -> Seq<char> {
    "{\"timestamp\":"@ + json_string_literal(timestamp) + ",\"user_msg\":"@ + json_string_literal(user_msg) + "}"@
}

/// JSON arguments for the script that renders the system message.
pub fn sys_msg_args(timestamp: &str) -> (s: String)
    ensures
        s@ == sys_msg_args_text(timestamp@),
{
    let mut s = to_owned_string("{\"timestamp\":");
    let t = json_quote(timestamp);
    push_str(&mut s, t.as_str());
    push_str(&mut s, "}");
    s
}

/// JSON arguments for the script that renders a user message.
pub fn user_msg_args(timestamp: &str, user_msg: &str) -> (s: String)
    ensures
        s@ == user_msg_args_text(timestamp@, user_msg@),
{
    let mut s = to_owned_string("{\"timestamp\":");
    let t = json_quote(timestamp);
    push_str(&mut s, t.as_str());
    push_str(&mut s, ",\"user_msg\":");
    let u = json_quote(user_msg);
    push_str(&mut s, u.as_str());
    push_str(&mut s, "}");
    s
}

/// What the agent does with a finished model reply.
#[derive(Debug)]
pub enum AgentTurn {
    /// Call this script function with these JSON arguments, then ask the
    /// model again without waiting for the user.
    CallFunction { name: String, args: String },
    /// Log the text as the agent's message, show this reply and wait for
    /// the user.
    Reply { text: String, reply: ChatUIMessage },
}

/// The turn a reply leads to: a function call when it names a function,
/// otherwise the agent's reply shown as `agent`/`assistant`.
pub open spec fn turn_of(text: Seq<char>, fn_name: Seq<char>, fn_args: Seq<char>) -> (bool, Seq<char>, Seq<char>, UiView) {
    if fn_name != ""@ {
        (true, fn_name, fn_args, UiView::Fragment(Seq::empty()))
    } else {
        (false, text, Seq::empty(), UiView::Reply { role: "assistant"@, name: "agent"@, content: text })
    }
}

/// Decides the agent's next step after a model reply.
pub fn after_reply(text: String, fn_name: String, fn_args: String) -> (t: AgentTurn)
    ensures
        match t {
            AgentTurn::CallFunction { name, args } => turn_of(text@, fn_name@, fn_args@).0
                && name@ == fn_name@ && args@ == fn_args@,
            AgentTurn::Reply { text: logged, reply } => !turn_of(text@, fn_name@, fn_args@).0
                && logged@ == text@ && reply@ == turn_of(text@, fn_name@, fn_args@).3,
        },
{
    if !str_eq(fn_name.as_str(), "") {
        AgentTurn::CallFunction { name: fn_name, args: fn_args }
    } else {
        let reply = ChatUIMessage::Reply {
            name: to_owned_string("agent"),
            role: to_owned_string("assistant"),
            content: text.clone(),
        };
        AgentTurn::Reply { text, reply }
    }
}

/// Whether the agent waits for the user after a turn.
pub open spec fn waits_for_user(fn_name: Seq<char>) -> bool {
    fn_name == ""@
}

/// The front-end report of a script function call.
pub fn function_call_report(fn_name: &str, fn_args: &str, output: String) -> (m: ChatUIMessage)
    ensures
        m@ == (UiView::FunctionCall { name: fn_name@, params: fn_args@, result: output@ }),
{
    ChatUIMessage::FunctionCall { name: to_owned_string(fn_name), params: to_owned_string(fn_args), result: output }
}

/// Where an agent's conversation loop stands: waiting for the user, or
/// about to ask the model again after a function call.
pub struct AgentLoop {
    pub need_user_input: bool,
}

/// What the loop does next.
#[derive(Debug, PartialEq, Eq, Structural)]
pub enum LoopStep {
    /// Wait for a line from the user.
    AwaitInput,
    /// Send the log to the model.
    Request,
}

/// What becomes of a line of user input.
#[derive(Debug, PartialEq, Eq, Structural)]
pub enum InputAction {
    /// Replay the history to the front end and end the loop.
    ReplayHistoryAndStop,
    /// Render the line as a user message, log it and ask the model.
    UserMessage,
}

impl AgentLoop {
    /// A loop that starts by waiting for the user.
    pub fn new() -> (l: AgentLoop)
        ensures
            l.need_user_input,
    {
        AgentLoop { need_user_input: true }
    }

    /// The next step.
    pub fn next_step(&self) -> (s: LoopStep)
        ensures
            s == (if self.need_user_input {
                LoopStep::AwaitInput
            } else {
                LoopStep::Request
            }),
    {
        if self.need_user_input {
            LoopStep::AwaitInput
        } else {
            LoopStep::Request
        }
    }

    /// Takes a line of user input: `//history` ends the loop, anything else
    /// is a message for the model.
    pub fn on_input(&mut self, input: &str) -> (a: InputAction)
        ensures
            command_kind_of(input@) == CommandKind::History ==> a == InputAction::ReplayHistoryAndStop
                && !final(self).need_user_input,
            command_kind_of(input@) != CommandKind::History ==> a == InputAction::UserMessage
                && final(self).need_user_input == old(self).need_user_input,
    {
        if handles_command(input) {
            self.need_user_input = false;
            InputAction::ReplayHistoryAndStop
        } else {
            InputAction::UserMessage
        }
    }

    /// Takes a finished model reply: a function call is carried out and the
    /// model asked again at once; a text reply is shown and the user asked.
    pub fn on_reply(&mut self, text: String, fn_name: String, fn_args: String) -> (t: AgentTurn)
        ensures
            final(self).need_user_input == waits_for_user(fn_name@),
            waits_for_user(fn_name@) <==> t is Reply,
            match t {
                AgentTurn::CallFunction { name, args } => name@ == fn_name@ && args@ == fn_args@,
                AgentTurn::Reply { text: logged, reply } => logged@ == text@ && reply@ == turn_of(
                    text@,
                    fn_name@,
                    fn_args@,
                ).3,
            },
    {
        let t = after_reply(text, fn_name, fn_args);
        match &t {
            AgentTurn::CallFunction { .. } => {
                self.need_user_input = false;
            },
            AgentTurn::Reply { .. } => {
                self.need_user_input = true;
            },
        }
        t
    }
}


/// The script arguments are JSON objects: the timestamp under `timestamp`,
/// and for a user message the message text under `user_msg`.
pub proof fn law_script_args_fields(timestamp: Seq<char>, user_msg: Seq<char>)
    ensures
        sys_msg_args_text(timestamp) == object_text(seq![("timestamp"@, timestamp)]),
        user_msg_args_text(timestamp, user_msg) == object_text(
            seq![("timestamp"@, timestamp), ("user_msg"@, user_msg)],
        ),
{
    reveal_strlit("timestamp");
    reveal_strlit("user_msg");
    reveal_strlit("\"");
    reveal_strlit("\":");
    reveal_strlit(",");
    reveal_strlit("{");
    reveal_strlit("}");
    reveal_strlit("{\"timestamp\":");
    reveal_strlit(",\"user_msg\":");
    lemma_object_text_1("timestamp"@, timestamp);
    lemma_object_text_2("timestamp"@, timestamp, "user_msg"@, user_msg);
    assert(sys_msg_args_text(timestamp) =~= "{"@ + member_text(("timestamp"@, timestamp)) + "}"@);
    assert(user_msg_args_text(timestamp, user_msg) =~= "{"@ + member_text(("timestamp"@, timestamp)) + ","@
        + member_text(("user_msg"@, user_msg)) + "}"@);
}


/// A model reply that names a function is carried out as a call of that
/// function with the reply's arguments, and the agent asks the model again;
/// a reply without a function name is shown to the user as the agent's
/// (role `assistant`, name `agent`) with the reply's own text, and the agent
/// waits for the user.
pub proof fn law_reply_turns(text: Seq<char>, fn_name: Seq<char>, fn_args: Seq<char>)
    ensures
        turn_of(text, fn_name, fn_args).0 <==> fn_name.len() > 0,
        fn_name.len() > 0 ==> turn_of(text, fn_name, fn_args).1 == fn_name && turn_of(text, fn_name, fn_args).2
            == fn_args && !waits_for_user(fn_name),
        fn_name.len() == 0 ==> turn_of(text, fn_name, fn_args).1 == text && turn_of(text, fn_name, fn_args).3 == (
        UiView::Reply { role: "assistant"@, name: "agent"@, content: text }) && waits_for_user(fn_name),
{
    reveal_strlit("");
    if fn_name.len() == 0 {
        assert(fn_name =~= ""@);
    } else {
        assert(fn_name.len() != ""@.len());
    }
}

/// Only the exact line `//history` is the history command; other lines
/// starting with `//` are unknown commands, and lines not starting with
/// `//` are messages for the model.
pub proof fn law_command_kinds(cmd: Seq<char>)
    ensures
        (command_kind_of(cmd) == CommandKind::History) <==> cmd == "//history"@,
        (command_kind_of(cmd) == CommandKind::NotACommand) <==> !is_prefix("//"@, cmd),
{
    reveal_strlit("//history");
    reveal_strlit("//");
    if cmd == "//history"@ {
        assert(cmd.subrange(0, 2) =~= "//"@);
    }
}

/// The stage a script's exit check names is its whole answer, moved to only
/// when the answer is not empty, not `()`, and not a missing-function error.
pub proof fn law_exit_stage(next_step: Seq<char>)
    ensures
        exit_stage_of(next_step) matches Some(t) ==> t == next_step && t.len() > 0 && t != "()"@ && !contains(
            t,
            "Function not found"@,
        ),
        exit_stage_of(next_step) is None ==> next_step.len() == 0 || next_step == "()"@ || contains(
            next_step,
            "Function not found"@,
        ),
{
    reveal_strlit("");
    if next_step.len() == 0 {
        assert(next_step =~= ""@);
    }
    if next_step == ""@ {
        assert(next_step.len() == 0);
    }
}

} // verus!
