//! Chat-completion requests to a hosted model: the functions offered to the
//! model, and the accumulation of a streamed reply into text or a function call.

use vstd::prelude::*;
use crate::chatlog::MessageBuildError;
use crate::text::{push_str, to_owned_string};

verus! {

/// A function offered to the model: name, description and JSON-schema parameters.
pub struct ChatFunction {
    pub name: String,
    pub description: String,
    pub parameters: String,
}

/// A function description for a chat request.
pub fn chat_fn(func_name: String, descr: String, params: String) -> (res: Result<ChatFunction, MessageBuildError>)
    ensures
        res matches Ok(f) && f.name@ == func_name@ && f.description@ == descr@ && f.parameters@ == params@,
{
    Ok(ChatFunction { name: func_name, description: descr, parameters: params })
}

/// Why the model stopped.
#[derive(Clone, Copy, Debug, PartialEq, Eq, Structural)]
pub enum FinishReason {
    Stop,
    Length,
    ToolCalls,
    ContentFilter,
    FunctionCall,
}

/// One choice of one chunk of a streamed reply.
pub struct StreamChoice {
    /// A function name the chunk announces.
    pub function_name: Option<String>,
    /// A piece of function arguments.
    pub function_arguments: Option<String>,
    /// A piece of reply text.
    pub content: Option<String>,
    pub finish_reason: Option<FinishReason>,
}

/// The value of a [`StreamChoice`].
pub struct ChoiceView {
    pub function_name: Option<Seq<char>>,
    pub function_arguments: Option<Seq<char>>,
    pub content: Option<Seq<char>>,
    pub finish_reason: Option<FinishReason>,
}

impl View for StreamChoice {
    type V = ChoiceView;

    open spec fn view(&self) -> ChoiceView {
        ChoiceView {
            function_name: self.function_name.deep_view(),
            function_arguments: self.function_arguments.deep_view(),
            content: self.content.deep_view(),
            finish_reason: self.finish_reason,
        }
    }
}

/// What to do after one choice of a streamed reply.
#[derive(Debug)]
pub enum StreamAction {
    /// Read on.
    Continue,
    /// Read on, after showing this fragment of reply text.
    Fragment(String),
    /// The model asked for a function call; the reply is complete.
    FunctionCall,
}

/// The reply gathered so far: text, function name and function arguments.
pub struct ReplyAccumulator {
    pub text: String,
    pub fn_name: String,
    pub fn_args: String,
}

/// The state (text, function name, arguments) after one choice.  A function
/// name replaces the one seen before, argument pieces are appended, and
/// text is appended only from choices that carry no finish reason.
pub open spec fn step_state(acc: (Seq<char>, Seq<char>, Seq<char>), c: ChoiceView) -> (
    Seq<char>,
    Seq<char>,
    Seq<char>,
) {
    let name = match c.function_name {
        Some(n) => n,
        None => acc.1,
    };
    let args = match c.function_arguments {
        Some(a) => acc.2 + a,
        None => acc.2,
    };
    let text = match (c.finish_reason, c.content) {
        (None, Some(t)) => acc.0 + t,
        _ => acc.0,
    };
    (text, name, args)
}

/// Whether a choice ends the reply with a function call.
pub open spec fn ends_with_call(c: ChoiceView) -> bool {
    c.finish_reason == Some(FinishReason::FunctionCall)
}

/// The fragment a choice shows, if any: its text between asterisks.
pub open spec fn fragment_of(c: ChoiceView) -> Option<Seq<char>> {
    match (c.finish_reason, c.content) {
        (None, Some(t)) => Some("*"@ + t + "*"@),
        _ => None,
    }
}

/// What a whole stream of choices gives, from a starting state: the text,
/// function name and arguments at the first function-call finish, or the
/// text alone with empty name and arguments when the stream ends without one.
pub open spec fn stream_reply(s: Seq<ChoiceView>, acc: (Seq<char>, Seq<char>, Seq<char>)) -> (
    Seq<char>,
    Seq<char>,
    Seq<char>,
)
    decreases s.len(),
{
    if s.len() == 0 {
        (acc.0, Seq::empty(), Seq::empty())
    } else if ends_with_call(s[0]) {
        step_state(acc, s[0])
    } else {
        stream_reply(s.drop_first(), step_state(acc, s[0]))
    }
}

impl ReplyAccumulator {
    /// The value of the accumulator.
    pub open spec fn state(&self) -> (Seq<char>, Seq<char>, Seq<char>) {
        (self.text@, self.fn_name@, self.fn_args@)
    }

    /// An empty reply.
    pub fn new() -> (r: ReplyAccumulator)
        ensures
            r.state() == (Seq::<char>::empty(), Seq::<char>::empty(), Seq::<char>::empty()),
    {
        ReplyAccumulator { text: String::new(), fn_name: String::new(), fn_args: String::new() }
    }

    /// Takes in one choice of a streamed reply.
    pub fn step(&mut self, choice: &StreamChoice) -> (a: StreamAction)
        ensures
            final(self).state() == step_state(old(self).state(), choice@),
            ends_with_call(choice@) <==> a is FunctionCall,
            a matches StreamAction::Fragment(f) ==> fragment_of(choice@) == Some(f@),
            a is Continue ==> !ends_with_call(choice@) && fragment_of(choice@) is None,
            !ends_with_call(choice@) && fragment_of(choice@) is Some ==> a is Fragment,
    {
        match &choice.function_name {
            Some(name) => {
                self.fn_name = name.clone();
            },
            None => {},
        }
        match &choice.function_arguments {
            Some(args) => {
                push_str(&mut self.fn_args, args.as_str());
            },
            None => {},
        }
        match choice.finish_reason {
            Some(reason) => {
                if reason == FinishReason::FunctionCall {
                    StreamAction::FunctionCall
                } else {
                    StreamAction::Continue
                }
            },
            None => match &choice.content {
                Some(content) => {
                    push_str(&mut self.text, content.as_str());
                    let mut f = to_owned_string("*");
                    push_str(&mut f, content.as_str());
                    push_str(&mut f, "*");
                    StreamAction::Fragment(f)
                },
                None => StreamAction::Continue,
            },
        }
    }

    /// The reply after a function-call finish: text, name and arguments.
    pub fn into_call(self) -> (r: (String, String, String))
        ensures
            (r.0@, r.1@, r.2@) == self.state(),
    {
        (self.text, self.fn_name, self.fn_args)
    }

    /// The reply of a stream that ended (or was cancelled) without a
    /// function call: the text, with empty name and arguments.
    pub fn into_text(self) -> (r: (String, String, String))
        ensures
            (r.0@, r.1@, r.2@) == (self.text@, Seq::<char>::empty(), Seq::<char>::empty()),
    {
        (self.text, String::new(), String::new())
    }
}

/// The views of a sequence of choices.
pub open spec fn choice_views(s: Seq<StreamChoice>) -> Seq<ChoiceView> {
    s.map_values(|c: StreamChoice| c@)
}

/// Reads a whole stream of choices into a reply: text, function name and
/// arguments.
pub fn collect_reply(choices: &Vec<StreamChoice>) -> (r: (String, String, String))
    ensures
        (r.0@, r.1@, r.2@) == stream_reply(
            choice_views(choices@),
            (Seq::<char>::empty(), Seq::<char>::empty(), Seq::<char>::empty()),
        ),
{
    let mut acc = ReplyAccumulator::new();
    let mut i: usize = 0;
    assert(choice_views(choices@).subrange(0, choices@.len() as int) =~= choice_views(choices@));
    while i < choices.len()
        invariant
            i <= choices@.len(),
            stream_reply(
                choice_views(choices@),
                (Seq::<char>::empty(), Seq::<char>::empty(), Seq::<char>::empty()),
            ) == stream_reply(choice_views(choices@).subrange(i as int, choices@.len() as int), acc.state()),
        decreases choices.len() - i,
    {
        let ghost rest = choice_views(choices@).subrange(i as int, choices@.len() as int);
        let ghost before = acc.state();
        assert(rest[0] == choices@[i as int]@);
        assert(rest.drop_first() =~= choice_views(choices@).subrange(i + 1, choices@.len() as int));
        match acc.step(&choices[i]) {
            StreamAction::FunctionCall => {
                return acc.into_call();
            },
            _ => {},
        }
        i = i + 1;
    }
    assert(choice_views(choices@).subrange(i as int, choices@.len() as int).len() == 0);
    acc.into_text()
}

/// A stream that never finishes with a function call gives no function
/// call: its name and arguments come back empty, whatever was announced.
pub proof fn law_no_call_without_finish(s: Seq<ChoiceView>, acc: (Seq<char>, Seq<char>, Seq<char>))
    requires
        forall|i: int| 0 <= i < s.len() ==> !ends_with_call(#[trigger] s[i]),
    ensures
        stream_reply(s, acc).1 == Seq::<char>::empty(),
        stream_reply(s, acc).2 == Seq::<char>::empty(),
    decreases s.len(),
{
    if s.len() > 0 {
        assert(!ends_with_call(s[0]));
        assert forall|i: int| 0 <= i < s.drop_first().len() implies !ends_with_call(#[trigger] s.drop_first()[i]) by {
            assert(s.drop_first()[i] == s[i + 1]);
        }
        law_no_call_without_finish(s.drop_first(), step_state(acc, s[0]));
    }
}

/// Text pieces arrive in order: the text of a reply is the text gathered
/// before, followed by the pieces of the stream's choices that carry no
/// finish reason.
pub open spec fn stream_text(s: Seq<ChoiceView>) -> Seq<char>
    decreases s.len(),
{
    if s.len() == 0 {
        Seq::empty()
    } else {
        let piece = match (s[0].finish_reason, s[0].content) {
            (None, Some(t)) => t,
            _ => Seq::empty(),
        };
        piece + stream_text(s.drop_first())
    }
}

/// A stream without a function-call finish replies with exactly the text
/// pieces it carried, in order.
pub proof fn law_reply_text_is_pieces(s: Seq<ChoiceView>, acc: (Seq<char>, Seq<char>, Seq<char>))
    requires
        forall|i: int| 0 <= i < s.len() ==> !ends_with_call(#[trigger] s[i]),
    ensures
        stream_reply(s, acc).0 == acc.0 + stream_text(s),
    decreases s.len(),
{
    if s.len() == 0 {
        assert(acc.0 + Seq::<char>::empty() =~= acc.0);
    } else {
        assert(!ends_with_call(s[0]));
        assert forall|i: int| 0 <= i < s.drop_first().len() implies !ends_with_call(#[trigger] s.drop_first()[i]) by {
            assert(s.drop_first()[i] == s[i + 1]);
        }
        law_reply_text_is_pieces(s.drop_first(), step_state(acc, s[0]));
        let piece = match (s[0].finish_reason, s[0].content) {
            (None, Some(t)) => t,
            _ => Seq::<char>::empty(),
        };
        assert(step_state(acc, s[0]).0 =~= acc.0 + piece);
        assert(acc.0 + piece + stream_text(s.drop_first()) =~= acc.0 + (piece + stream_text(s.drop_first())));
    }
}


/// The argument pieces of a run of choices, one after the other.
pub open spec fn args_text(s: Seq<ChoiceView>) -> Seq<char>
    decreases s.len(),
{
    if s.len() == 0 {
        Seq::empty()
    } else {
        (match s[0].function_arguments {
            Some(a) => a,
            None => Seq::empty(),
        }) + args_text(s.drop_first())
    }
}

/// The last function name a run of choices announces, or `cur` when it
/// announces none.
pub open spec fn last_name(s: Seq<ChoiceView>, cur: Seq<char>) -> Seq<char>
    decreases s.len(),
{
    if s.len() == 0 {
        cur
    } else {
        last_name(
            s.drop_first(),
            match s[0].function_name {
                Some(n) => n,
                None => cur,
            },
        )
    }
}

/// A stream that finishes with a function call at choice `i`, and not
/// before, replies with the text pieces up to there, the last function name
/// announced up to there, and all argument pieces up to there, in order;
/// nothing after that choice counts.
pub proof fn law_call_reply(s: Seq<ChoiceView>, i: int, acc: (Seq<char>, Seq<char>, Seq<char>))
    requires
        0 <= i < s.len(),
        ends_with_call(s[i]),
        forall|j: int| 0 <= j < i ==> !ends_with_call(#[trigger] s[j]),
    ensures
        stream_reply(s, acc) == (
            acc.0 + stream_text(s.take(i + 1)),
            last_name(s.take(i + 1), acc.1),
            acc.2 + args_text(s.take(i + 1)),
        ),
    decreases i,
{
    let t = s.take(i + 1);
    let piece = match (s[0].finish_reason, s[0].content) {
        (None, Some(c)) => c,
        _ => Seq::<char>::empty(),
    };
    let apiece = match s[0].function_arguments {
        Some(a) => a,
        None => Seq::<char>::empty(),
    };
    assert(t[0] == s[0]);
    if i == 0 {
        assert(t.drop_first() =~= Seq::<ChoiceView>::empty());
        assert(stream_text(t) =~= piece + stream_text(t.drop_first()));
        assert(piece =~= Seq::<char>::empty());
        assert(stream_text(t) =~= Seq::<char>::empty());
        assert(args_text(t.drop_first()) == Seq::<char>::empty());
        assert(args_text(t) == apiece + args_text(t.drop_first()));
        assert(args_text(t) =~= apiece);
        assert(last_name(t, acc.1) == last_name(t.drop_first(), step_state(acc, s[0]).1));
        assert(last_name(t.drop_first(), step_state(acc, s[0]).1) == step_state(acc, s[0]).1);
        assert(acc.0 + stream_text(t) =~= acc.0);
        assert(acc.2 + args_text(t) =~= acc.2 + apiece);
    } else {
        assert(!ends_with_call(s[0]));
        let rest = s.drop_first();
        assert forall|j: int| 0 <= j < i - 1 implies !ends_with_call(#[trigger] rest[j]) by {
            assert(rest[j] == s[j + 1]);
        }
        assert(rest[i - 1] == s[i]);
        law_call_reply(rest, i - 1, step_state(acc, s[0]));
        assert(t.drop_first() =~= rest.take(i));
        assert(stream_text(t) == piece + stream_text(t.drop_first()));
        assert(args_text(t) == apiece + args_text(t.drop_first()));
        assert(last_name(t, acc.1) == last_name(t.drop_first(), step_state(acc, s[0]).1));
        assert(stream_reply(s, acc) == stream_reply(rest, step_state(acc, s[0])));
        assert(step_state(acc, s[0]).0 =~= acc.0 + piece);
        assert(step_state(acc, s[0]).2 =~= acc.2 + apiece);
        assert(acc.0 + piece + stream_text(rest.take(i)) =~= acc.0 + (piece + stream_text(rest.take(i))));
        assert(acc.2 + apiece + args_text(rest.take(i)) =~= acc.2 + (apiece + args_text(rest.take(i))));
    }
}

} // verus!
