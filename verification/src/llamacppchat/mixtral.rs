//! Mixtral instruct: `[INST]` prompts that also feed script output back.

use vstd::prelude::*;
use super::model::{Model, ModelInfo, info_fields};
use crate::chatlog::views;
use crate::chatlog::serialize::{any_message, or_empty, to_anychatmessage};
use crate::messages::{ChatRequestMessage, MsgView};
use crate::text::{push_str, str_eq, to_owned_string};

verus! {

/// The Mixtral 8x7B instruct model.
#[derive(Debug)]
pub struct MixtralModel {
    info: ModelInfo,
}

/// The prompt piece of one message: output of the script host (named
/// `SYSTEM OUTPUT` or `eval`) is handed back as an instruction to use it;
/// otherwise system text is acknowledged, user text is an instruction,
/// assistant text closes a turn, and other roles add nothing.
pub open spec fn mixtral_piece(m: MsgView) -> Seq<char> {
    let name = any_message(m).0;
    let role = any_message(m).1;
    let content = any_message(m).2;
    if name == "SYSTEM OUTPUT"@ || name == "eval"@ {
        "[INST] "@ + content + " [/INST]\n Using this system output, "@
    } else if role == "system"@ {
        "[INST] "@ + content + " [/INST] System instructions understood.</s>"@
    } else if role == "user"@ {
        "[INST] "@ + content + " [/INST]"@
    } else if role == "assistant"@ {
        content + "</s>"@
    } else {
        Seq::empty()
    }
}

/// The pieces of a conversation.
pub open spec fn mixtral_pieces(s: Seq<MsgView>) -> Seq<char>
    decreases s.len(),
{
    if s.len() == 0 {
        Seq::empty()
    } else {
        mixtral_pieces(s.drop_last()) + mixtral_piece(s.last())
    }
}

/// The Mixtral prompt: `<s>` then every piece.
pub open spec fn mixtral_prompt(s: Seq<MsgView>) -> Seq<char> {
    "<s>"@ + mixtral_pieces(s)
}

impl MixtralModel {
    /// The description of Mixtral 8x7B instruct v0.1 (6-bit) with its 16000-token context.
    pub open spec fn spec_info() -> (Seq<char>, Seq<char>, Seq<char>, nat) {
        (
            "Mixtral"@,
            "mixtral-8x7b-instruct-v0.1.Q6_K.gguf"@,
            "https://huggingface.co/TheBloke/Mixtral-8x7B-Instruct-v0.1-GGUF/resolve/main/mixtral-8x7b-instruct-v0.1.Q6_K.gguf?download=true"@,
            16000,
        )
    }

    /// The description this model carries.
    pub closed spec fn info_view(&self) -> (Seq<char>, Seq<char>, Seq<char>, nat) {
        info_fields(&self.info)
    }

    /// The Mixtral 8x7B instruct model.
    pub fn new() -> (m: MixtralModel)
        ensures
            m.info_view() == Self::spec_info(),
    {
        let info = ModelInfo {
            model_type: to_owned_string("Mixtral"),
            model_file: to_owned_string("mixtral-8x7b-instruct-v0.1.Q6_K.gguf"),
            url: to_owned_string(
                "https://huggingface.co/TheBloke/Mixtral-8x7B-Instruct-v0.1-GGUF/resolve/main/mixtral-8x7b-instruct-v0.1.Q6_K.gguf?download=true",
            ),
            max_context: 16000,
        };
        MixtralModel { info }
    }
}

impl Model for MixtralModel {
    fn to_instruct_string(&self, msgs: &Vec<ChatRequestMessage>) -> (outs: String)
        ensures
            outs@ == mixtral_prompt(views(msgs@)),
    {
        let mut outs = to_owned_string("<s>");
        let mut i: usize = 0;
        while i < msgs.len()
            invariant
                i <= msgs@.len(),
                outs@ == "<s>"@ + mixtral_pieces(views(msgs@.subrange(0, i as int))),
            decreases msgs.len() - i,
        {
            let msg_ = to_anychatmessage(&msgs[i]);
            let role = msg_.role.as_str();
            let name = msg_.name.as_str();
            let content = msg_.content.as_str();
            if str_eq(name, "SYSTEM OUTPUT") || str_eq(name, "eval") {
                push_str(&mut outs, "[INST] ");
                push_str(&mut outs, content);
                push_str(&mut outs, " [/INST]\n Using this system output, ");
            } else if str_eq(role, "system") {
                push_str(&mut outs, "[INST] ");
                push_str(&mut outs, content);
                push_str(&mut outs, " [/INST] System instructions understood.</s>");
            } else if str_eq(role, "user") {
                push_str(&mut outs, "[INST] ");
                push_str(&mut outs, content);
                push_str(&mut outs, " [/INST]");
            } else if str_eq(role, "assistant") {
                push_str(&mut outs, content);
                push_str(&mut outs, "</s>");
            }
            proof {
                let next = views(msgs@.subrange(0, i + 1));
                assert(next.drop_last() =~= views(msgs@.subrange(0, i as int)));
                assert(next.last() == msgs@[i as int]@);
                assert(mixtral_pieces(next) == mixtral_pieces(next.drop_last()) + mixtral_piece(msgs@[i as int]@));
                if !(name@ == "SYSTEM OUTPUT"@ || name@ == "eval"@ || role@ == "system"@ || role@ == "user"@
                    || role@ == "assistant"@) {
                    assert(mixtral_pieces(next) =~= mixtral_pieces(next.drop_last()));
                }
            }
            i = i + 1;
        }
        assert(msgs@.subrange(0, msgs@.len() as int) =~= msgs@);
        outs
    }

    fn model_info(&self) -> (i: ModelInfo)
        ensures
            info_fields(&i) == self.info_view(),
    {
        self.info.duplicate()
    }
}


/// The pieces of two conversations one after the other are the pieces of
/// the first followed by those of the second, so the prompt of the joined
/// conversation is the first's prompt followed by the second's pieces.
pub proof fn law_mixtral_prompt_concat(a: Seq<MsgView>, b: Seq<MsgView>)
    ensures
        mixtral_pieces(a + b) == mixtral_pieces(a) + mixtral_pieces(b),
        mixtral_prompt(a + b) == mixtral_prompt(a) + mixtral_pieces(b),
    decreases b.len(),
{
    if b.len() == 0 {
        assert(a + b =~= a);
        assert(mixtral_pieces(a) + mixtral_pieces(b) =~= mixtral_pieces(a));
    } else {
        law_mixtral_prompt_concat(a, b.drop_last());
        assert((a + b).drop_last() =~= a + b.drop_last());
        assert((a + b).last() == b.last());
        assert(mixtral_pieces(a) + mixtral_pieces(b.drop_last()) + mixtral_piece(b.last()) =~= mixtral_pieces(a) + (
        mixtral_pieces(b.drop_last()) + mixtral_piece(b.last())));
    }
    assert(mixtral_prompt(a + b) =~= mixtral_prompt(a) + mixtral_pieces(b));
}


/// The prompt of a single message: a system message is an acknowledged
/// instruction, a user message an instruction, an assistant message closes
/// a turn, a function result is handed back as an instruction to use it,
/// and a tool message adds nothing; each holds the message's whole text.
pub proof fn law_mixtral_single(m: MsgView)
    ensures
        m matches MsgView::System { content, .. } ==> mixtral_prompt(seq![m]) == "<s>"@ + "[INST] "@ + or_empty(
            content,
        ) + " [/INST] System instructions understood.</s>"@,
        m matches MsgView::User { content, .. } ==> mixtral_prompt(seq![m]) == "<s>"@ + "[INST] "@ + or_empty(content)
            + " [/INST]"@,
        m matches MsgView::Assistant { content, .. } ==> mixtral_prompt(seq![m]) == "<s>"@ + or_empty(content)
            + "</s>"@,
        m matches MsgView::Function { content, .. } ==> mixtral_prompt(seq![m]) == "<s>"@ + "[INST] "@ + "`RESULT: "@
            + or_empty(content) + "`"@ + " [/INST]\n Using this system output, "@,
        m is Tool ==> mixtral_prompt(seq![m]) == "<s>"@,
{
    reveal_strlit("user");
    reveal_strlit("system");
    reveal_strlit("assistant");
    reveal_strlit("test");
    reveal_strlit("eval");
    reveal_strlit("SYSTEM OUTPUT");
    assert("user"@ != "system"@) by {
        assert("user"@[0] != "system"@[0]);
    }
    assert("assistant"@ != "system"@) by {
        assert("assistant"@[0] != "system"@[0]);
    }
    assert("assistant"@ != "user"@) by {
        assert("assistant"@[0] != "user"@[0]);
    }
    assert("test"@ != "SYSTEM OUTPUT"@) by {
        assert("test"@[0] != "SYSTEM OUTPUT"@[0]);
    }
    assert("test"@ != "eval"@) by {
        assert("test"@[0] != "eval"@[0]);
    }
    assert(Seq::<char>::empty().len() != "SYSTEM OUTPUT"@.len());
    assert(Seq::<char>::empty().len() != "eval"@.len());
    assert(Seq::<char>::empty().len() != "system"@.len());
    assert(Seq::<char>::empty().len() != "user"@.len());
    assert(Seq::<char>::empty().len() != "assistant"@.len());
    let s = seq![m];
    assert(s.drop_last() =~= Seq::<MsgView>::empty());
    assert(s.last() == m);
    assert(mixtral_pieces(s.drop_last()) == Seq::<char>::empty());
    assert(mixtral_pieces(s) =~= mixtral_piece(m));
    if m is Function {
        let c = any_message(m).2;
        assert(c =~= "`RESULT: "@ + or_empty(m->Function_content) + "`"@);
        assert("[INST] "@ + c + " [/INST]\n Using this system output, "@ =~= "[INST] "@ + "`RESULT: "@ + or_empty(
            m->Function_content,
        ) + "`"@ + " [/INST]\n Using this system output, "@);
    }
    if m is Tool {
        assert("<s>"@ + Seq::<char>::empty() =~= "<s>"@);
    }
}

} // verus!
