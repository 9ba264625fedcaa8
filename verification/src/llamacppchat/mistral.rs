//! Mistral instruct: `[INST]` prompts.

use vstd::prelude::*;
use super::model::{Model, ModelInfo, info_fields};
use crate::chatlog::views;
use crate::chatlog::serialize::{any_message, or_empty, to_anychatmessage};
use crate::messages::{ChatRequestMessage, MsgView};
use crate::text::{push_str, str_eq, to_owned_string};

verus! {

/// The Mistral 7B instruct model.
#[derive(Debug)]
pub struct MistralModel {
    info: ModelInfo,
}

/// The prompt piece of one message: system text is acknowledged, user text
/// is an instruction, assistant text closes a turn; other roles add nothing.
pub open spec fn mistral_piece(m: MsgView) -> Seq<char> {
    let role = any_message(m).1;
    let content = any_message(m).2;
    if role == "system"@ {
        " [INST] "@ + content + " [/INST] Understood.</s>"@
    } else if role == "user"@ {
        " [INST] "@ + content + " [/INST]"@
    } else if role == "assistant"@ {
        " "@ + content + "</s>"@
    } else {
        Seq::empty()
    }
}

/// The pieces of a conversation.
pub open spec fn mistral_pieces(s: Seq<MsgView>) -> Seq<char>
    decreases s.len(),
{
    if s.len() == 0 {
        Seq::empty()
    } else {
        mistral_pieces(s.drop_last()) + mistral_piece(s.last())
    }
}

/// The Mistral prompt: `<s>` then every piece.
pub open spec fn mistral_prompt(s: Seq<MsgView>) -> Seq<char> {
    "<s>"@ + mistral_pieces(s)
}

impl MistralModel {
    /// The description of Mistral 7B instruct v0.2 with its 4096-token context.
    pub open spec fn spec_info() -> (Seq<char>, Seq<char>, Seq<char>, nat) {
        (
            "Mistral"@,
            "mistral-7b-instruct-v0.2.Q4_0.gguf"@,
            "https://huggingface.co/TheBloke/Mistral-7B-Instruct-v0.2-GGUF/resolve/main/mistral-7b-instruct-v0.2.Q4_0.gguf?download=true"@,
            4096,
        )
    }

    /// The description this model carries.
    pub closed spec fn info_view(&self) -> (Seq<char>, Seq<char>, Seq<char>, nat) {
        info_fields(&self.info)
    }

    /// The Mistral 7B instruct model.
    pub fn new() -> (m: MistralModel)
        ensures
            m.info_view() == Self::spec_info(),
    {
        let info = ModelInfo {
            model_type: to_owned_string("Mistral"),
            model_file: to_owned_string("mistral-7b-instruct-v0.2.Q4_0.gguf"),
            url: to_owned_string(
                "https://huggingface.co/TheBloke/Mistral-7B-Instruct-v0.2-GGUF/resolve/main/mistral-7b-instruct-v0.2.Q4_0.gguf?download=true",
            ),
            max_context: 4096,
        };
        MistralModel { info }
    }
}

impl Model for MistralModel {
    fn to_instruct_string(&self, msgs: &Vec<ChatRequestMessage>) -> (outs: String)
        ensures
            outs@ == mistral_prompt(views(msgs@)),
    {
        let mut outs = to_owned_string("<s>");
        let mut i: usize = 0;
        while i < msgs.len()
            invariant
                i <= msgs@.len(),
                outs@ == "<s>"@ + mistral_pieces(views(msgs@.subrange(0, i as int))),
            decreases msgs.len() - i,
        {
            let msg_ = to_anychatmessage(&msgs[i]);
            let role = msg_.role.as_str();
            let content = msg_.content.as_str();
            if str_eq(role, "system") {
                push_str(&mut outs, " [INST] ");
                push_str(&mut outs, content);
                push_str(&mut outs, " [/INST] Understood.</s>");
            } else if str_eq(role, "user") {
                push_str(&mut outs, " [INST] ");
                push_str(&mut outs, content);
                push_str(&mut outs, " [/INST]");
            } else if str_eq(role, "assistant") {
                push_str(&mut outs, " ");
                push_str(&mut outs, content);
                push_str(&mut outs, "</s>");
            }
            proof {
                let next = views(msgs@.subrange(0, i + 1));
                assert(next.drop_last() =~= views(msgs@.subrange(0, i as int)));
                assert(next.last() == msgs@[i as int]@);
                assert(mistral_pieces(next) == mistral_pieces(next.drop_last()) + mistral_piece(msgs@[i as int]@));
                if !(role@ == "system"@ || role@ == "user"@ || role@ == "assistant"@) {
                    assert(mistral_pieces(next) =~= mistral_pieces(next.drop_last()));
                }
            }
            i = i + 1;
        }
        assert(msgs@.subrange(0, msgs@.len() as int) =~= msgs@);
        outs
    }

    fn model_info(&self) -> (i: ModelInfo)
        ensures
            info_fields(&i) == self.info_view(),
    {
        self.info.duplicate()
    }
}


/// The pieces of two conversations one after the other are the pieces of
/// the first followed by those of the second.
pub proof fn lemma_mistral_pieces_concat(a: Seq<MsgView>, b: Seq<MsgView>)
    ensures
        mistral_pieces(a + b) == mistral_pieces(a) + mistral_pieces(b),
    decreases b.len(),
{
    if b.len() == 0 {
        assert(a + b =~= a);
        assert(mistral_pieces(a) + mistral_pieces(b) =~= mistral_pieces(a));
    } else {
        lemma_mistral_pieces_concat(a, b.drop_last());
        assert((a + b).drop_last() =~= a + b.drop_last());
        assert((a + b).last() == b.last());
        assert(mistral_pieces(a) + mistral_pieces(b.drop_last()) + mistral_piece(b.last()) =~= mistral_pieces(a) + (
        mistral_pieces(b.drop_last()) + mistral_piece(b.last())));
    }
}

/// The prompt of an empty conversation is `<s>`, and the prompt of two
/// conversations one after the other is the prompt of the first followed by
/// the prompt of the second without its leading `<s>`.
pub proof fn law_mistral_prompt_concat(a: Seq<MsgView>, b: Seq<MsgView>)
    ensures
        mistral_prompt(Seq::empty()) == "<s>"@,
        mistral_prompt(a + b) == mistral_prompt(a) + mistral_prompt(b).subrange(3, mistral_prompt(b).len() as int),
{
    reveal_strlit("<s>");
    assert(mistral_prompt(Seq::empty()) =~= "<s>"@);
    lemma_mistral_pieces_concat(a, b);
    assert(mistral_prompt(b).subrange(3, mistral_prompt(b).len() as int) =~= mistral_pieces(b));
    assert(mistral_prompt(a + b) =~= mistral_prompt(a) + mistral_pieces(b));
}

/// The prompt of a single message: a system message is acknowledged, a user
/// message is an instruction, an assistant message closes a turn, a
/// function result is shown as assistant output, and a tool message adds
/// nothing.
pub proof fn law_mistral_single(m: MsgView)
    ensures
        m matches MsgView::System { content, .. } ==> mistral_prompt(seq![m]) == "<s>"@ + " [INST] "@ + or_empty(
            content,
        ) + " [/INST] Understood.</s>"@,
        m matches MsgView::User { content, .. } ==> mistral_prompt(seq![m]) == "<s>"@ + " [INST] "@ + or_empty(content)
            + " [/INST]"@,
        m matches MsgView::Assistant { content, .. } ==> mistral_prompt(seq![m]) == "<s>"@ + " "@ + or_empty(content)
            + "</s>"@,
        m matches MsgView::Function { content, .. } ==> mistral_prompt(seq![m]) == "<s>"@ + " "@ + "`RESULT: "@
            + or_empty(content) + "`"@ + "</s>"@,
        m is Tool ==> mistral_prompt(seq![m]) == "<s>"@,
{
    reveal_strlit("user");
    reveal_strlit("system");
    reveal_strlit("assistant");
    assert("user"@ != "system"@) by {
        assert("user"@[0] != "system"@[0]);
    }
    assert("assistant"@ != "system"@) by {
        assert("assistant"@[0] != "system"@[0]);
    }
    assert("assistant"@ != "user"@) by {
        assert("assistant"@[0] != "user"@[0]);
    }
    assert(Seq::<char>::empty().len() != "system"@.len());
    assert(Seq::<char>::empty().len() != "user"@.len());
    assert(Seq::<char>::empty().len() != "assistant"@.len());
    let s = seq![m];
    assert(s.drop_last() =~= Seq::<MsgView>::empty());
    assert(s.last() == m);
    assert(mistral_pieces(s.drop_last()) == Seq::<char>::empty());
    assert(mistral_pieces(s) =~= Seq::<char>::empty() + mistral_piece(m));
    assert(mistral_pieces(s) =~= mistral_piece(m));
    if m is Function {
        let c = any_message(m).2;
        assert(" "@ + c + "</s>"@ =~= " "@ + "`RESULT: "@ + or_empty(m->Function_content) + "`"@ + "</s>"@);
    }
    if m is Tool {
        assert("<s>"@ + Seq::<char>::empty() =~= "<s>"@);
    }
}

} // verus!
