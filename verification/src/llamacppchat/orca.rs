//! Orca 2: ChatML prompts.

use vstd::prelude::*;
use super::model::{Model, ModelInfo, info_fields};
use crate::chatlog::views;
use crate::chatlog::serialize::{any_message, or_empty, to_anychatmessage};
use crate::messages::{ChatRequestMessage, MsgView};
use crate::text::{push_str, to_owned_string};

verus! {

/// The Orca 2 model.
#[derive(Debug)]
pub struct OrcaModel {
    info: ModelInfo,
}

/// One ChatML turn: `<|im_start|>role\ncontent<|im_end|>\n`.
pub open spec fn orca_turn(m: MsgView) -> Seq<char> {
    "<|im_start|>"@ + any_message(m).1 + "\n"@ + any_message(m).2 + "<|im_end|>\n"@
}

/// The ChatML turns of a conversation.
pub open spec fn orca_turns(s: Seq<MsgView>) -> Seq<char>
    decreases s.len(),
{
    if s.len() == 0 {
        Seq::empty()
    } else {
        orca_turns(s.drop_last()) + orca_turn(s.last())
    }
}

/// The Orca prompt: every turn, then an open assistant turn.
pub open spec fn orca_prompt(s: Seq<MsgView>) -> Seq<char> {
    orca_turns(s) + "<|im_start|>assistant\n"@
}

impl OrcaModel {
    /// The description of Orca 2 (7B, 4-bit) with its 2048-token context.
    pub open spec fn spec_info() -> (Seq<char>, Seq<char>, Seq<char>, nat) {
        (
            "Orca"@,
            "orca-2-7b.Q4_0.gguf"@,
            "https://huggingface.co/TheBloke/Orca-2-7B-GGUF/resolve/main/orca-2-7b.Q4_0.gguf?download=true"@,
            2048,
        )
    }

    /// The description this model carries.
    pub closed spec fn info_view(&self) -> (Seq<char>, Seq<char>, Seq<char>, nat) {
        info_fields(&self.info)
    }

    /// The Orca 2 model.
    pub fn new() -> (m: OrcaModel)
        ensures
            m.info_view() == Self::spec_info(),
    {
        let info = ModelInfo {
            model_type: to_owned_string("Orca"),
            model_file: to_owned_string("orca-2-7b.Q4_0.gguf"),
            url: to_owned_string(
                "https://huggingface.co/TheBloke/Orca-2-7B-GGUF/resolve/main/orca-2-7b.Q4_0.gguf?download=true",
            ),
            max_context: 2048,
        };
        OrcaModel { info }
    }
}

impl Model for OrcaModel {
    fn to_instruct_string(&self, msgs: &Vec<ChatRequestMessage>) -> (outs: String)
        ensures
            outs@ == orca_prompt(views(msgs@)),
    {
        let mut outs = String::new();
        let mut i: usize = 0;
        while i < msgs.len()
            invariant
                i <= msgs@.len(),
                outs@ == orca_turns(views(msgs@.subrange(0, i as int))),
            decreases msgs.len() - i,
        {
            let msg_ = to_anychatmessage(&msgs[i]);
            push_str(&mut outs, "<|im_start|>");
            push_str(&mut outs, msg_.role.as_str());
            push_str(&mut outs, "\n");
            push_str(&mut outs, msg_.content.as_str());
            push_str(&mut outs, "<|im_end|>\n");
            proof {
                let next = views(msgs@.subrange(0, i + 1));
                assert(next.drop_last() =~= views(msgs@.subrange(0, i as int)));
                assert(next.last() == msgs@[i as int]@);
            }
            i = i + 1;
        }
        assert(msgs@.subrange(0, msgs@.len() as int) =~= msgs@);
        push_str(&mut outs, "<|im_start|>assistant\n");
        outs
    }

    fn model_info(&self) -> (i: ModelInfo)
        ensures
            info_fields(&i) == self.info_view(),
    {
        self.info.duplicate()
    }
}


/// The turns of two conversations one after the other are the turns of the
/// first followed by those of the second, so the prompt of the joined
/// conversation is the first's turns followed by the second's prompt.
pub proof fn law_orca_prompt_concat(a: Seq<MsgView>, b: Seq<MsgView>)
    ensures
        orca_turns(a + b) == orca_turns(a) + orca_turns(b),
        orca_prompt(a + b) == orca_turns(a) + orca_prompt(b),
    decreases b.len(),
{
    if b.len() == 0 {
        assert(a + b =~= a);
        assert(orca_turns(a) + orca_turns(b) =~= orca_turns(a));
    } else {
        law_orca_prompt_concat(a, b.drop_last());
        assert((a + b).drop_last() =~= a + b.drop_last());
        assert((a + b).last() == b.last());
        assert(orca_turns(a) + orca_turns(b.drop_last()) + orca_turn(b.last()) =~= orca_turns(a) + (orca_turns(
            b.drop_last(),
        ) + orca_turn(b.last())));
    }
    assert(orca_turns(a) + orca_turns(b) + "<|im_start|>assistant\n"@ =~= orca_turns(a) + (orca_turns(b)
        + "<|im_start|>assistant\n"@));
}


/// The prompt of a single message is one ChatML turn holding the message's
/// whole text under its role, then the open assistant turn: system, user
/// and assistant text under their own roles, a function result as assistant
/// output, and a tool message as an empty turn.
pub proof fn law_orca_single(m: MsgView)
    ensures
        m matches MsgView::System { content, .. } ==> orca_prompt(seq![m]) == "<|im_start|>"@ + "system"@ + "\n"@
            + or_empty(content) + "<|im_end|>\n"@ + "<|im_start|>assistant\n"@,
        m matches MsgView::User { content, .. } ==> orca_prompt(seq![m]) == "<|im_start|>"@ + "user"@ + "\n"@
            + or_empty(content) + "<|im_end|>\n"@ + "<|im_start|>assistant\n"@,
        m matches MsgView::Assistant { content, .. } ==> orca_prompt(seq![m]) == "<|im_start|>"@ + "assistant"@
            + "\n"@ + or_empty(content) + "<|im_end|>\n"@ + "<|im_start|>assistant\n"@,
        m matches MsgView::Function { content, .. } ==> orca_prompt(seq![m]) == "<|im_start|>"@ + "assistant"@
            + "\n"@ + "`RESULT: "@ + or_empty(content) + "`"@ + "<|im_end|>\n"@ + "<|im_start|>assistant\n"@,
        m is Tool ==> orca_prompt(seq![m]) == "<|im_start|>"@ + "\n"@ + "<|im_end|>\n"@ + "<|im_start|>assistant\n"@,
{
    let s = seq![m];
    assert(s.drop_last() =~= Seq::<MsgView>::empty());
    assert(s.last() == m);
    assert(orca_turns(s.drop_last()) == Seq::<char>::empty());
    assert(orca_turns(s) =~= orca_turn(m));
    if m is Function {
        let c = any_message(m).2;
        assert(c =~= "`RESULT: "@ + or_empty(m->Function_content) + "`"@);
    }
    if m is Tool {
        assert(orca_turn(m) =~= "<|im_start|>"@ + "\n"@ + "<|im_end|>\n"@);
    }
}

} // verus!
