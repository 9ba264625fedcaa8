use agenthost::llamacppchat::mistral::MistralModel;
use agenthost::llamacppchat::mixtral::MixtralModel;
use agenthost::llamacppchat::model::{model_file_path, model_for_name, LocalModel, Model};
use agenthost::llamacppchat::orca::OrcaModel;
use agenthost::messages::ChatRequestMessage;

fn convo() -> Vec<ChatRequestMessage> {
    vec![
        ChatRequestMessage::System { content: Some("Be a DM.".to_string()), name: None },
        ChatRequestMessage::User { content: Some("Roll.".to_string()), name: None },
        ChatRequestMessage::Function { content: Some("7".to_string()), name: "eval".to_string() },
        ChatRequestMessage::Assistant { content: Some("You rolled 7.".to_string()), name: None, function_call: None },
        ChatRequestMessage::Tool { content: Some("x".to_string()), tool_call_id: "t".to_string() },
    ]
}

#[test]
fn orca_prompt() {
    let p = OrcaModel::new().to_instruct_string(&convo());
    assert_eq!(
        p,
        "<|im_start|>system\nBe a DM.<|im_end|>\n<|im_start|>user\nRoll.<|im_end|>\n<|im_start|>assistant\n`RESULT: 7`<|im_end|>\n<|im_start|>assistant\nYou rolled 7.<|im_end|>\n<|im_start|>\n<|im_end|>\n<|im_start|>assistant\n"
    );
}

#[test]
fn mistral_prompt() {
    let p = MistralModel::new().to_instruct_string(&convo());
    assert_eq!(
        p,
        "<s> [INST] Be a DM. [/INST] Understood.</s> [INST] Roll. [/INST] `RESULT: 7`</s> You rolled 7.</s>"
    );
}

#[test]
fn mixtral_prompt() {
    let p = MixtralModel::new().to_instruct_string(&convo());
    assert_eq!(
        p,
        "<s>[INST] Be a DM. [/INST] System instructions understood.</s>[INST] Roll. [/INST][INST] `RESULT: 7` [/INST]\n Using this system output, You rolled 7.</s>"
    );
}

#[test]
fn empty_prompts() {
    assert_eq!(OrcaModel::new().to_instruct_string(&vec![]), "<|im_start|>assistant\n");
    assert_eq!(MistralModel::new().to_instruct_string(&vec![]), "<s>");
    assert_eq!(MixtralModel::new().to_instruct_string(&vec![]), "<s>");
}

#[test]
fn model_infos() {
    let o = OrcaModel::new().model_info();
    assert_eq!(o.model_type, "Orca");
    assert_eq!(o.max_context, 2048);
    assert_eq!(model_file_path(&o), "models/orca-2-7b.Q4_0.gguf");
    let m = MistralModel::new().model_info();
    assert_eq!(m.model_file, "mistral-7b-instruct-v0.2.Q4_0.gguf");
    assert_eq!(m.max_context, 4096);
    let x = MixtralModel::new().model_info();
    assert_eq!(x.model_type, "Mixtral");
    assert_eq!(x.max_context, 16000);
    assert!(x.url.ends_with("mixtral-8x7b-instruct-v0.1.Q6_K.gguf?download=true"));
}

#[test]
fn model_selection() {
    assert!(matches!(model_for_name("mixtral"), LocalModel::Mixtral(_)));
    assert!(matches!(model_for_name("orca"), LocalModel::Orca(_)));
    assert!(matches!(model_for_name("anything"), LocalModel::Orca(_)));
}

#[test]
fn prompts_of_joined_conversations() {
    let all = convo();
    let mut a = convo();
    let b = a.split_off(2);
    let m = MistralModel::new();
    assert_eq!(m.to_instruct_string(&vec![]), "<s>");
    assert_eq!(m.to_instruct_string(&all), m.to_instruct_string(&a) + &m.to_instruct_string(&b)[3..]);
    let x = MixtralModel::new();
    assert_eq!(x.to_instruct_string(&all), x.to_instruct_string(&a) + &x.to_instruct_string(&b)[3..]);
    let o = OrcaModel::new();
    let tail = "<|im_start|>assistant\n";
    let oa = o.to_instruct_string(&a);
    assert_eq!(o.to_instruct_string(&all), oa[..oa.len() - tail.len()].to_string() + &o.to_instruct_string(&b));
    let one = |msg: ChatRequestMessage| m.to_instruct_string(&vec![msg]);
    assert_eq!(one(ChatRequestMessage::User { content: Some("c".to_string()), name: None }), "<s> [INST] c [/INST]");
    assert_eq!(
        one(ChatRequestMessage::Function { content: Some("c".to_string()), name: "f".to_string() }),
        "<s> `RESULT: c`</s>"
    );
    assert_eq!(one(ChatRequestMessage::Tool { content: Some("c".to_string()), tool_call_id: "t".to_string() }), "<s>");
}
