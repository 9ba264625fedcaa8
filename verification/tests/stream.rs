use agenthost::openai_chat::{chat_fn, collect_reply, FinishReason, ReplyAccumulator, StreamAction, StreamChoice};

fn text(t: &str) -> StreamChoice {
    StreamChoice { function_name: None, function_arguments: None, content: Some(t.to_string()), finish_reason: None }
}

fn call(name: Option<&str>, args: Option<&str>) -> StreamChoice {
    StreamChoice {
        function_name: name.map(|s| s.to_string()),
        function_arguments: args.map(|s| s.to_string()),
        content: None,
        finish_reason: None,
    }
}

fn finish(r: FinishReason) -> StreamChoice {
    StreamChoice { function_name: None, function_arguments: None, content: None, finish_reason: Some(r) }
}

#[test]
fn text_reply() {
    let r = collect_reply(&vec![text("Hel"), text("lo"), finish(FinishReason::Stop)]);
    assert_eq!(r, ("Hello".to_string(), "".to_string(), "".to_string()));
}

#[test]
fn function_call_reply() {
    let r = collect_reply(&vec![
        call(Some("roll"), Some("{\"n\"")),
        call(None, Some(":2}")),
        finish(FinishReason::FunctionCall),
        text("ignored"),
    ]);
    assert_eq!(r, ("".to_string(), "roll".to_string(), "{\"n\":2}".to_string()));
}

#[test]
fn call_without_finish_is_dropped() {
    let r = collect_reply(&vec![text("a"), call(Some("roll"), Some("{}"))]);
    assert_eq!(r, ("a".to_string(), "".to_string(), "".to_string()));
}

#[test]
fn step_actions() {
    let mut acc = ReplyAccumulator::new();
    match acc.step(&text("x")) {
        StreamAction::Fragment(f) => assert_eq!(f, "*x*"),
        other => panic!("unexpected {:?}", other),
    }
    assert!(matches!(acc.step(&finish(FinishReason::Length)), StreamAction::Continue));
    let with_finish = StreamChoice {
        function_name: None,
        function_arguments: None,
        content: Some("late".to_string()),
        finish_reason: Some(FinishReason::Stop),
    };
    assert!(matches!(acc.step(&with_finish), StreamAction::Continue));
    assert_eq!(acc.text, "x");
    assert_eq!(acc.into_text(), ("x".to_string(), "".to_string(), "".to_string()));
}

#[test]
fn chat_fn_fields() {
    let f = chat_fn("roll".to_string(), "Roll dice".to_string(), "{}".to_string()).unwrap();
    assert_eq!(f.name, "roll");
    assert_eq!(f.description, "Roll dice");
    assert_eq!(f.parameters, "{}");
}
