use async_openai::types as oa;
use agenthost::chatlog::serialize::{deserialize_message, serialize_message, to_anychatmessage, unread_role, DeserializeError};
use agenthost::chatlog::{agent_msg, fn_call_msg, fn_result_msg, sys_msg, user_msg, ChatLog, ChatMessage, LoadError};
use agenthost::messages::{debug_text, message_token_length, ChatRequestMessage, FunctionCall, Role};

fn user(text: &str) -> ChatRequestMessage {
    ChatRequestMessage::User { content: Some(text.to_string()), name: None }
}

fn logged(text: &str, length: usize) -> ChatMessage {
    ChatMessage::new_with_len(user(text), length)
}

fn content_of(m: &ChatRequestMessage) -> String {
    to_anychatmessage(m).content
}

#[test]
fn debug_text_matches_request_types() {
    let sys = oa::ChatCompletionRequestMessage::System(
        oa::ChatCompletionRequestSystemMessageArgs::default().content("be \"brief\"\n").build().unwrap(),
    );
    let ours = ChatRequestMessage::System { content: Some("be \"brief\"\n".to_string()), name: None };
    assert_eq!(debug_text(&ours), format!("{:?}", sys));

    let usr = oa::ChatCompletionRequestMessage::User(
        oa::ChatCompletionRequestUserMessageArgs::default().content("hi").build().unwrap(),
    );
    assert_eq!(debug_text(&user("hi")), format!("{:?}", usr));

    let call = oa::ChatCompletionRequestMessage::Assistant(
        oa::ChatCompletionRequestAssistantMessageArgs::default()
            .function_call(oa::FunctionCall { name: "roll".to_string(), arguments: "{}".to_string() })
            .build()
            .unwrap(),
    );
    let ours_call = ChatRequestMessage::Assistant {
        content: None,
        name: None,
        function_call: Some(FunctionCall { name: "roll".to_string(), arguments: "{}".to_string() }),
    };
    assert_eq!(debug_text(&ours_call), format!("{:?}", call));

    let func = oa::ChatCompletionRequestMessage::Function(
        oa::ChatCompletionRequestFunctionMessageArgs::default().name("roll").content("4").build().unwrap(),
    );
    let ours_func = ChatRequestMessage::Function { content: Some("4".to_string()), name: "roll".to_string() };
    assert_eq!(debug_text(&ours_func), format!("{:?}", func));

    let tool = oa::ChatCompletionRequestMessage::Tool(
        oa::ChatCompletionRequestToolMessageArgs::default().content("x").tool_call_id("t1").build().unwrap(),
    );
    let ours_tool = ChatRequestMessage::Tool { content: Some("x".to_string()), tool_call_id: "t1".to_string() };
    assert_eq!(debug_text(&ours_tool), format!("{:?}", tool));
}

#[test]
fn token_length_counts_debug_text() {
    let m = user("hello world");
    let bpe = tiktoken_rs::cl100k_base().unwrap();
    let expected = bpe.encode_with_special_tokens(&debug_text(&m)).len();
    assert_eq!(message_token_length(&m), expected);
    assert!(expected > 2);
    let cm = ChatMessage::new(user("hello world"));
    assert_eq!(cm.length, expected);
}

#[test]
fn message_builders() {
    let s = sys_msg(&"rules".to_string()).unwrap();
    assert!(matches!(&s.message, ChatRequestMessage::System { content: Some(c), name: None } if c == "rules"));
    let u = user_msg(&"hi".to_string()).unwrap();
    assert_eq!(u.message.role(), Role::User);
    let a = agent_msg(&"yo".to_string()).unwrap();
    assert_eq!(a.message.role(), Role::Assistant);
    let c = fn_call_msg(&"roll".to_string(), &"{\"n\":2}".to_string()).unwrap();
    match &c.message {
        ChatRequestMessage::Assistant { content: None, function_call: Some(fc), .. } => {
            assert_eq!(fc.name, "roll");
            assert_eq!(fc.arguments, "{\"n\":2}");
        }
        _ => panic!("not a call"),
    }
    let r = fn_result_msg(&"roll".to_string(), &"7".to_string()).unwrap();
    assert_eq!(to_anychatmessage(&r.message).content, "`RESULT: 7`");
    assert_eq!(to_anychatmessage(&r.message).name, "SYSTEM OUTPUT");
}

fn log_of(lengths: &[usize]) -> ChatLog {
    let mut log = ChatLog::new("bob".to_string(), 3, None).unwrap();
    for (i, len) in lengths.iter().enumerate() {
        log.add(logged(&format!("m{}", i), *len));
    }
    log
}

fn window(log: &ChatLog, model: &str) -> Vec<String> {
    log.to_request_msgs(model).unwrap().iter().map(content_of).collect()
}

#[test]
fn request_window_keeps_recent_messages_within_budget() {
    let log = log_of(&[1000, 1500, 1500, 1000, 400]);
    assert_eq!(window(&log, "gpt-3.5-turbo"), vec!["m0", "m3", "m4"]);
    assert_eq!(window(&log, "gpt-4-1106-preview"), vec!["m0", "m1", "m2", "m3", "m4"]);
}

#[test]
fn request_window_stops_at_first_overflow() {
    let log = log_of(&[100, 10, 5000, 10, 10]);
    assert_eq!(window(&log, "gpt-3.5-turbo"), vec!["m0", "m3", "m4"]);
}

#[test]
fn request_window_system_only() {
    let log = log_of(&[9000, 1, 1]);
    assert_eq!(window(&log, "gpt-3.5-turbo"), vec!["m0"]);
    let single = log_of(&[5]);
    assert_eq!(window(&single, "x"), vec!["m0"]);
}

#[test]
fn change_sys_msg_replaces_first() {
    let mut log = log_of(&[]);
    log.change_sys_msg(logged("s1", 1));
    assert_eq!(log.messages.len(), 1);
    log.add(logged("u", 1));
    log.change_sys_msg(logged("s2", 1));
    assert_eq!(log.messages.len(), 2);
    assert_eq!(content_of(&log.messages[0].message), "s2");
    assert_eq!(content_of(&log.messages[1].message), "u");
}

#[test]
fn add_user_message_returns_length() {
    let mut log = log_of(&[]);
    let n = log.add_user_message("hello".to_string()).unwrap();
    assert_eq!(log.messages.len(), 1);
    assert_eq!(log.messages[0].length, n);
    assert_eq!(n, message_token_length(&user("hello")));
}

#[test]
fn serialize_records() {
    assert_eq!(
        serialize_message(&user("say \"hi\"")),
        "{\"content\":\"say \\\"hi\\\"\",\"name\":\"test\",\"role\":\"user\"}"
    );
    let f = ChatRequestMessage::Function { content: Some("1".to_string()), name: "f".to_string() };
    assert_eq!(serialize_message(&f), "{\"content\":\"\",\"name\":\"\",\"role\":\"system\"}");
    let a = ChatRequestMessage::Assistant { content: None, name: None, function_call: None };
    assert_eq!(serialize_message(&a), "{\"content\":\"\",\"name\":\"test\",\"role\":\"assistant\"}");
}

#[test]
fn log_json_and_reload() {
    let mut log = log_of(&[]);
    log.add(sys_msg(&"rules".to_string()).unwrap());
    log.add(user_msg(&"hi".to_string()).unwrap());
    log.add(agent_msg(&"hello".to_string()).unwrap());
    let text = log.to_json();
    assert_eq!(
        text,
        "[\n{\"content\":\"rules\",\"name\":\"test\",\"role\":\"system\"},\n{\"content\":\"hi\",\"name\":\"test\",\"role\":\"user\"},\n{\"content\":\"hello\",\"name\":\"test\",\"role\":\"assistant\"}]"
    );
    let back = ChatLog::new("bob".to_string(), 3, Some(&text)).unwrap();
    assert_eq!(back.messages.len(), 3);
    let contents: Vec<String> = back.messages.iter().map(|m| content_of(&m.message)).collect();
    assert_eq!(contents, vec!["rules", "hi", "hello"]);
    assert_eq!(back.messages[1].message.role(), Role::User);
    assert_eq!(back.messages[0].length, 3);
    assert_eq!(log.file_path(), "data/bob/sessions/3.json");
}

#[test]
fn load_errors() {
    assert!(matches!(ChatLog::new("a".to_string(), 1, Some("not json")), Err(LoadError::InvalidJson)));
    assert!(matches!(
        ChatLog::new("a".to_string(), 1, Some("[{\"role\":\"pirate\"}]")),
        Err(LoadError::BadRecord(DeserializeError::UnknownRole(_)))
    ));
    assert!(matches!(
        ChatLog::new("a".to_string(), 1, Some("[{\"content\":\"x\"}]")),
        Err(LoadError::BadRecord(DeserializeError::MissingRole))
    ));
    assert!(matches!(
        ChatLog::new("a".to_string(), 1, Some("[{\"role\":\"tool\"}]")),
        Err(LoadError::BadRecord(DeserializeError::UnsupportedRole(Role::Tool)))
    ));
    let empty = ChatLog::new("a".to_string(), 1, Some("[]")).unwrap();
    assert_eq!(empty.messages.len(), 0);
}

#[test]
fn deserialize_defaults_content() {
    let rec = vec![("role".to_string(), "system".to_string())];
    let m = deserialize_message(&rec).unwrap();
    match m {
        ChatRequestMessage::System { content: Some(c), name: Some(n) } => {
            assert_eq!(c, "");
            assert_eq!(n, "test");
        }
        _ => panic!("expected a system message"),
    }
}

#[test]
fn record_roundtrip_keeps_kind_and_text() {
    let a = ChatRequestMessage::Assistant {
        content: None,
        name: Some("x".to_string()),
        function_call: Some(FunctionCall { name: "f".to_string(), arguments: "{}".to_string() }),
    };
    let rec = vec![
        ("content".to_string(), "".to_string()),
        ("name".to_string(), "test".to_string()),
        ("role".to_string(), "assistant".to_string()),
    ];
    assert_eq!(serialize_message(&a), "{\"content\":\"\",\"name\":\"test\",\"role\":\"assistant\"}");
    let back = deserialize_message(&rec).unwrap();
    match &back {
        ChatRequestMessage::Assistant { content: Some(c), name: Some(n), function_call: None } => {
            assert_eq!(c, "");
            assert_eq!(n, "test");
        }
        _ => panic!("expected an assistant message"),
    }
    assert_eq!(serialize_message(&back), serialize_message(&a));

    let mut log = log_of(&[]);
    log.add(sys_msg(&"rules".to_string()).unwrap());
    log.add(user_msg(&"say \"hi\"\n".to_string()).unwrap());
    let text = log.to_json();
    let again = ChatLog::new("bob".to_string(), 3, Some(&text)).unwrap();
    assert_eq!(again.to_json(), text);
}

#[test]
fn unread_roles() {
    let rec = |r: &str| vec![("content".to_string(), "x".to_string()), ("role".to_string(), r.to_string())];
    assert_eq!(unread_role(&rec("function")), Some(Role::Function));
    assert_eq!(unread_role(&rec("tool")), Some(Role::Tool));
    assert_eq!(unread_role(&rec("user")), None);
    assert_eq!(unread_role(&rec("pirate")), None);
    assert_eq!(unread_role(&vec![]), None);
    assert!(matches!(
        ChatLog::new("a".to_string(), 1, Some("[{\"content\":\"x\",\"role\":\"function\"}]")),
        Err(LoadError::BadRecord(DeserializeError::UnsupportedRole(Role::Function)))
    ));
}
