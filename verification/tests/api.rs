use agenthost::api::chatuimessage::ChatUIMessage;
use agenthost::api::{
    auth_decision, auth_failure, disconnect_event, is_ready_reply, needs_auth, query_value, session_id_param,
    sse_event, starts_with_any, AuthStep, DEFAULT_CHAT_SESSION, DEFAULT_SEND_SESSION,
};
use agenthost::messages::ChatRequestMessage;

#[test]
fn starts_with_any_example() {
    let prefixes = vec!["hello".to_string(), "world".to_string()];
    assert!(starts_with_any("hello_world", prefixes.clone()));
    assert!(!starts_with_any("say hello", prefixes));
    assert!(!starts_with_any("x", vec![]));
    assert!(starts_with_any("x", vec!["".to_string()]));
}

#[test]
fn protected_paths() {
    assert!(needs_auth("/chat"));
    assert!(needs_auth("/sessions/list"));
    assert!(needs_auth("/sendmore"));
    assert!(!needs_auth("/login"));
    assert!(!needs_auth("/"));
}

#[test]
fn auth_steps() {
    assert!(matches!(auth_decision("/login", None), AuthStep::Pass));
    assert!(matches!(auth_decision("/send", None), AuthStep::Reject));
    assert!(matches!(auth_decision("/send", Some("msg=hi")), AuthStep::Reject));
    match auth_decision("/chat", Some("token=abc%20d&session_id=2")) {
        AuthStep::CheckToken(t) => assert_eq!(t, "abc d"),
        other => panic!("unexpected {:?}", other),
    }
    match auth_decision("/chat", Some("token=a&token=b")) {
        AuthStep::CheckToken(t) => assert_eq!(t, "b"),
        other => panic!("unexpected {:?}", other),
    }
    assert_eq!(auth_failure(), (500, "Auth failed"));
}

#[test]
fn query_values() {
    assert_eq!(query_value("a=1&b=2", "b"), Some("2".to_string()));
    assert_eq!(query_value("a=1&b=2", "c"), None);
    assert_eq!(query_value("msg=hello+there", "msg"), Some("hello there".to_string()));
}

#[test]
fn session_ids() {
    assert_eq!(session_id_param(None, DEFAULT_SEND_SESSION).unwrap(), 1);
    assert_eq!(session_id_param(None, DEFAULT_CHAT_SESSION).unwrap(), 10);
    assert_eq!(session_id_param(Some("42"), 1).unwrap(), 42);
    assert_eq!(session_id_param(Some("+7"), 1).unwrap(), 7);
    assert!(session_id_param(Some("x"), 1).is_err());
    assert!(session_id_param(Some(""), 1).is_err());
    assert!(session_id_param(Some("-1"), 1).is_err());
    assert!(session_id_param(Some("99999999999999999999999"), 1).is_err());
}

#[test]
fn ui_messages_from_log() {
    let m = ChatUIMessage::from_message(ChatRequestMessage::User { content: Some("hi".to_string()), name: None });
    match m {
        ChatUIMessage::Reply { role, name, content } => {
            assert_eq!((role.as_str(), name.as_str(), content.as_str()), ("user", "User", "hi"));
        }
        _ => panic!(),
    }
    let m = ChatUIMessage::from_message(ChatRequestMessage::System { content: Some("s".to_string()), name: None });
    match m {
        ChatUIMessage::Reply { role, name, .. } => assert_eq!((role.as_str(), name.as_str()), ("system", "")),
        _ => panic!(),
    }
    let m = ChatUIMessage::from_message(ChatRequestMessage::Assistant { content: None, name: None, function_call: None });
    assert!(matches!(m, ChatUIMessage::Fragment(f) if f == "Empty Assistant Message"));
    let m = ChatUIMessage::from_message(ChatRequestMessage::User { content: None, name: None });
    assert!(matches!(m, ChatUIMessage::Fragment(f) if f == "Unsupported User Message Content"));
    let m = ChatUIMessage::from_message(ChatRequestMessage::Function { content: None, name: "f".to_string() });
    assert!(matches!(m, ChatUIMessage::Fragment(f) if f == "Unsupported message type"));
}

#[test]
fn sse_events() {
    assert_eq!(sse_event(&ChatUIMessage::UserId("bob".to_string())), ("user".to_string(), "bob".to_string()));
    assert_eq!(sse_event(&ChatUIMessage::Fragment("*x*".to_string())), ("fragment".to_string(), "*x*".to_string()));
    let reply = ChatUIMessage::Reply { role: "assistant".to_string(), name: "agent".to_string(), content: "a\"b".to_string() };
    assert_eq!(
        sse_event(&reply),
        ("msg".to_string(), "{\"content\":\"a\\\"b\",\"name\":\"agent\",\"role\":\"assistant\"}".to_string())
    );
    let call = ChatUIMessage::FunctionCall { name: "roll".to_string(), params: "{}".to_string(), result: "3".to_string() };
    assert_eq!(
        sse_event(&call),
        ("functionCall".to_string(), "{\"name\":\"roll\",\"params\":\"{}\",\"result\":\"3\"}".to_string())
    );
    assert_eq!(disconnect_event(), ("disconnect".to_string(), "disconnected".to_string()));
}

#[test]
fn ready_signal() {
    let ready = ChatUIMessage::Reply { role: "x".to_string(), name: "__READY__".to_string(), content: "".to_string() };
    assert!(is_ready_reply(&ready));
    assert!(!is_ready_reply(&ChatUIMessage::Fragment("__READY__".to_string())));
}
