use agenthost::agent::{
    after_reply, command_kind, exit_stage_target, function_call_report, handles_command, sys_msg_args, user_msg_args,
    AgentTurn, CommandKind,
};
use agenthost::api::chatuimessage::ChatUIMessage;
use agenthost::json::json_str;

#[test]
fn commands() {
    assert_eq!(command_kind("//history"), CommandKind::History);
    assert_eq!(command_kind("//quit"), CommandKind::Unknown);
    assert_eq!(command_kind("hello //history"), CommandKind::NotACommand);
    assert!(handles_command("//history"));
    assert!(!handles_command("//other"));
}

#[test]
fn exit_stages() {
    assert_eq!(exit_stage_target("forest"), Some("forest".to_string()));
    assert_eq!(exit_stage_target(""), None);
    assert_eq!(exit_stage_target("()"), None);
    assert_eq!(exit_stage_target("Error: Function not found: evalExitStage"), None);
}

#[test]
fn script_args() {
    assert_eq!(sys_msg_args("2024-01-01 00:00:00.000 UTC"), "{\"timestamp\":\"2024-01-01 00:00:00.000 UTC\"}");
    assert_eq!(user_msg_args("t", "say \"hi\""), "{\"timestamp\":\"t\",\"user_msg\":\"say \\\"hi\\\"\"}");
}

#[test]
fn turns() {
    match after_reply("".to_string(), "roll".to_string(), "{}".to_string()) {
        AgentTurn::CallFunction { name, args } => assert_eq!((name.as_str(), args.as_str()), ("roll", "{}")),
        other => panic!("unexpected {:?}", other),
    }
    match after_reply("Hi!".to_string(), "".to_string(), "".to_string()) {
        AgentTurn::Reply { text, reply: ChatUIMessage::Reply { role, name, content } } => {
            assert_eq!(text, "Hi!");
            assert_eq!((role.as_str(), name.as_str(), content.as_str()), ("assistant", "agent", "Hi!"));
        }
        other => panic!("unexpected {:?}", other),
    }
    match function_call_report("roll", "{}", "4".to_string()) {
        ChatUIMessage::FunctionCall { name, params, result } => {
            assert_eq!((name.as_str(), params.as_str(), result.as_str()), ("roll", "{}", "4"))
        }
        _ => panic!(),
    }
}

#[test]
fn json_strings() {
    assert_eq!(json_str("\"forest\""), "forest");
    assert_eq!(json_str("\"a\\nb\""), "a\nb");
    assert_eq!(json_str("42"), "");
    assert_eq!(json_str("not json"), "");
}
