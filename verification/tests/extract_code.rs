use agenthost::llamacppchat::extract_code::{check_for_code, extract_code, generation_reply};

#[test]
fn test_check_for_code() {
    assert_eq!(check_for_code("Here we calculate the sum: ```Rhai_host\n33+156\n``` ..."), true);
    assert_eq!(check_for_code("Here we calculate the sum: ```Rhai_host\nrollDice(sides=20, num=4)\n``` ..."), true);
    assert_eq!(check_for_code("This string does not contain any code."), false);
}

#[test]
fn test_extract_code() {
    assert_eq!(extract_code("Here we calculate the sum: ```Rhai_host\n33+156\n``` ..."), Some("33+156"));
    assert_eq!(
        extract_code("Here we calculate the sum: ```Rhai_host\nrollDice(sides=20, num=4)\n``` ..."),
        Some("rollDice(sides=20, num=4)")
    );
    assert_eq!(extract_code("This string does not contain any code."), None);
}

#[test]
fn test_extract_code_multiline() {
    let multiline_input = "This is a multiline string\n\
                           with a code snippet: ```Rhai_host\n33+156\n```\n\
                           in the middle.";
    assert_eq!(extract_code(multiline_input), Some("33+156"));
}

#[test]
fn extract_code_keeps_to_one_line() {
    // A block whose text runs over several lines is not one; a later block is.
    let text = "a ```Rhai_host\nlet x = 1;\nx + 1\n``` b ```Rhai_host\nsecond\n```";
    assert_eq!(extract_code(text), Some("second"));
    assert_eq!(extract_code("```Rhai_host\nlet x = 1;\nx + 1\n```"), None);
    assert_eq!(check_for_code("```Rhai_host\nlet x = 1;\nx + 1\n```"), false);
}

#[test]
fn extract_code_closing_fence() {
    assert_eq!(extract_code("```Rhai_host\n1+1"), None);
    assert_eq!(check_for_code("```Rhai_host\n1+1```"), true);
    assert_eq!(extract_code("```Rhai_host\n1+1 ``` and ```"), Some("1+1 "));
    assert_eq!(extract_code("```Rhai_host\n\n```"), Some(""));
    assert_eq!(extract_code("```Rhai_host\n1+1\n\n```"), None);
}

#[test]
fn generation_reply_reads_code() {
    let (reply, name, code) = generation_reply("x ```Rhai_host\n2*3\n```");
    assert_eq!(reply, "x ```Rhai_host\n2*3\n```");
    assert_eq!(name, "eval");
    assert_eq!(code, "2*3");
    let (_, name, code) = generation_reply("```Rhai_host\n\n```");
    assert_eq!(name, "");
    assert_eq!(code, "");
}
