use agenthost::scripts::{
    esprint_error, extract_line_and_position, get_directory, sandbox_candidate, sandbox_check, split_lines,
    stage_script_path, states_file_path, user_state_dir,
};

#[test]
fn directories() {
    assert_eq!(get_directory("scripts/dm.rhai"), "scripts");
    assert_eq!(get_directory("a/b/c.rhai"), "a/b");
    assert_eq!(get_directory("dm.rhai"), "");
    assert_eq!(get_directory(""), "scripts");
    assert_eq!(get_directory("/"), "scripts");
    assert_eq!(stage_script_path("scripts", "forest"), "scripts/forest.rhai");
    assert_eq!(states_file_path("bob", 7), "data/sessions/bob/states-7.json");
    assert_eq!(user_state_dir("bob"), "data/sessions/bob");
}

#[test]
fn sandbox() {
    assert_eq!(sandbox_candidate("/srv/sandbox", "notes.txt"), "/srv/sandbox/notes.txt");
    assert_eq!(sandbox_candidate("/srv/sandbox", "/etc/passwd"), "/etc/passwd");
    assert_eq!(
        sandbox_check("/srv/sandbox", "/srv/sandbox/a/../b".to_string(), Ok("/srv/sandbox/b".to_string())),
        Ok("/srv/sandbox/a/../b".to_string())
    );
    assert_eq!(
        sandbox_check("/srv/sandbox", "/etc/passwd".to_string(), Ok("/etc/passwd".to_string())),
        Err("Path out of bounds".to_string())
    );
    assert_eq!(
        sandbox_check("/srv/sandbox", "/srv/sandboxed".to_string(), Ok("/srv/sandboxed".to_string())),
        Err("Path out of bounds".to_string())
    );
    assert_eq!(
        sandbox_check("/srv/sandbox", "x".to_string(), Err("No such file".to_string())),
        Err("No such file".to_string())
    );
}

#[test]
fn line_positions() {
    assert_eq!(extract_line_and_position("Syntax error (line 3, position 14)"), Some((3, 14)));
    assert_eq!(extract_line_and_position("(line x) then (line 12, position 0)."), Some((12, 0)));
    assert_eq!(extract_line_and_position("(line 70000, position 1)"), None);
    assert_eq!(extract_line_and_position("no position here"), None);
    assert_eq!(extract_line_and_position("(line 1, position 2"), None);
    // Digits outside ASCII belong to the first match but do not read as a number.
    assert_eq!(extract_line_and_position("(line \u{0663}, position 5) then (line 2, position 3)"), None);
    assert_eq!(extract_line_and_position("(line 4, position 1\u{0660}) (line 2, position 3)"), None);
}

#[test]
fn lines() {
    assert_eq!(split_lines("a\nb\r\nc"), vec!["a", "b", "c"]);
    assert_eq!(split_lines("a\n"), vec!["a"]);
    assert_eq!(split_lines(""), Vec::<String>::new());
    assert_eq!(split_lines("\n\nx\r"), vec!["", "", "x\r"]);
    let s = "one\ntwo\r\n\nthree\r";
    let expected: Vec<String> = s.lines().map(|l| l.to_string()).collect();
    assert_eq!(split_lines(s), expected);
}

#[test]
fn error_reports() {
    let input = "let x = 1;\nlet y = z;\n";
    let report = esprint_error(input, 2, 8, "Variable not found: z\nin call");
    let expected = format!("2: let y = z;\n{0:>1$}Variable not found: z\n{2:>1$}in call\n\n", "^ ", 3 + 8 + 1, "| ");
    assert_eq!(report, expected);
}
