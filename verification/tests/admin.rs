use mac_net_repair::admin::{
    admin_outcome, admin_script, cancelled, escape, script_step, ERROR_FILE, RESULT_FILE,
    SCRIPT_FILE,
};
use mac_net_repair::command::{Invocation, Step};

fn cs(s: &str) -> Vec<char> {
    s.chars().collect()
}

fn st(v: &[char]) -> String {
    v.iter().collect()
}

#[test]
fn escape_doubles_backslashes_then_guards_quotes() {
    assert_eq!(st(&escape(&cs("plain"))), "plain");
    assert_eq!(st(&escape(&cs("a\"b"))), "a\\\"b");
    assert_eq!(st(&escape(&cs("a\\b"))), "a\\\\b");
    assert_eq!(st(&escape(&cs("\\\""))), "\\\\\\\"");
    assert_eq!(st(&escape(&cs(""))), "");
    for s in ["x \"y\" z", "\\\\", "\"\"", "C:\\dir\\\"f\"", "用户 \"名\""] {
        assert_eq!(st(&escape(&cs(s))), s.replace("\\", "\\\\").replace("\"", "\\\""));
    }
}

#[test]
fn names_of_the_temporary_files() {
    assert_eq!(SCRIPT_FILE, "mac_net_repair_admin.scpt");
    assert_eq!(RESULT_FILE, "mac_net_repair_result.txt");
    assert_eq!(ERROR_FILE, "mac_net_repair_error.txt");
}

#[test]
fn script_for_a_plain_command() {
    let script = admin_script(
        "networksetup -removenetworkservice \"Old\"",
        "/tmp/mac_net_repair_result.txt",
        "/tmp/mac_net_repair_error.txt",
    );
    let expected = "try\n    set result to do shell script \"cd /tmp && networksetup -removenetworkservice \\\"Old\\\"\" with administrator privileges\n    do shell script \"echo \" & quoted form of result & \" > /tmp/mac_net_repair_result.txt\"\non error errMsg number errNum\n    do shell script \"echo \" & quoted form of errMsg & \" > /tmp/mac_net_repair_error.txt\"\n    error errMsg number errNum\nend try";
    assert_eq!(script, expected);
}

#[test]
fn script_agrees_with_format() {
    for command in ["", "ls", "echo \"a\\b\"", "printf '%s' \"\\\\\""] {
        for (result_path, error_path) in [("/r", "/e"), ("", ""), ("/var/folders/x y/r.txt", "/var/e.txt")] {
            let full_command = format!("cd /tmp && {}", command);
            let escaped_command = full_command.replace("\\", "\\\\").replace("\"", "\\\"");
            let expected = format!(
                r#"try
    set result to do shell script "{}" with administrator privileges
    do shell script "echo " & quoted form of result & " > {}"
on error errMsg number errNum
    do shell script "echo " & quoted form of errMsg & " > {}"
    error errMsg number errNum
end try"#,
                escaped_command, result_path, error_path
            );
            assert_eq!(admin_script(command, result_path, error_path), expected);
        }
    }
}

#[test]
fn step_that_runs_the_script() {
    assert_eq!(
        script_step("/tmp/mac_net_repair_admin.scpt"),
        Step {
            invocation: Invocation {
                program: "/usr/bin/osascript".to_string(),
                args: vec!["/tmp/mac_net_repair_admin.scpt".to_string()],
                directory: Some("/tmp".to_string()),
            },
            failure: Some("Failed to execute osascript: ".to_string()),
        }
    );
}

#[test]
fn cancellation_is_told_from_the_error_stream() {
    assert!(cancelled("execution error: User canceled. (-128)"));
    assert!(cancelled("User canceled"));
    assert!(cancelled("error -128"));
    assert!(!cancelled(""));
    assert!(!cancelled("user canceled"));
    assert!(!cancelled("execution error: The command exited with a non-zero status. (1)"));
    assert!(!cancelled("-12 8"));
}

#[test]
fn success_gives_the_trimmed_result() {
    assert_eq!(admin_outcome(true, Some("  done\n"), "", None), Ok("done".to_string()));
    assert_eq!(admin_outcome(true, Some(""), "", None), Ok(String::new()));
    assert_eq!(admin_outcome(true, None, "", None), Ok(String::new()));
    assert_eq!(
        admin_outcome(true, Some("kept\n"), "User canceled", Some("ignored")),
        Ok("kept".to_string())
    );
}

#[test]
fn cancellation_comes_before_the_error_file() {
    assert_eq!(
        admin_outcome(false, None, "execution error: User canceled. (-128)", Some("other")),
        Err("用户取消了授权".to_string())
    );
    assert_eq!(admin_outcome(false, Some("x"), "-128", None), Err("用户取消了授权".to_string()));
}

#[test]
fn failure_gives_the_error_file_or_the_error_stream() {
    assert_eq!(
        admin_outcome(false, None, "stderr text\n", Some("  no such service \n")),
        Err("命令执行失败: no such service".to_string())
    );
    assert_eq!(
        admin_outcome(false, None, "stderr text\n", None),
        Err("命令执行失败: stderr text\n".to_string())
    );
    assert_eq!(admin_outcome(false, None, "", Some("")), Err("命令执行失败: ".to_string()));
    assert_eq!(admin_outcome(false, None, "", None), Err("命令执行失败: ".to_string()));
}
