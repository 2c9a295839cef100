//! Running a shell command with administrator privileges: the AppleScript
//! that asks for them, the command line that runs it, and the reading of
//! how it ended.

use crate::command::{option_str, result_text, Invocation, InvocationView, Step, StepView};
use crate::text::{
    append, append_str, chars_of, contains, replace, spec_contains, spec_replace, spec_trim,
    string_of, strings, trim,
};
use vstd::prelude::*;

verus! {

/// The name of the file, in the directory for temporary files, that holds
/// the script.
pub const SCRIPT_FILE: &'static str = "mac_net_repair_admin.scpt";

/// The name of the file, in the directory for temporary files, to which the
/// script writes what the command printed.
pub const RESULT_FILE: &'static str = "mac_net_repair_result.txt";

/// The name of the file, in the directory for temporary files, to which the
/// script writes the error message of a command that failed.
pub const ERROR_FILE: &'static str = "mac_net_repair_error.txt";

/// `text` as it stands between double quotes in AppleScript: each backslash
/// doubled, then a backslash put before each double quote.
pub open spec fn spec_escape(text: Seq<char>) -> Seq<char> {
    spec_replace(spec_replace(text, "\\"@, "\\\\"@), "\""@, "\\\""@)
}

/// Escapes `text` for a place between double quotes in AppleScript.
pub fn escape(text: &[char]) -> (out: Vec<char>)
    ensures
        out@ == spec_escape(text@),
{
    let doubled = replace(text, chars_of("\\").as_slice(), chars_of("\\\\").as_slice());
    replace(doubled.as_slice(), chars_of("\"").as_slice(), chars_of("\\\"").as_slice())
}

/// The AppleScript that runs `command` in `/tmp` with administrator
/// privileges and writes what it printed to the file at `result_path`, or
/// the error message to the file at `error_path` before it fails with that
/// error.
pub open spec fn spec_admin_script(
    command: Seq<char>,
    result_path: Seq<char>,
    error_path: Seq<char>,
) -> Seq<char> {
    "try\n    set result to do shell script \""@ + spec_escape("cd /tmp && "@ + command)
        + "\" with administrator privileges\n    do shell script \"echo \" & quoted form of result & \" > "@
        + result_path
        + "\"\non error errMsg number errNum\n    do shell script \"echo \" & quoted form of errMsg & \" > "@
        + error_path + "\"\n    error errMsg number errNum\nend try"@
}

/// Writes the AppleScript that runs `command` with administrator
/// privileges.
pub fn admin_script(command: &str, result_path: &str, error_path: &str) -> (script: String)
    ensures
        script@ == spec_admin_script(command@, result_path@, error_path@),
{
    let mut full = chars_of("cd /tmp && ");
    append_str(&mut full, command);
    let escaped = escape(full.as_slice());
    let mut out = chars_of("try\n    set result to do shell script \"");
    append(&mut out, escaped.as_slice());
    append_str(
        &mut out,
        "\" with administrator privileges\n    do shell script \"echo \" & quoted form of result & \" > ",
    );
    append_str(&mut out, result_path);
    append_str(
        &mut out,
        "\"\non error errMsg number errNum\n    do shell script \"echo \" & quoted form of errMsg & \" > ",
    );
    append_str(&mut out, error_path);
    append_str(&mut out, "\"\n    error errMsg number errNum\nend try");
    string_of(out.as_slice())
}

/// The step that runs the script at `script_path`: `osascript`, in `/tmp`.
pub open spec fn spec_script_step(script_path: Seq<char>) -> StepView {
    StepView {
        invocation: InvocationView {
            program: "/usr/bin/osascript"@,
            args: seq![script_path],
            directory: Some("/tmp"@),
        },
        failure: Some("Failed to execute osascript: "@),
    }
}

/// Builds the step that runs the script at `script_path`.
pub fn script_step(script_path: &str) -> (step: Step)
    ensures
        step@ == spec_script_step(script_path@),
{
    let mut args: Vec<String> = Vec::new();
    args.push(script_path.to_owned());
    assert(strings(args@) =~= seq![script_path@]);
    let invocation = Invocation {
        program: "/usr/bin/osascript".to_owned(),
        args,
        directory: Some("/tmp".to_owned()),
    };
    Step::required(invocation, "Failed to execute osascript: ")
}

/// Whether what the script host wrote to its error stream says that the
/// user turned the request for privileges down.
pub open spec fn spec_cancelled(stderr: Seq<char>) -> bool {
    spec_contains(stderr, "User canceled"@) || spec_contains(stderr, "-128"@)
}

/// Tells from the script host's error stream whether the user turned the
/// request for privileges down. Only where they did not is the error file
/// worth reading.
pub fn cancelled(stderr: &str) -> (b: bool)
    ensures
        b == spec_cancelled(stderr@),
{
    let text = chars_of(stderr);
    contains(text.as_slice(), chars_of("User canceled").as_slice()) || contains(
        text.as_slice(),
        chars_of("-128").as_slice(),
    )
}

/// How a privileged command ended. Where the script host succeeded, the
/// result is what the result file holds, trimmed, and empty where there is
/// no such file. Where it failed, the user turned the request down, or the
/// command failed with what the error file holds, trimmed, or, without
/// such a file, with what the script host wrote to its error stream.
pub open spec fn spec_admin_outcome(
    succeeded: bool,
    result_file: Option<Seq<char>>,
    stderr: Seq<char>,
    error_file: Option<Seq<char>>,
) -> Result<Seq<char>, Seq<char>> {
    if succeeded {
        match result_file {
            Some(text) => Ok(spec_trim(text)),
            None => Ok(Seq::empty()),
        }
    } else if spec_cancelled(stderr) {
        Err("用户取消了授权"@)
    } else {
        match error_file {
            Some(text) => Err("命令执行失败: "@ + spec_trim(text)),
            None => Err("命令执行失败: "@ + stderr),
        }
    }
}

/// Reads how a privileged command ended: from whether the script host
/// succeeded, what the result file holds, what the script host wrote to
/// its error stream, and what the error file holds.
pub fn admin_outcome(
    succeeded: bool,
    result_file: Option<&str>,
    stderr: &str,
    error_file: Option<&str>,
) -> (outcome: Result<String, String>)
    ensures
        result_text(outcome) == spec_admin_outcome(
            succeeded,
            option_str(result_file),
            stderr@,
            option_str(error_file),
        ),
{
    if succeeded {
        match result_file {
            Some(text) => {
                let trimmed = trim(chars_of(text).as_slice());
                Ok(string_of(trimmed.as_slice()))
            },
            None => Ok(String::new()),
        }
    } else if cancelled(stderr) {
        Err("用户取消了授权".to_owned())
    } else {
        let mut message = chars_of("命令执行失败: ");
        match error_file {
            Some(text) => {
                let trimmed = trim(chars_of(text).as_slice());
                append(&mut message, trimmed.as_slice());
            },
            None => {
                append_str(&mut message, stderr);
            },
        }
        Err(string_of(message.as_slice()))
    }
}

/// A shell command to run with administrator privileges, and the message
/// to report when it went well.
#[derive(Debug, PartialEq, Eq)]
pub struct AdminPlan {
    pub command: String,
    pub success: String,
}

/// What an `AdminPlan` holds, as mathematical values.
pub struct AdminPlanView {
    pub command: Seq<char>,
    pub success: Seq<char>,
}

impl View for AdminPlan {
    type V = AdminPlanView;

    open spec fn view(&self) -> AdminPlanView {
        AdminPlanView { command: self.command@, success: self.success@ }
    }
}

/// What a request for a plan came to, as mathematical values.
pub open spec fn plan_result(r: Result<AdminPlan, String>) -> Result<AdminPlanView, Seq<char>> {
    match r {
        Ok(plan) => Ok(plan@),
        Err(e) => Err(e@),
    }
}

/// `text` with a backslash put before each double quote.
pub open spec fn spec_escape_quotes(text: Seq<char>) -> Seq<char> {
    spec_replace(text, "\""@, "\\\""@)
}

/// `text` between double quotes, as one word of a shell command.
pub open spec fn spec_quote(text: Seq<char>) -> Seq<char> {
    "\""@ + spec_escape_quotes(text) + "\""@
}

/// Appends `text` to `out` as one word of a shell command: between double
/// quotes, with a backslash before each double quote of its own.
pub fn append_quoted(out: &mut Vec<char>, text: &[char])
    ensures
        final(out)@ == old(out)@ + spec_quote(text@),
{
    let escaped = replace(text, chars_of("\"").as_slice(), chars_of("\\\"").as_slice());
    append_str(out, "\"");
    append(out, escaped.as_slice());
    append_str(out, "\"");
}

} // verus!
