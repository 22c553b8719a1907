//! What the library decides about a finished subprocess: how it is shown,
//! whether it failed and with what message, and what is logged about it.

use vstd::prelude::*;

use crate::error::DeployError;
use crate::text::{blank, is_blank, join_spaces, join_with_spaces, owned, trim, trimmed, views};

verus! {

/// How a local command is shown: `<cmd> <args...>`.
pub open spec fn command_display_text(cmd: Seq<char>, args: Seq<Seq<char>>) -> Seq<char> {
    cmd + " "@ + join_spaces(args)
}

/// The text that shows a local command in logs and errors.
pub fn command_display(cmd: &str, args: &Vec<String>) -> (res: String)
    ensures
        res@ == command_display_text(cmd@, views(args@)),
{
    let mut res = owned(cmd);
    res.append(" ");
    let joined = join_with_spaces(args);
    res.append(joined.as_str());
    res
}

/// What a failed command reports: its standard error, trimmed, unless that
/// is blank; then its standard output, trimmed.
pub open spec fn failure_detail(std_out: Seq<char>, std_err: Seq<char>) -> Seq<char> {
    if is_blank(std_err) {
        trimmed(std_out)
    } else {
        trimmed(std_err)
    }
}

/// The message of a command that exited unsuccessfully.
pub open spec fn failure_message(display: Seq<char>, std_out: Seq<char>, std_err: Seq<char>) -> Seq<
    char,
> {
    display + " failed: "@ + failure_detail(std_out, std_err)
}

/// Decides the outcome of a finished command from its exit status and
/// captured output.
pub fn check_status(display: &str, success: bool, std_out: &str, std_err: &str) -> (res: Result<
    (),
    DeployError,
>)
    ensures
        res is Ok <==> success,
        res matches Err(e) ==> e.message@ == failure_message(display@, std_out@, std_err@)
            && e.context@.len() == 0,
{
    if success {
        return Ok(());
    }
    let detail = if blank(std_err) {
        trim(std_out)
    } else {
        trim(std_err)
    };
    let mut message = owned(display);
    message.append(" failed: ");
    message.append(detail.as_str());
    Err(DeployError::new(message))
}

/// The debug log lines for a command: the command itself, then its standard
/// output and standard error, each trimmed, when not blank.
pub open spec fn debug_lines_text(command: Seq<char>, std_out: Seq<char>, std_err: Seq<char>) -> Seq<
    Seq<char>,
> {
    let first = seq!["$ "@ + command];
    let with_out = if is_blank(std_out) {
        first
    } else {
        first.push("stdout:\n"@ + trimmed(std_out))
    };
    if is_blank(std_err) {
        with_out
    } else {
        with_out.push("stderr:\n"@ + trimmed(std_err))
    }
}

/// What is logged at debug level about a subprocess.
pub fn log_debug(command: &str, std_out: &str, std_err: &str) -> (res: Vec<String>)
    ensures
        views(res@) == debug_lines_text(command@, std_out@, std_err@),
{
    let mut res: Vec<String> = Vec::new();
    let mut first = owned("$ ");
    first.append(command);
    res.push(first);
    let ghost one = views(res@);
    assert(one =~= seq!["$ "@ + command@]);
    if !blank(std_out) {
        let mut line = owned("stdout:\n");
        let t = trim(std_out);
        line.append(t.as_str());
        res.push(line);
    }
    let ghost two = views(res@);
    assert(two =~= if is_blank(std_out@) {
        one
    } else {
        one.push("stdout:\n"@ + trimmed(std_out@))
    });
    if !blank(std_err) {
        let mut line = owned("stderr:\n");
        let t = trim(std_err);
        line.append(t.as_str());
        res.push(line);
    }
    assert(views(res@) =~= if is_blank(std_err@) {
        two
    } else {
        two.push("stderr:\n"@ + trimmed(std_err@))
    });
    res
}

/// Takes one line of a JSON-Lines stream: a blank line is skipped; any other
/// line is added, with a newline, to the transcript kept for logging, and is
/// to be decoded (the result says which).
pub fn accept_output_line(transcript: &mut String, line: &str) -> (res: bool)
    ensures
        res == !is_blank(line@),
        res ==> final(transcript)@ == old(transcript)@ + line@ + "\n"@,
        !res ==> final(transcript)@ == old(transcript)@,
{
    if blank(line) {
        return false;
    }
    transcript.append(line);
    transcript.append("\n");
    true
}

} // verus!
