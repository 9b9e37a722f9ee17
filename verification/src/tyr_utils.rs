//! Commands of the toolchain: how one is handed to the shell, and what its
//! output means.
//!
//! Starting the process is the caller's part. It gets the words to start
//! from [`shell_invocation`] and hands what the process left behind to
//! [`process_command`].

use crate::error::TyrError;
use vstd::prelude::*;

verus! {

/// A command of the toolchain, and what to tell the user if it fails.
#[derive(Debug, Clone, PartialEq, Eq)]
pub struct ToolCommand {
    /// The program and its arguments.
    pub argv: Vec<String>,
    pub failure_message: String,
}

/// The mathematical value of a [`ToolCommand`].
pub struct ToolCommandView {
    pub argv: Seq<Seq<char>>,
    pub failure_message: Seq<char>,
}

/// The values of a sequence of strings, in order.
pub open spec fn string_views(words: Seq<String>) -> Seq<Seq<char>> {
    Seq::new(words.len(), |i: int| words[i]@)
}

impl View for ToolCommand {
    type V = ToolCommandView;

    open spec fn view(&self) -> ToolCommandView {
        ToolCommandView {
            argv: string_views(self.argv@),
            failure_message: self.failure_message@,
        }
    }
}

/// What a finished process left behind.
#[derive(Debug, Clone, PartialEq, Eq)]
pub struct ProcessOutput {
    /// Whether the exit status was zero.
    pub success: bool,
    pub stdout: String,
    pub stderr: String,
}

/// The words with one space between each two.
pub open spec fn joined(words: Seq<Seq<char>>) -> Seq<char>
    decreases words.len(),
{
    if words.len() == 0 {
        Seq::empty()
    } else if words.len() == 1 {
        words[0]
    } else {
        joined(words.drop_last()) + seq![' '] + words.last()
    }
}

/// The words that start `command`: on Windows the command interpreter
/// with the words of the command as they are, elsewhere the shell with the
/// command as one line.
pub open spec fn invocation_of(command: Seq<Seq<char>>, windows: bool) -> Seq<Seq<char>> {
    if windows {
        seq!["cmd"@, "/C"@] + command
    } else {
        seq!["sh"@, "-c"@, joined(command)]
    }
}

/// The words of `command` as one line, with one space between each two.
/// No word is quoted: a space inside a word splits it for the shell.
pub fn shell_command_line(command: &Vec<String>) -> (line: String)
    ensures
        line@ == joined(string_views(command@)),
{
    let ghost words = string_views(command@);
    let mut line = String::new();
    let mut i: usize = 0;
    while i < command.len()
        invariant
            i <= command.len(),
            words == string_views(command@),
            line@ == joined(words.take(i as int)),
        decreases command.len() - i,
    {
        proof {
            reveal_strlit(" ");
            assert(" "@ =~= seq![' ']);
            assert(words.take(i + 1).drop_last() =~= words.take(i as int));
            assert(words.take(i + 1).last() == command@[i as int]@);
        }
        if i > 0 {
            line.append(" ");
        }
        line.append(command[i].as_str());
        assert(line@ =~= joined(words.take(i + 1)));
        i += 1;
    }
    assert(words.take(i as int) =~= words);
    line
}

/// The program and the arguments that start `command` on this kind of
/// system.
pub fn shell_invocation(command: &Vec<String>, windows: bool) -> (argv: Vec<String>)
    ensures
        string_views(argv@) == invocation_of(string_views(command@), windows),
{
    let mut argv: Vec<String> = Vec::new();
    if windows {
        argv.push("cmd".to_owned());
        argv.push("/C".to_owned());
        let mut i: usize = 0;
        while i < command.len()
            invariant
                i <= command.len(),
                argv@.len() == i + 2,
                argv@[0]@ == "cmd"@,
                argv@[1]@ == "/C"@,
                forall|j: int| 0 <= j < i ==> argv@[j + 2]@ == command@[j]@,
            decreases command.len() - i,
        {
            argv.push(command[i].clone());
            i += 1;
        }
        assert(string_views(argv@) =~= invocation_of(string_views(command@), windows));
    } else {
        argv.push("sh".to_owned());
        argv.push("-c".to_owned());
        argv.push(shell_command_line(command));
        assert(string_views(argv@) =~= invocation_of(string_views(command@), windows));
    }
    argv
}

#[verifier::external_type_specification]
#[verifier::external_body]
pub struct ExJsonValue(serde_json::Value);

#[verifier::external_type_specification]
#[verifier::external_body]
pub struct ExJsonError(serde_json::Error);

/// The value that `serde_json` reads from `text`, or `None` where it
/// reports an error.
pub uninterp spec fn json_value(text: Seq<char>) -> Option<serde_json::Value>;

/// Calls `serde_json::from_str` for a `serde_json::Value`. Assumed: the
/// outcome depends on the text alone, so that it can be called
/// `json_value(text)`; nothing is assumed about which texts are JSON.
#[verifier::external_body]
fn parse_json(text: &str) -> (r: Result<serde_json::Value, serde_json::Error>)
    ensures
        match r {
            Ok(value) => json_value(text@) == Some(value),
            Err(_) => json_value(text@) is None,
        },
{
    serde_json::from_str::<serde_json::Value>(text)
}

/// The JSON string that holds `text`.
pub uninterp spec fn json_string(text: Seq<char>) -> serde_json::Value;

/// The JSON object with the two members `first_key: first` and
/// `second_key: second`, the second put in after the first.
pub uninterp spec fn json_object(
    first_key: Seq<char>,
    first: serde_json::Value,
    second_key: Seq<char>,
    second: serde_json::Value,
) -> serde_json::Value;

/// Makes a `serde_json::Value::String`. Assumed: the value depends on the
/// text alone, so that it can be called `json_string(text)`.
#[verifier::external_body]
fn json_text(text: &str) -> (value: serde_json::Value)
    ensures
        value == json_string(text@),
{
    serde_json::Value::String(text.to_owned())
}

/// Puts two members into an empty `serde_json::Map` with
/// `serde_json::Map::insert`, the first before the second, and makes a
/// `serde_json::Value::Object` of it. Assumed: the value depends on the
/// keys and the members alone, so that it can be called
/// `json_object(first_key, first, second_key, second)`.
#[verifier::external_body]
fn json_members(
    first_key: &str,
    first: serde_json::Value,
    second_key: &str,
    second: serde_json::Value,
) -> (value: serde_json::Value)
    ensures
        value == json_object(first_key@, first, second_key@, second),
{
    let mut members = serde_json::Map::new();
    members.insert(first_key.to_owned(), first);
    members.insert(second_key.to_owned(), second);
    serde_json::Value::Object(members)
}

/// What is returned for a command that printed the JSON `result`: an
/// object with `status` set to `success` and the JSON under `result`.
pub open spec fn report_of(result: serde_json::Value) -> serde_json::Value {
    json_object("status"@, json_string("success"@), "result"@, result)
}

/// What a command that ended with `success` has to say, where `parsed` is
/// the JSON on its standard output (`None`: it is not JSON). The exit
/// status counts first.
pub open spec fn command_outcome(success: bool, parsed: Option<serde_json::Value>) -> Result<
    serde_json::Value,
    TyrError,
> {
    if !success {
        Err(TyrError::SubprocessFailure)
    } else {
        match parsed {
            Some(result) => Ok(report_of(result)),
            None => Err(TyrError::MalformedOutput),
        }
    }
}

/// The parsed output without its error.
pub open spec fn parsed_value(parsed: Result<serde_json::Value, serde_json::Error>) -> Option<
    serde_json::Value,
> {
    match parsed {
        Ok(value) => Some(value),
        Err(_) => None,
    }
}

/// The report for a command that printed the JSON `result`: the object
/// `{"status": "success", "result": result}`.
pub fn command_report(result: serde_json::Value) -> (report: serde_json::Value)
    ensures
        report == report_of(result),
{
    json_members("status", json_text("success"), "result", result)
}

/// Judges a finished command by its exit status and by what became of
/// reading its standard output as JSON: a failure status is a
/// `SubprocessFailure` whatever was printed; after a success the report
/// holds the JSON under `result`, and output that is not JSON is
/// `MalformedOutput`.
pub fn command_result(success: bool, parsed: Result<serde_json::Value, serde_json::Error>) -> (r:
    Result<serde_json::Value, TyrError>)
    ensures
        r == command_outcome(success, parsed_value(parsed)),
{
    if !success {
        return Err(TyrError::SubprocessFailure);
    }
    match parsed {
        Ok(result) => Ok(command_report(result)),
        Err(_) => Err(TyrError::MalformedOutput),
    }
}

/// Judges a finished command: see [`command_result`]. The standard output
/// is read as JSON only after a success.
pub fn process_command(output: &ProcessOutput) -> (r: Result<serde_json::Value, TyrError>)
    ensures
        r == command_outcome(output.success, json_value(output.stdout@)),
{
    if !output.success {
        return Err(TyrError::SubprocessFailure);
    }
    command_result(true, parse_json(output.stdout.as_str()))
}

} // verus!
