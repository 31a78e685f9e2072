//! Running host commands, and clangd lookup.
use crate::error::{ToolkitError, ToolkitErrorView, ToolkitResult};
use crate::quoting::{powershell_single_quote, powershell_single_quote_spec};
use crate::text::{append_str, owned, strs_view, trimmed_lines, trimmed_lines_exec};
use vstd::prelude::*;

verus! {

/// What a finished host command produced.
#[derive(Debug, Clone, PartialEq, Eq)]
pub struct CommandOutput {
    /// The exit status; `None` when the command was ended by a signal.
    pub status: Option<i32>,
    pub stdout: String,
    pub stderr: String,
}

/// One command handed to a runner: the program, its arguments, and what
/// came back.
pub struct RunnerCall {
    pub program: Seq<char>,
    pub args: Seq<Seq<char>>,
    pub answer: Result<CommandOutputView, ToolkitErrorView>,
}

/// The model of a runner's answer.
pub open spec fn output_result_view(r: ToolkitResult<CommandOutput>) -> Result<CommandOutputView, ToolkitErrorView> {
    match r {
        Ok(o) => Ok(o@),
        Err(e) => Err(e@),
    }
}

/// The record of one call.
pub open spec fn runner_call(
    program: Seq<char>,
    args: Seq<Seq<char>>,
    answer: Result<CommandOutputView, ToolkitErrorView>,
) -> RunnerCall {
    RunnerCall { program, args, answer }
}

/// Runs a program on the host with the given arguments.
pub trait CommandRunner {
    fn run_command(&self, command: &str, args: &[String]) -> ToolkitResult<CommandOutput>;
}

/// A runner together with the transcript of what the library handed it:
/// each command, its arguments and the answer, oldest first. The library
/// runs every host command through one, so its contracts can say which
/// commands were run and what was made of their answers.
pub struct TranscribedRunner<'a, R: CommandRunner> {
    runner: &'a R,
    calls: Ghost<Seq<RunnerCall>>,
}

impl<'a, R: CommandRunner> TranscribedRunner<'a, R> {
    /// The commands run so far, oldest first, each with its answer.
    pub closed spec fn transcript(&self) -> Seq<RunnerCall> {
        self.calls@
    }

    /// Starts an empty transcript for a runner.
    pub fn new(runner: &'a R) -> (r: Self)
        ensures
            r.transcript() == Seq::<RunnerCall>::empty(),
    {
        TranscribedRunner { runner, calls: Ghost(Seq::empty()) }
    }

    /// Runs `command` with `args` and records the call and its answer.
    pub fn run_command(&mut self, command: &str, args: &[String]) -> (r: ToolkitResult<CommandOutput>)
        ensures
            final(self).transcript() == old(self).transcript().push(
                runner_call(command@, strs_view(args@), output_result_view(r)),
            ),
    {
        let r = self.runner.run_command(command, args);
        self.calls = Ghost(self.calls@.push(runner_call(command@, strs_view(args@), output_result_view(r))));
        r
    }
}

/// A transcript that goes on from another: it starts with all of its calls.
pub open spec fn extends(before: Seq<RunnerCall>, after: Seq<RunnerCall>) -> bool {
    &&& before.len() <= after.len()
    &&& forall|i: int| 0 <= i < before.len() ==> #[trigger] after[i] == before[i]
}

/// A transcript that is another plus exactly one call of `program` with
/// `args`.
pub open spec fn one_more_call(
    before: Seq<RunnerCall>,
    after: Seq<RunnerCall>,
    program: Seq<char>,
    args: Seq<Seq<char>>,
) -> bool {
    &&& after.len() == before.len() + 1
    &&& extends(before, after)
    &&& after.last().program == program
    &&& after.last().args == args
}

/// What a call gives its caller: the standard output when the command ran
/// and exited with status 0, else the failure.
pub open spec fn answer_stdout(program: Seq<char>, answer: Result<CommandOutputView, ToolkitErrorView>) -> Result<
    Seq<char>,
    ToolkitErrorView,
> {
    match answer {
        Ok(o) => ensure_success_spec(program, o),
        Err(e) => Err(e),
    }
}

/// The model of a command's output.
pub struct CommandOutputView {
    pub status: Option<i32>,
    pub stdout: Seq<char>,
    pub stderr: Seq<char>,
}

impl View for CommandOutput {
    type V = CommandOutputView;

    open spec fn view(&self) -> CommandOutputView {
        CommandOutputView { status: self.status, stdout: self.stdout@, stderr: self.stderr@ }
    }
}

/// The message of a command that ended unsuccessfully.
pub open spec fn command_failed_message(command: Seq<char>, stderr: Seq<char>) -> Seq<char> {
    command + " exited unsuccessfully: "@ + stderr
}

/// The standard output of a successful command, or the failure.
pub open spec fn ensure_success_spec(command: Seq<char>, output: CommandOutputView) -> Result<
    Seq<char>,
    ToolkitErrorView,
> {
    if output.status == Some(0i32) {
        Ok(output.stdout)
    } else {
        Err(ToolkitErrorView::CommandFailed(command_failed_message(command, output.stderr)))
    }
}

/// The model of a text result.
pub open spec fn string_result_view(r: ToolkitResult<String>) -> Result<Seq<char>, ToolkitErrorView> {
    match r {
        Ok(s) => Ok(s@),
        Err(e) => Err(e@),
    }
}

/// The standard output of a command that exited with status 0; otherwise a
/// `CommandFailed` error carrying its standard error.
pub fn ensure_success(command: &str, output: CommandOutput) -> (r: ToolkitResult<String>)
    ensures
        string_result_view(r) == ensure_success_spec(command@, output@),
{
    match output.status {
        Some(0) => Ok(output.stdout),
        _ => {
            let mut message = owned(command);
            append_str(&mut message, " exited unsuccessfully: ");
            append_str(&mut message, output.stderr.as_str());
            Err(ToolkitError::CommandFailed(message))
        },
    }
}

/// The path of clangd, or `MissingClangd` when it was not found.
pub fn require_clangd(clangd_path: Option<String>) -> (r: ToolkitResult<String>)
    ensures
        match clangd_path {
            Some(p) => r matches Ok(q) && q@ == p@,
            None => r matches Err(e) && e == ToolkitError::MissingClangd,
        },
{
    match clangd_path {
        Some(p) => Ok(p),
        None => Err(ToolkitError::MissingClangd),
    }
}

/// The PowerShell script that prints the names of a directory's
/// subdirectories, one per line.
pub open spec fn list_directories_script(path: Seq<char>) -> Seq<char> {
    "$ErrorActionPreference='Stop'; Get-ChildItem -LiteralPath "@ + powershell_single_quote_spec(path)
        + " -Directory | ForEach-Object { $_.Name }"@
}

/// The PowerShell script that lists a directory's subdirectories.
pub fn list_directories_powershell_script(path: &str) -> (r: String)
    ensures
        r@ == list_directories_script(path@),
{
    let mut script = owned("$ErrorActionPreference='Stop'; Get-ChildItem -LiteralPath ");
    let quoted = powershell_single_quote(path);
    append_str(&mut script, quoted.as_str());
    append_str(&mut script, " -Directory | ForEach-Object { $_.Name }");
    script
}

/// The arguments that run a PowerShell script.
pub open spec fn powershell_args(script: Seq<char>) -> Seq<Seq<char>> {
    seq!["-NoProfile"@, "-Command"@, script]
}

/// `powershell -NoProfile -Command <script>` arguments.
pub fn powershell_command_args(script: String) -> (r: Vec<String>)
    ensures
        strs_view(r@) == powershell_args(script@),
{
    let r = vec![owned("-NoProfile"), owned("-Command"), script];
    assert(strs_view(r@) =~= powershell_args(script@));
    r
}

/// The subdirectory names a successful listing printed.
pub open spec fn directory_names_spec(stdout: Seq<char>) -> Seq<Seq<char>> {
    trimmed_lines(stdout)
}

/// Lists the names of a directory's subdirectories with PowerShell. On
/// success the names are the trimmed non-blank lines of what the listing
/// printed.
pub fn powershell_list_directory_names<R: CommandRunner>(runner: &mut TranscribedRunner<R>, path: &str) -> (r: ToolkitResult<
    Vec<String>,
>)
    ensures
        one_more_call(old(runner).transcript(), final(runner).transcript(), "powershell"@, powershell_args(list_directories_script(path@))),
        match answer_stdout("powershell"@, final(runner).transcript().last().answer) {
            Ok(stdout) => r matches Ok(names) && strs_view(names@) == directory_names_spec(stdout),
            Err(e) => r matches Err(x) && x@ == e,
        },
{
    let script = list_directories_powershell_script(path);
    let args = powershell_command_args(script);
    let output = match runner.run_command("powershell", args.as_slice()) {
        Ok(o) => o,
        Err(e) => return Err(e),
    };
    let stdout = match ensure_success("powershell", output) {
        Ok(s) => s,
        Err(e) => return Err(e),
    };
    let names = trimmed_lines_exec(stdout.as_str());
    assert(strs_view(names@) == directory_names_spec(stdout@));
    Ok(names)
}

/// The call that lists a directory's subdirectories with PowerShell.
pub open spec fn is_listing_call(call: RunnerCall, path: Seq<char>) -> bool {
    call.program == "powershell"@ && call.args == powershell_args(list_directories_script(path))
}

/// What a listing call gave: the subdirectory names, or the failure.
pub open spec fn listed_names(call: RunnerCall) -> Result<Seq<Seq<char>>, ToolkitErrorView> {
    match answer_stdout(call.program, call.answer) {
        Ok(stdout) => Ok(directory_names_spec(stdout)),
        Err(e) => Err(e),
    }
}

} // verus!
