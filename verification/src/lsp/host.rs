//! Reading and writing workspace files through host shells.
//!
//! The extension cannot touch the workspace directly; it asks PowerShell
//! (Windows roots) or `sh` (other roots) to test, read and write files. The
//! scripts are built here; what a script printed is whatever came back.
use crate::build::shell::{shell_for_root_path, shell_for_root_path_spec, ShellKind};
use crate::environment::tools::{
    answer_stdout, ensure_success, one_more_call, powershell_args, powershell_command_args, string_result_view,
    CommandRunner, RunnerCall,
};
use crate::environment::windows_sdk::eq_ignore_ascii_case;
use crate::error::{ToolkitErrorView, ToolkitResult};
use crate::paths::{join_windows_path, join_windows_path_spec, strs_of};
use crate::quoting::{powershell_single_quote, powershell_single_quote_spec, sh_single_quote, sh_single_quote_spec};
use crate::text::{
    append_str, ascii_lower_seq, chars_of, first_trimmed_line, first_trimmed_line_exec, is_sep, owned,
    str_eq, string_of, strs_view, trim_end_by, trim_end_char, trim_end_seps, trim_start_by, trim_start_char,
    trim_start_seps, trim_ws, trim_ws_exec,
};
use crate::environment::tools::TranscribedRunner;
use vstd::prelude::*;

verus! {

// ---------------------------------------------------------------------------
// Paths
// ---------------------------------------------------------------------------

/// A component with its leading and trailing separators removed.
pub open spec fn trim_seps(s: Seq<char>) -> Seq<char> {
    trim_end_by(trim_start_by(s, |c: char| is_sep(c)), |c: char| is_sep(c))
}

/// A component with its leading and trailing `/` removed.
pub open spec fn trim_slashes(s: Seq<char>) -> Seq<char> {
    trim_end_by(trim_start_by(s, |c: char| c == '/'), |c: char| c == '/')
}

/// The root, without trailing separators, followed by each component
/// (without its own separators) after a backslash.
pub open spec fn windows_components_spec(root_path: Seq<char>, components: Seq<Seq<char>>) -> Seq<char>
    decreases components.len(),
{
    if components.len() == 0 {
        trim_end_by(root_path, |c: char| is_sep(c))
    } else {
        windows_components_spec(root_path, components.drop_last()) + "\\"@ + trim_seps(components.last())
    }
}

/// The root, without trailing `/`, followed by each component (without its
/// own `/`) after a `/`.
pub open spec fn unix_components_spec(root_path: Seq<char>, components: Seq<Seq<char>>) -> Seq<char>
    decreases components.len(),
{
    if components.len() == 0 {
        trim_end_by(root_path, |c: char| c == '/')
    } else {
        unix_components_spec(root_path, components.drop_last()) + "/"@ + trim_slashes(components.last())
    }
}

/// Joins path components below a Windows root with backslashes.
pub fn join_windows_components(root_path: &str, components: &[&str]) -> (r: String)
    ensures
        r@ == windows_components_spec(root_path@, strs_of(components@)),
{
    let ghost cs = strs_of(components@);
    let mut path = string_of(&trim_end_seps(&chars_of(root_path)));
    let mut i: usize = 0;
    assert(cs.take(0) =~= Seq::<Seq<char>>::empty());
    while i < components.len()
        invariant
            cs == strs_of(components@),
            i <= components.len(),
            path@ == windows_components_spec(root_path@, cs.take(i as int)),
        decreases components.len() - i,
    {
        append_str(&mut path, "\\");
        let part = string_of(&trim_end_seps(&trim_start_seps(&chars_of(components[i]))));
        append_str(&mut path, part.as_str());
        proof {
            let t = cs.take(i + 1);
            assert(t.drop_last() =~= cs.take(i as int));
            assert(t.last() == components@[i as int]@);
        }
        i = i + 1;
    }
    assert(cs.take(components.len() as int) =~= cs);
    path
}

/// Joins path components below a Unix root with `/`.
pub fn join_unix_components(root_path: &str, components: &[&str]) -> (r: String)
    ensures
        r@ == unix_components_spec(root_path@, strs_of(components@)),
{
    let ghost cs = strs_of(components@);
    let mut path = string_of(&trim_end_char(&chars_of(root_path), '/'));
    let mut i: usize = 0;
    assert(cs.take(0) =~= Seq::<Seq<char>>::empty());
    while i < components.len()
        invariant
            cs == strs_of(components@),
            i <= components.len(),
            path@ == unix_components_spec(root_path@, cs.take(i as int)),
        decreases components.len() - i,
    {
        append_str(&mut path, "/");
        let part = string_of(&trim_end_char(&trim_start_char(&chars_of(components[i]), '/'), '/'));
        append_str(&mut path, part.as_str());
        proof {
            let t = cs.take(i + 1);
            assert(t.drop_last() =~= cs.take(i as int));
            assert(t.last() == components@[i as int]@);
        }
        i = i + 1;
    }
    assert(cs.take(components.len() as int) =~= cs);
    path
}

// ---------------------------------------------------------------------------
// Scripts
// ---------------------------------------------------------------------------

/// PowerShell that prints `true` or `false` for whether a path exists.
pub open spec fn host_path_exists_script_spec(path: Seq<char>) -> Seq<char> {
    "$ErrorActionPreference='Stop'; if (Test-Path -LiteralPath "@ + powershell_single_quote_spec(path)
        + ") { 'true' } else { 'false' }"@
}

/// PowerShell that prints `True` or `False` for whether a workspace file
/// exists.
pub open spec fn workspace_exists_powershell_spec(path: Seq<char>) -> Seq<char> {
    "if (Test-Path -LiteralPath "@ + powershell_single_quote_spec(path) + ") { 'True' } else { 'False' }"@
}

/// `sh` that prints `true` or `false` for whether a workspace file exists.
pub open spec fn workspace_exists_sh_spec(path: Seq<char>) -> Seq<char> {
    "if [ -e "@ + sh_single_quote_spec(path) + " ]; then printf true; else printf false; fi"@
}

/// PowerShell that writes a UTF-8 file (without BOM), creating its
/// directory.
pub open spec fn write_powershell_text_file_spec(path: Seq<char>, contents: Seq<char>) -> Seq<char> {
    "$ErrorActionPreference='Stop'; $path = "@ + powershell_single_quote_spec(path)
        + "; $dir = Split-Path -Parent $path; if ($dir) { New-Item -ItemType Directory -Force -Path $dir | Out-Null }; $encoding = New-Object System.Text.UTF8Encoding($false); [System.IO.File]::WriteAllText($path, "@
        + powershell_single_quote_spec(contents) + ", $encoding)"@
}

/// `sh` that writes a file, creating its directory.
pub open spec fn write_sh_text_file_spec(path: Seq<char>, contents: Seq<char>) -> Seq<char> {
    "path="@ + sh_single_quote_spec(path) + "; mkdir -p -- \"$(dirname -- \"$path\")\" && printf %s "@
        + sh_single_quote_spec(contents) + " > \"$path\""@
}

/// PowerShell that prints a file if it exists.
pub open spec fn read_file_powershell_spec(path: Seq<char>) -> Seq<char> {
    "$ErrorActionPreference='Stop'; if (Test-Path -LiteralPath "@ + powershell_single_quote_spec(path)
        + ") { Get-Content -Raw -LiteralPath "@ + powershell_single_quote_spec(path) + " }"@
}

/// `sh` that prints a file if it exists.
pub open spec fn read_file_sh_spec(path: Seq<char>) -> Seq<char> {
    "if [ -f "@ + sh_single_quote_spec(path) + " ]; then cat -- "@ + sh_single_quote_spec(path) + "; fi"@
}

/// PowerShell that prints the first `<name>_autogen` phony target of a
/// `build.ninja`, if the file exists.
pub open spec fn first_autogen_script_spec(path: Seq<char>) -> Seq<char> {
    "$ErrorActionPreference='Stop'; if (!(Test-Path -LiteralPath "@ + powershell_single_quote_spec(path)
        + ")) { return }; Select-String -LiteralPath "@ + powershell_single_quote_spec(path)
        + " -Pattern '^build ([^: ]+_autogen): phony' | ForEach-Object { $_.Matches[0].Groups[1].Value } | Select-Object -First 1"@
}

/// The script that tests whether a host path exists.
pub fn host_path_exists_script(path: &str) -> (r: String)
    ensures
        r@ == host_path_exists_script_spec(path@),
{
    let mut s = owned("$ErrorActionPreference='Stop'; if (Test-Path -LiteralPath ");
    let q = powershell_single_quote(path);
    append_str(&mut s, q.as_str());
    append_str(&mut s, ") { 'true' } else { 'false' }");
    s
}

/// The PowerShell script that tests whether a workspace file exists.
pub fn workspace_exists_powershell_script(path: &str) -> (r: String)
    ensures
        r@ == workspace_exists_powershell_spec(path@),
{
    let mut s = owned("if (Test-Path -LiteralPath ");
    let q = powershell_single_quote(path);
    append_str(&mut s, q.as_str());
    append_str(&mut s, ") { 'True' } else { 'False' }");
    s
}

/// The `sh` script that tests whether a workspace file exists.
pub fn workspace_exists_sh_script(path: &str) -> (r: String)
    ensures
        r@ == workspace_exists_sh_spec(path@),
{
    let mut s = owned("if [ -e ");
    let q = sh_single_quote(path);
    append_str(&mut s, q.as_str());
    append_str(&mut s, " ]; then printf true; else printf false; fi");
    s
}

/// The PowerShell script that writes a workspace file.
pub fn write_powershell_text_file_script(path: &str, contents: &str) -> (r: String)
    ensures
        r@ == write_powershell_text_file_spec(path@, contents@),
{
    let mut s = owned("$ErrorActionPreference='Stop'; $path = ");
    let qp = powershell_single_quote(path);
    append_str(&mut s, qp.as_str());
    append_str(
        &mut s,
        "; $dir = Split-Path -Parent $path; if ($dir) { New-Item -ItemType Directory -Force -Path $dir | Out-Null }; $encoding = New-Object System.Text.UTF8Encoding($false); [System.IO.File]::WriteAllText($path, ",
    );
    let qc = powershell_single_quote(contents);
    append_str(&mut s, qc.as_str());
    append_str(&mut s, ", $encoding)");
    s
}

/// The `sh` script that writes a workspace file.
pub fn write_sh_text_file_script(path: &str, contents: &str) -> (r: String)
    ensures
        r@ == write_sh_text_file_spec(path@, contents@),
{
    let mut s = owned("path=");
    let qp = sh_single_quote(path);
    append_str(&mut s, qp.as_str());
    append_str(&mut s, "; mkdir -p -- \"$(dirname -- \"$path\")\" && printf %s ");
    let qc = sh_single_quote(contents);
    append_str(&mut s, qc.as_str());
    append_str(&mut s, " > \"$path\"");
    s
}

/// The PowerShell script that prints a file if it exists.
pub fn read_file_powershell_script(path: &str) -> (r: String)
    ensures
        r@ == read_file_powershell_spec(path@),
{
    let q = powershell_single_quote(path);
    let mut s = owned("$ErrorActionPreference='Stop'; if (Test-Path -LiteralPath ");
    append_str(&mut s, q.as_str());
    append_str(&mut s, ") { Get-Content -Raw -LiteralPath ");
    append_str(&mut s, q.as_str());
    append_str(&mut s, " }");
    s
}

/// The `sh` script that prints a file if it exists.
pub fn read_file_sh_script(path: &str) -> (r: String)
    ensures
        r@ == read_file_sh_spec(path@),
{
    let q = sh_single_quote(path);
    let mut s = owned("if [ -f ");
    append_str(&mut s, q.as_str());
    append_str(&mut s, " ]; then cat -- ");
    append_str(&mut s, q.as_str());
    append_str(&mut s, "; fi");
    s
}

/// The script that finds the first autogen target of a `build.ninja`.
pub fn first_autogen_script(path: &str) -> (r: String)
    ensures
        r@ == first_autogen_script_spec(path@),
{
    let q = powershell_single_quote(path);
    let mut s = owned("$ErrorActionPreference='Stop'; if (!(Test-Path -LiteralPath ");
    append_str(&mut s, q.as_str());
    append_str(&mut s, ")) { return }; Select-String -LiteralPath ");
    append_str(&mut s, q.as_str());
    append_str(
        &mut s,
        " -Pattern '^build ([^: ]+_autogen): phony' | ForEach-Object { $_.Matches[0].Groups[1].Value } | Select-Object -First 1",
    );
    s
}

// ---------------------------------------------------------------------------
// Running the scripts
// ---------------------------------------------------------------------------

/// Whether a printed answer says `true`, ignoring white space and ASCII case.
pub open spec fn says_true_ignoring_case(stdout: Seq<char>) -> bool {
    ascii_lower_seq(trim_ws(stdout)) == ascii_lower_seq("true"@)
}

/// Whether the existence test printed a yes: `true` in any case for
/// PowerShell, exactly `true` (after trimming) for `sh`.
pub open spec fn workspace_says_exists(root_path: Seq<char>, stdout: Seq<char>) -> bool {
    if shell_for_root_path_spec(root_path) == ShellKind::Powershell {
        says_true_ignoring_case(stdout)
    } else {
        trim_ws(stdout) == "true"@
    }
}

/// Whether PowerShell's answer says `true`, ignoring case and white space.
pub fn host_answer_is_true(stdout: &str) -> (r: bool)
    ensures
        r == says_true_ignoring_case(stdout@),
{
    let t = string_of(&trim_ws_exec(&chars_of(stdout)));
    eq_ignore_ascii_case(t.as_str(), "true")
}

/// Whether the existence test of a workspace file answered yes.
pub fn workspace_answer_is_true(root_path: &str, stdout: &str) -> (r: bool)
    ensures
        r == workspace_says_exists(root_path@, stdout@),
{
    match shell_for_root_path(root_path) {
        ShellKind::Powershell => host_answer_is_true(stdout),
        ShellKind::Sh => {
            let t = string_of(&trim_ws_exec(&chars_of(stdout)));
            str_eq(t.as_str(), "true")
        },
    }
}

/// What reading a file printed: the text, or `None` when nothing was
/// printed (the file is missing or empty).
pub fn printed_text(stdout: String) -> (r: Option<String>)
    ensures
        match r {
            Some(t) => t@ == stdout@ && stdout@.len() > 0,
            None => stdout@.len() == 0,
        },
{
    if stdout.as_str().is_empty() {
        None
    } else {
        Some(stdout)
    }
}

/// The program that runs workspace scripts for a root: PowerShell for a
/// Windows root, `sh` otherwise.
pub open spec fn shell_program(root_path: Seq<char>) -> Seq<char> {
    if shell_for_root_path_spec(root_path) == ShellKind::Powershell {
        "powershell"@
    } else {
        "sh"@
    }
}

/// The arguments that run an `sh` script.
pub open spec fn sh_args(script: Seq<char>) -> Seq<Seq<char>> {
    seq!["-c"@, script]
}

/// The arguments of the workspace shell: the PowerShell script for a
/// Windows root, the `sh` script otherwise.
pub open spec fn shell_args(root_path: Seq<char>, powershell_script: Seq<char>, sh_script: Seq<char>) -> Seq<
    Seq<char>,
> {
    if shell_for_root_path_spec(root_path) == ShellKind::Powershell {
        powershell_args(powershell_script)
    } else {
        sh_args(sh_script)
    }
}

/// The arguments that test whether a workspace file exists.
pub open spec fn workspace_exists_args(root_path: Seq<char>, components: Seq<Seq<char>>) -> Seq<Seq<char>> {
    shell_args(
        root_path,
        workspace_exists_powershell_spec(windows_components_spec(root_path, components)),
        workspace_exists_sh_spec(unix_components_spec(root_path, components)),
    )
}

/// The arguments that write a workspace file.
pub open spec fn workspace_write_args(root_path: Seq<char>, components: Seq<Seq<char>>, contents: Seq<char>) -> Seq<
    Seq<char>,
> {
    shell_args(
        root_path,
        write_powershell_text_file_spec(windows_components_spec(root_path, components), contents),
        write_sh_text_file_spec(unix_components_spec(root_path, components), contents),
    )
}

/// The components of `.clangd` below the root.
pub open spec fn clangd_components() -> Seq<Seq<char>> {
    seq![".clangd"@]
}

/// The components of `.zed/tasks.json` below the root.
pub open spec fn tasks_components() -> Seq<Seq<char>> {
    seq![".zed"@, "tasks.json"@]
}

/// Where a build directory's `build.ninja` is on a Windows host.
pub open spec fn windows_build_ninja_path(root_path: Seq<char>, build_dir: Seq<char>) -> Seq<char> {
    join_windows_path_spec(join_windows_path_spec(root_path, build_dir), "build.ninja"@)
}

/// The arguments that print a build directory's `build.ninja`.
pub open spec fn read_build_ninja_args(root_path: Seq<char>, build_dir: Seq<char>) -> Seq<Seq<char>> {
    shell_args(
        root_path,
        read_file_powershell_spec(windows_build_ninja_path(root_path, build_dir)),
        read_file_sh_spec(unix_components_spec(root_path, seq![build_dir, "build.ninja"@])),
    )
}

/// A yes/no answer read from what a script printed, or the failure.
pub open spec fn bool_answer(answer: Result<Seq<char>, ToolkitErrorView>, yes: spec_fn(Seq<char>) -> bool) -> Result<
    bool,
    ToolkitErrorView,
> {
    match answer {
        Ok(stdout) => Ok(yes(stdout)),
        Err(e) => Err(e),
    }
}

/// The model of a yes/no result.
pub open spec fn bool_result_view(r: ToolkitResult<bool>) -> Result<bool, ToolkitErrorView> {
    match r {
        Ok(b) => Ok(b),
        Err(e) => Err(e@),
    }
}

/// The model of a result with nothing in it.
pub open spec fn unit_result_view(r: ToolkitResult<()>) -> Result<(), ToolkitErrorView> {
    match r {
        Ok(_) => Ok(()),
        Err(e) => Err(e@),
    }
}

/// The model of an optional text result.
pub open spec fn opt_text_result_view(r: ToolkitResult<Option<String>>) -> Result<Option<Seq<char>>, ToolkitErrorView> {
    match r {
        Ok(t) => Ok(crate::text::opt_view(t)),
        Err(e) => Err(e@),
    }
}

/// The last answer of a transcript, as its caller sees it.
pub open spec fn last_stdout(t: Seq<RunnerCall>) -> Result<Seq<char>, ToolkitErrorView> {
    answer_stdout(t.last().program, t.last().answer)
}

/// Runs a PowerShell script and returns what it printed on success.
fn run_powershell<R: CommandRunner>(runner: &mut TranscribedRunner<R>, script: String) -> (r: ToolkitResult<String>)
    ensures
        one_more_call(old(runner).transcript(), final(runner).transcript(), "powershell"@, powershell_args(script@)),
        string_result_view(r) == last_stdout(final(runner).transcript()),
{
    let args = powershell_command_args(script);
    let output = match runner.run_command("powershell", args.as_slice()) {
        Ok(o) => o,
        Err(e) => return Err(e),
    };
    ensure_success("powershell", output)
}

/// Runs an `sh` script and returns what it printed on success.
fn run_sh<R: CommandRunner>(runner: &mut TranscribedRunner<R>, script: String) -> (r: ToolkitResult<String>)
    ensures
        one_more_call(old(runner).transcript(), final(runner).transcript(), "sh"@, sh_args(script@)),
        string_result_view(r) == last_stdout(final(runner).transcript()),
{
    let ghost s = script@;
    let args = vec![owned("-c"), script];
    assert(strs_view(args@) =~= sh_args(s));
    let output = match runner.run_command("sh", args.as_slice()) {
        Ok(o) => o,
        Err(e) => return Err(e),
    };
    ensure_success("sh", output)
}

/// Whether a path exists on the Windows host, asked through PowerShell with
/// one call: the answer is whether the script printed `true` (ignoring case
/// and white space); a failure to run it is passed on.
pub fn host_path_exists<R: CommandRunner>(runner: &mut TranscribedRunner<R>, path: &str) -> (r: ToolkitResult<bool>)
    ensures
        one_more_call(
            old(runner).transcript(),
            final(runner).transcript(),
            "powershell"@,
            powershell_args(host_path_exists_script_spec(path@)),
        ),
        bool_result_view(r) == bool_answer(
            last_stdout(final(runner).transcript()),
            |stdout: Seq<char>| says_true_ignoring_case(stdout),
        ),
{
    let script = host_path_exists_script(path);
    let stdout = match run_powershell(runner, script) {
        Ok(s) => s,
        Err(e) => return Err(e),
    };
    Ok(host_answer_is_true(stdout.as_str()))
}

/// Whether a file below the workspace root exists, asked with one call:
/// PowerShell for a Windows root (an answer of `true` in any case), `sh`
/// otherwise (exactly `true` after trimming).
pub fn workspace_file_exists<R: CommandRunner>(root_path: &str, components: &[&str], runner: &mut TranscribedRunner<R>) -> (r:
    ToolkitResult<bool>)
    ensures
        one_more_call(
            old(runner).transcript(),
            final(runner).transcript(),
            shell_program(root_path@),
            workspace_exists_args(root_path@, strs_of(components@)),
        ),
        bool_result_view(r) == bool_answer(
            last_stdout(final(runner).transcript()),
            |stdout: Seq<char>| workspace_says_exists(root_path@, stdout),
        ),
{
    let stdout = match shell_for_root_path(root_path) {
        ShellKind::Powershell => {
            let path = join_windows_components(root_path, components);
            match run_powershell(runner, workspace_exists_powershell_script(path.as_str())) {
                Ok(s) => s,
                Err(e) => return Err(e),
            }
        },
        ShellKind::Sh => {
            let path = join_unix_components(root_path, components);
            match run_sh(runner, workspace_exists_sh_script(path.as_str())) {
                Ok(s) => s,
                Err(e) => return Err(e),
            }
        },
    };
    Ok(workspace_answer_is_true(root_path, stdout.as_str()))
}

/// Writes a file below the workspace root with one call: PowerShell for a
/// Windows root, `sh` otherwise. The result is `Ok` exactly when the script
/// ran and exited with status 0.
pub fn write_workspace_text_file<R: CommandRunner>(
    root_path: &str,
    components: &[&str],
    contents: &str,
    runner: &mut TranscribedRunner<R>,
) -> (r: ToolkitResult<()>)
    ensures
        one_more_call(
            old(runner).transcript(),
            final(runner).transcript(),
            shell_program(root_path@),
            workspace_write_args(root_path@, strs_of(components@), contents@),
        ),
        match last_stdout(final(runner).transcript()) {
            Ok(_) => r is Ok,
            Err(e) => r matches Err(x) && x@ == e,
        },
{
    let printed = match shell_for_root_path(root_path) {
        ShellKind::Powershell => {
            let path = join_windows_components(root_path, components);
            run_powershell(runner, write_powershell_text_file_script(path.as_str(), contents))
        },
        ShellKind::Sh => {
            let path = join_unix_components(root_path, components);
            run_sh(runner, write_sh_text_file_script(path.as_str(), contents))
        },
    };
    match printed {
        Ok(_) => Ok(()),
        Err(e) => Err(e),
    }
}

/// Writes `<root>/.clangd` with one call.
pub fn write_clangd_file<R: CommandRunner>(root_path: &str, contents: &str, runner: &mut TranscribedRunner<R>) -> (r: ToolkitResult<()>)
    ensures
        one_more_call(
            old(runner).transcript(),
            final(runner).transcript(),
            shell_program(root_path@),
            workspace_write_args(root_path@, clangd_components(), contents@),
        ),
        match last_stdout(final(runner).transcript()) {
            Ok(_) => r is Ok,
            Err(e) => r matches Err(x) && x@ == e,
        },
{
    let components: [&str; 1] = [".clangd"];
    assert(strs_of(components@) =~= clangd_components());
    write_workspace_text_file(root_path, &components, contents, runner)
}

/// Writes `<root>/.zed/tasks.json` with one call.
pub fn write_tasks_file<R: CommandRunner>(root_path: &str, contents: &str, runner: &mut TranscribedRunner<R>) -> (r: ToolkitResult<()>)
    ensures
        one_more_call(
            old(runner).transcript(),
            final(runner).transcript(),
            shell_program(root_path@),
            workspace_write_args(root_path@, tasks_components(), contents@),
        ),
        match last_stdout(final(runner).transcript()) {
            Ok(_) => r is Ok,
            Err(e) => r matches Err(x) && x@ == e,
        },
{
    let components: [&str; 2] = [".zed", "tasks.json"];
    assert(strs_of(components@) =~= tasks_components());
    write_workspace_text_file(root_path, &components, contents, runner)
}

/// What reading a file gives: the text, `None` when nothing was printed,
/// or the failure.
pub open spec fn printed_text_answer(answer: Result<Seq<char>, ToolkitErrorView>) -> Result<
    Option<Seq<char>>,
    ToolkitErrorView,
> {
    match answer {
        Ok(stdout) => Ok(if stdout.len() == 0 { None } else { Some(stdout) }),
        Err(e) => Err(e),
    }
}

/// The text of `<root>/<build_dir>/build.ninja`, read with one call
/// (PowerShell for a Windows root, `sh` otherwise), or `None` when the file
/// is missing or empty.
pub fn read_cmake_build_ninja<R: CommandRunner>(root_path: &str, build_dir: &str, runner: &mut TranscribedRunner<R>) -> (r:
    ToolkitResult<Option<String>>)
    ensures
        one_more_call(
            old(runner).transcript(),
            final(runner).transcript(),
            shell_program(root_path@),
            read_build_ninja_args(root_path@, build_dir@),
        ),
        opt_text_result_view(r) == printed_text_answer(last_stdout(final(runner).transcript())),
{
    let stdout = match shell_for_root_path(root_path) {
        ShellKind::Powershell => {
            let dir = join_windows_path(root_path, build_dir);
            let path = join_windows_path(dir.as_str(), "build.ninja");
            match run_powershell(runner, read_file_powershell_script(path.as_str())) {
                Ok(s) => s,
                Err(e) => return Err(e),
            }
        },
        ShellKind::Sh => {
            let components: [&str; 2] = [build_dir, "build.ninja"];
            let path = join_unix_components(root_path, &components);
            assert(strs_of(components@) =~= seq![build_dir@, "build.ninja"@]);
            match run_sh(runner, read_file_sh_script(path.as_str())) {
                Ok(s) => s,
                Err(e) => return Err(e),
            }
        },
    };
    Ok(printed_text(stdout))
}

/// What the autogen query gives: the first non-blank line printed,
/// trimmed, or the failure.
pub open spec fn autogen_answer(answer: Result<Seq<char>, ToolkitErrorView>) -> Result<
    Option<Seq<char>>,
    ToolkitErrorView,
> {
    match answer {
        Ok(stdout) => Ok(first_trimmed_line(stdout)),
        Err(e) => Err(e),
    }
}

/// The first `*_autogen` target declared in `<root>\<build_dir>\build.ninja`
/// (as PowerShell found it, with one call): the first non-blank line it
/// printed, trimmed.
pub fn first_autogen_target<R: CommandRunner>(root_path: &str, build_dir_name: &str, runner: &mut TranscribedRunner<R>) -> (r:
    ToolkitResult<Option<String>>)
    ensures
        one_more_call(
            old(runner).transcript(),
            final(runner).transcript(),
            "powershell"@,
            powershell_args(first_autogen_script_spec(windows_build_ninja_path(root_path@, build_dir_name@))),
        ),
        opt_text_result_view(r) == autogen_answer(last_stdout(final(runner).transcript())),
{
    let dir = join_windows_path(root_path, build_dir_name);
    let path = join_windows_path(dir.as_str(), "build.ninja");
    let stdout = match run_powershell(runner, first_autogen_script(path.as_str())) {
        Ok(s) => s,
        Err(e) => return Err(e),
    };
    let t = first_trimmed_line_exec(stdout.as_str());
    Ok(t)
}

} // verus!
