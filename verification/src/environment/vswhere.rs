//! Finding Visual Studio with `vswhere.exe`.
use crate::environment::tools::{answer_stdout, ensure_success, one_more_call, CommandRunner};
use crate::environment::tools::string_result_view;
use crate::error::{ToolkitError, ToolkitErrorView, ToolkitResult};
use crate::text::{first_trimmed_line, first_trimmed_line_exec, owned, strs_view};
use crate::environment::tools::TranscribedRunner;
use vstd::prelude::*;

verus! {

/// Where the Visual Studio installer puts `vswhere.exe`.
pub const VSWHERE_PATH: &'static str = "C:\\Program Files (x86)\\Microsoft Visual Studio\\Installer\\vswhere.exe";

/// The installation path `vswhere` printed: its first non-blank line,
/// trimmed.
pub open spec fn installation_path_spec(stdout: Seq<char>) -> Option<Seq<char>> {
    first_trimmed_line(stdout)
}

/// The installation path `vswhere` printed.
pub fn parse_installation_path(stdout: &str) -> (r: Option<String>)
    ensures
        crate::text::opt_view(r) == installation_path_spec(stdout@),
{
    first_trimmed_line_exec(stdout)
}

/// The arguments that ask `vswhere` for the newest installation with the
/// C++ tools.
pub open spec fn vswhere_args_spec() -> Seq<Seq<char>> {
    seq![
        "-latest"@,
        "-products"@,
        "*"@,
        "-requires"@,
        "Microsoft.VisualStudio.Component.VC.Tools.x86.x64"@,
        "-property"@,
        "installationPath"@,
    ]
}

/// The arguments of the `vswhere` query.
pub fn vswhere_args() -> (r: Vec<String>)
    ensures
        strs_view(r@) == vswhere_args_spec(),
{
    let r = vec![
        owned("-latest"),
        owned("-products"),
        owned("*"),
        owned("-requires"),
        owned("Microsoft.VisualStudio.Component.VC.Tools.x86.x64"),
        owned("-property"),
        owned("installationPath"),
    ];
    assert(strs_view(r@) =~= seq![
        "-latest"@,
        "-products"@,
        "*"@,
        "-requires"@,
        "Microsoft.VisualStudio.Component.VC.Tools.x86.x64"@,
        "-property"@,
        "installationPath"@,
    ]);
    r
}

/// What the `vswhere` query gives: the first non-blank line it printed,
/// trimmed; `MissingVisualStudio` when it printed none; the failure when it
/// did not run or exited unsuccessfully.
pub open spec fn visual_studio_from_answer(answer: Result<Seq<char>, ToolkitErrorView>) -> Result<
    Seq<char>,
    ToolkitErrorView,
> {
    match answer {
        Ok(stdout) => match installation_path_spec(stdout) {
            Some(root) => Ok(root),
            None => Err(ToolkitErrorView::MissingVisualStudio),
        },
        Err(e) => Err(e),
    }
}

/// The root of the newest Visual Studio installation, asked of `vswhere`
/// with one call.
pub fn discover_visual_studio<R: CommandRunner>(runner: &mut TranscribedRunner<R>) -> (r: ToolkitResult<String>)
    ensures
        one_more_call(old(runner).transcript(), final(runner).transcript(), VSWHERE_PATH@, vswhere_args_spec()),
        string_result_view(r) == visual_studio_from_answer(
            answer_stdout(VSWHERE_PATH@, final(runner).transcript().last().answer),
        ),
{
    let args = vswhere_args();
    let output = match runner.run_command(VSWHERE_PATH, args.as_slice()) {
        Ok(o) => o,
        Err(e) => return Err(e),
    };
    let stdout = match ensure_success(VSWHERE_PATH, output) {
        Ok(s) => s,
        Err(e) => return Err(e),
    };
    match parse_installation_path(stdout.as_str()) {
        Some(root) => Ok(root),
        None => Err(ToolkitError::MissingVisualStudio),
    }
}

} // verus!
