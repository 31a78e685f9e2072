//! Tasks for MSVC: commands run inside the Visual Studio developer
//! environment.
use crate::config::schema::{EffectiveBuildView, EffectiveConfig, EffectiveConfigView, EffectiveRunView};
use crate::environment::tools::{answer_stdout, CommandOutputView, CommandRunner};
use crate::environment::vswhere::{discover_visual_studio, visual_studio_from_answer, VSWHERE_PATH};
use crate::error::{ToolkitErrorView, ToolkitResult};
use crate::paths::{join_windows_path, join_windows_path_spec};
use crate::quoting::{
    cmd_quote, cmd_quote_spec, law_powershell_quote_reads_back, powershell_quoted_value, powershell_single_quote,
    powershell_single_quote_spec,
};
use crate::text::{append_str, opt_view, owned};
use crate::environment::tools::TranscribedRunner;
use vstd::prelude::*;

verus! {

/// `VsDevCmd.bat` of a Visual Studio installation.
pub open spec fn vs_dev_cmd_spec(vs_root: Seq<char>) -> Seq<char> {
    join_windows_path_spec(vs_root, "Common7\\Tools\\VsDevCmd.bat"@)
}

/// The `cmd.exe` line that enters the x64 developer environment and then
/// runs `command`.
pub open spec fn dev_cmd_line_spec(vs_dev_cmd: Seq<char>, command: Seq<char>) -> Seq<char> {
    "call "@ + cmd_quote_spec(vs_dev_cmd) + " -arch=x64 -host_arch=x64 && "@ + command
}

/// A PowerShell command that runs `command` inside the developer
/// environment.
pub open spec fn developer_environment_spec(vs_dev_cmd: Seq<char>, command: Seq<char>) -> Seq<char> {
    "& cmd.exe /S /C "@ + powershell_single_quote_spec(dev_cmd_line_spec(vs_dev_cmd, command))
}

/// An optional command run inside the developer environment.
pub open spec fn wrap_optional_spec(command: Option<Seq<char>>, vs_dev_cmd: Seq<char>) -> Option<Seq<char>> {
    match command {
        Some(c) => Some(developer_environment_spec(vs_dev_cmd, c)),
        None => None,
    }
}

/// The configuration with its configure, build, clean and run commands
/// (and their templates) wrapped for the developer environment of the
/// installation at `vs_root`.
pub open spec fn msvc_task_config_spec(config: EffectiveConfigView, vs_root: Seq<char>) -> EffectiveConfigView {
    let vs = vs_dev_cmd_spec(vs_root);
    EffectiveConfigView {
        build: EffectiveBuildView {
            configure: wrap_optional_spec(config.build.configure, vs),
            configure_template: wrap_optional_spec(config.build.configure_template, vs),
            build: wrap_optional_spec(config.build.build, vs),
            build_template: wrap_optional_spec(config.build.build_template, vs),
            clean: wrap_optional_spec(config.build.clean, vs),
            clean_template: wrap_optional_spec(config.build.clean_template, vs),
            ..config.build
        },
        run: EffectiveRunView {
            command: wrap_optional_spec(config.run.command, vs),
            command_template: wrap_optional_spec(config.run.command_template, vs),
            ..config.run
        },
        ..config
    }
}

/// The `cmd.exe` line that enters the developer environment and runs a
/// command.
pub fn dev_cmd_line(vs_dev_cmd: &str, command: &str) -> (r: String)
    ensures
        r@ == dev_cmd_line_spec(vs_dev_cmd@, command@),
{
    let mut s = owned("call ");
    let q = cmd_quote(vs_dev_cmd);
    append_str(&mut s, q.as_str());
    append_str(&mut s, " -arch=x64 -host_arch=x64 && ");
    append_str(&mut s, command);
    s
}

/// A PowerShell command that runs `command` inside the developer
/// environment.
pub fn developer_environment_script(vs_dev_cmd: &str, command: &str) -> (r: String)
    ensures
        r@ == developer_environment_spec(vs_dev_cmd@, command@),
{
    let line = dev_cmd_line(vs_dev_cmd, command);
    let mut s = owned("& cmd.exe /S /C ");
    let q = powershell_single_quote(line.as_str());
    append_str(&mut s, q.as_str());
    s
}

/// An optional command run inside the developer environment.
pub fn wrap_optional_command(command: Option<String>, vs_dev_cmd: &str) -> (r: Option<String>)
    ensures
        opt_view(r) == wrap_optional_spec(opt_view(command), vs_dev_cmd@),
{
    match command {
        Some(c) => Some(developer_environment_script(vs_dev_cmd, c.as_str())),
        None => None,
    }
}

/// The configuration wrapped for the developer environment of a given
/// Visual Studio installation.
pub fn wrap_for_visual_studio(config: &EffectiveConfig, visual_studio_root: &str) -> (r: EffectiveConfig)
    ensures
        r@ == msvc_task_config_spec(config@, visual_studio_root@),
{
    let vs_dev_cmd = join_windows_path(visual_studio_root, "Common7\\Tools\\VsDevCmd.bat");
    let mut prepared = config.duplicate();
    prepared.build.configure = wrap_optional_command(prepared.build.configure, vs_dev_cmd.as_str());
    prepared.build.configure_template = wrap_optional_command(
        prepared.build.configure_template,
        vs_dev_cmd.as_str(),
    );
    prepared.build.build = wrap_optional_command(prepared.build.build, vs_dev_cmd.as_str());
    prepared.build.build_template = wrap_optional_command(prepared.build.build_template, vs_dev_cmd.as_str());
    prepared.build.clean = wrap_optional_command(prepared.build.clean, vs_dev_cmd.as_str());
    prepared.build.clean_template = wrap_optional_command(prepared.build.clean_template, vs_dev_cmd.as_str());
    prepared.run.command = wrap_optional_command(prepared.run.command, vs_dev_cmd.as_str());
    prepared.run.command_template = wrap_optional_command(prepared.run.command_template, vs_dev_cmd.as_str());
    prepared
}

/// The configuration for tasks given `vswhere`'s answer: wrapped for the
/// installation it printed, or the failure (`MissingVisualStudio` when it
/// printed none).
pub open spec fn prepared_for_answer(
    config: EffectiveConfigView,
    answer: Result<CommandOutputView, ToolkitErrorView>,
) -> Result<EffectiveConfigView, ToolkitErrorView> {
    match visual_studio_from_answer(answer_stdout(VSWHERE_PATH@, answer)) {
        Ok(vs_root) => Ok(msvc_task_config_spec(config, vs_root)),
        Err(e) => Err(e),
    }
}

/// Finds Visual Studio and wraps the task commands for its developer
/// environment; a failure to find Visual Studio is passed on. On success
/// the installation is the one `vswhere` printed.
pub fn prepare_task_config<R: CommandRunner>(config: &EffectiveConfig, runner: &mut TranscribedRunner<R>) -> (r: ToolkitResult<
    EffectiveConfig,
>)
    ensures
        crate::environment::tools::one_more_call(
            old(runner).transcript(),
            final(runner).transcript(),
            crate::environment::vswhere::VSWHERE_PATH@,
            crate::environment::vswhere::vswhere_args_spec(),
        ),
        match prepared_for_answer(config@, final(runner).transcript().last().answer) {
            Ok(c) => r matches Ok(p) && p@ == c,
            Err(e) => r matches Err(x) && x@ == e,
        },
{
    let visual_studio_root = match discover_visual_studio(runner) {
        Ok(v) => v,
        Err(e) => return Err(e),
    };
    let prepared = wrap_for_visual_studio(config, visual_studio_root.as_str());
    Ok(prepared)
}

/// A command wrapped for the developer environment hands `cmd.exe` the
/// whole developer command line as one PowerShell single-quoted argument:
/// it is `& cmd.exe /S /C '`, then an inside that reads back as exactly the
/// line that calls `VsDevCmd.bat` and then runs the command, then `'`; so
/// PowerShell never sees the `&&` itself.
pub proof fn law_developer_environment_is_one_quoted_argument(vs_dev_cmd: Seq<char>, command: Seq<char>)
    ensures
        exists|inside: Seq<char>|
            developer_environment_spec(vs_dev_cmd, command) == #[trigger] ("& cmd.exe /S /C '"@ + inside + "'"@)
                && powershell_quoted_value(inside) == Some(dev_cmd_line_spec(vs_dev_cmd, command)),
{
    reveal_strlit("& cmd.exe /S /C ");
    reveal_strlit("& cmd.exe /S /C '");
    reveal_strlit("'");
    let line = dev_cmd_line_spec(vs_dev_cmd, command);
    law_powershell_quote_reads_back(line);
    let inside = choose|inside: Seq<char>|
        powershell_single_quote_spec(line) == #[trigger] ("'"@ + inside + "'"@) && powershell_quoted_value(inside)
            == Some(line);
    assert("& cmd.exe /S /C "@ + ("'"@ + inside + "'"@) =~= "& cmd.exe /S /C '"@ + inside + "'"@);
}

} // verus!
