//! The shell a task command runs in.
use crate::config::merge::{is_windows_path, is_windows_path_spec, HostPlatform};
use crate::text::{owned, strs_view};
use vstd::prelude::*;

verus! {

/// The shell that runs task commands.
#[derive(Debug, Clone, Copy, PartialEq, Eq, Structural)]
pub enum ShellKind {
    Powershell,
    Sh,
}

/// The shell used on a platform: PowerShell on Windows, `sh` elsewhere.
pub fn default_shell_for_platform(platform: HostPlatform) -> (r: ShellKind)
    ensures
        r == (if platform == HostPlatform::Windows {
            ShellKind::Powershell
        } else {
            ShellKind::Sh
        }),
{
    match platform {
        HostPlatform::Windows => ShellKind::Powershell,
        _ => ShellKind::Sh,
    }
}

/// The path separator of the platform the code runs on
/// (`std::path::MAIN_SEPARATOR`): `\` on Windows, `/` elsewhere.
#[verifier::external_body]
fn main_separator() -> (r: char)
    ensures
        r == '/' || r == '\\',
{
    std::path::MAIN_SEPARATOR
}

/// The shell of the platform whose path separator is `separator`:
/// PowerShell where it is `\`, `sh` otherwise.
pub fn shell_for_separator(separator: char) -> (r: ShellKind)
    ensures
        r == (if separator == '\\' {
            ShellKind::Powershell
        } else {
            ShellKind::Sh
        }),
{
    if separator == '\\' {
        ShellKind::Powershell
    } else {
        ShellKind::Sh
    }
}

/// The shell of the platform the extension runs on. Which platform that is
/// the library cannot know; the choice itself is `shell_for_separator`.
pub fn default_shell_for_current_platform() -> ShellKind {
    shell_for_separator(main_separator())
}

/// The shell of a workspace, judged by its root path.
pub open spec fn shell_for_root_path_spec(root_path: Seq<char>) -> ShellKind {
    if is_windows_path_spec(root_path) {
        ShellKind::Powershell
    } else {
        ShellKind::Sh
    }
}

/// The shell of a workspace: PowerShell for a Windows root path, `sh`
/// otherwise.
pub fn shell_for_root_path(root_path: &str) -> (r: ShellKind)
    ensures
        r == shell_for_root_path_spec(root_path@),
{
    if is_windows_path(root_path) {
        ShellKind::Powershell
    } else {
        ShellKind::Sh
    }
}

/// The program and arguments that run a command line in a shell.
pub open spec fn wrap_command_spec(shell: ShellKind, command: Seq<char>) -> (Seq<char>, Seq<Seq<char>>) {
    match shell {
        ShellKind::Powershell => ("powershell"@, seq!["-NoProfile"@, "-Command"@, command]),
        ShellKind::Sh => (command, seq![]),
    }
}

/// The program and arguments that run a command line: PowerShell gets it
/// through `-NoProfile -Command`, with `sh` the line itself is the command.
pub fn wrap_command(shell: ShellKind, command: &str) -> (r: (String, Vec<String>))
    ensures
        (r.0@, strs_view(r.1@)) == wrap_command_spec(shell, command@),
{
    match shell {
        ShellKind::Powershell => {
            let args = vec![owned("-NoProfile"), owned("-Command"), owned(command)];
            assert(strs_view(args@) =~= seq!["-NoProfile"@, "-Command"@, command@]);
            (owned("powershell"), args)
        },
        ShellKind::Sh => {
            let args: Vec<String> = Vec::new();
            assert(strs_view(args@) =~= seq![]);
            (owned(command), args)
        },
    }
}

} // verus!
