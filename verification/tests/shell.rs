use cpp_toolkit::build::shell::{default_shell_for_current_platform, shell_for_root_path, wrap_command, ShellKind};

#[test]
fn wraps_powershell_command() {
    let (command, args) = wrap_command(ShellKind::Powershell, "cmake --build build");
    assert_eq!(command, "powershell");
    assert_eq!(args, vec!["-NoProfile", "-Command", "cmake --build build"]);
}

#[test]
fn wraps_sh_command() {
    let (command, args) = wrap_command(ShellKind::Sh, "cmake --build build");
    assert_eq!(command, "cmake --build build");
    assert!(args.is_empty());
}

#[test]
fn default_shell_matches_current_platform() {
    let expected = if std::path::MAIN_SEPARATOR == '\\' {
        ShellKind::Powershell
    } else {
        ShellKind::Sh
    };

    assert_eq!(default_shell_for_current_platform(), expected);
}

#[test]
fn infers_shell_from_root_path() {
    assert_eq!(shell_for_root_path(r"C:\repo"), ShellKind::Powershell);
    assert_eq!(shell_for_root_path("C:/repo"), ShellKind::Powershell);
    assert_eq!(shell_for_root_path("/home/me/repo"), ShellKind::Sh);
}
