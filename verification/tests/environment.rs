use cpp_toolkit::environment::msvc::select_msvc_include;
use cpp_toolkit::environment::tools::{require_clangd, CommandOutput, CommandRunner, TranscribedRunner};
use cpp_toolkit::environment::vswhere::parse_installation_path;
use cpp_toolkit::environment::windows_sdk::{discover_windows_sdk_includes, select_windows_sdk_includes};
use cpp_toolkit::error::{ToolkitError, ToolkitResult};
use std::cell::RefCell;
use std::collections::VecDeque;

struct QueueRunner {
    outputs: RefCell<VecDeque<CommandOutput>>,
}

impl QueueRunner {
    fn new(outputs: impl IntoIterator<Item = CommandOutput>) -> Self {
        Self {
            outputs: RefCell::new(outputs.into_iter().collect()),
        }
    }
}

impl CommandRunner for QueueRunner {
    fn run_command(&self, _command: &str, _args: &[String]) -> ToolkitResult<CommandOutput> {
        self.outputs
            .borrow_mut()
            .pop_front()
            .ok_or_else(|| ToolkitError::IoMessage("unexpected command".to_string()))
    }
}

#[test]
fn selects_highest_msvc_include_path() {
    let selected = select_msvc_include(
        &["14.38.33130", "14.40.33807", "14.9.99999"],
        r"C:\Program Files\Microsoft Visual Studio\2022\Community",
    );

    assert_eq!(
        selected,
        Some(
            r"C:\Program Files\Microsoft Visual Studio\2022\Community\VC\Tools\MSVC\14.40.33807\include"
                .to_string()
        )
    );
}

#[test]
fn accepts_existing_clangd_path() {
    let path = require_clangd(Some(r"C:\LLVM\bin\clangd.exe".to_string()));

    assert_eq!(path, Ok(r"C:\LLVM\bin\clangd.exe".to_string()));
}

#[test]
fn reports_missing_clangd() {
    let error = require_clangd(None).unwrap_err();

    assert_eq!(error, ToolkitError::MissingClangd);
}

#[test]
fn parses_first_non_empty_installation_path() {
    let parsed = parse_installation_path("\r\nC:\\Program Files\\Microsoft Visual Studio\\2022\\Community\r\n");

    assert_eq!(
        parsed,
        Some("C:\\Program Files\\Microsoft Visual Studio\\2022\\Community".to_string())
    );
}

#[test]
fn selects_highest_sdk_include_group() {
    let includes = select_windows_sdk_includes(
        &["10.0.19041.0", "10.0.22621.0"],
        r"C:\Program Files (x86)\Windows Kits\10\Include",
    );

    assert_eq!(
        includes,
        vec![
            r"C:\Program Files (x86)\Windows Kits\10\Include\10.0.22621.0\ucrt",
            r"C:\Program Files (x86)\Windows Kits\10\Include\10.0.22621.0\um",
            r"C:\Program Files (x86)\Windows Kits\10\Include\10.0.22621.0\shared",
        ]
    );
}

#[test]
fn returns_empty_includes_when_sdk_versions_are_missing() {
    let includes = select_windows_sdk_includes(&[], r"C:\Program Files (x86)\Windows Kits\10\Include");

    assert!(includes.is_empty());
}

#[test]
fn returns_empty_includes_when_selected_sdk_version_is_incomplete() {
    let runner = QueueRunner::new([
        CommandOutput {
            status: Some(0),
            stdout: "10.0.22621.0\n".to_string(),
            stderr: String::new(),
        },
        CommandOutput {
            status: Some(0),
            stdout: "ucrt\nshared\n".to_string(),
            stderr: String::new(),
        },
    ]);

    let includes = discover_windows_sdk_includes(&mut TranscribedRunner::new(&runner));

    assert!(includes.is_empty());
}
