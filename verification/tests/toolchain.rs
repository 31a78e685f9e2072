use cpp_toolkit::config::merge::resolve_config;
use cpp_toolkit::config::schema::UserConfig;
use cpp_toolkit::environment::tools::{CommandOutput, CommandRunner, TranscribedRunner};
use cpp_toolkit::error::{ToolkitError, ToolkitResult};
use cpp_toolkit::toolchain::msvc::prepare_task_config;
use std::cell::RefCell;
use std::collections::VecDeque;

struct QueueRunner {
    outputs: RefCell<VecDeque<CommandOutput>>,
}

impl QueueRunner {
    fn new(outputs: impl IntoIterator<Item = CommandOutput>) -> Self {
        Self {
            outputs: RefCell::new(outputs.into_iter().collect()),
        }
    }
}

impl CommandRunner for QueueRunner {
    fn run_command(&self, _command: &str, _args: &[String]) -> ToolkitResult<CommandOutput> {
        self.outputs
            .borrow_mut()
            .pop_front()
            .ok_or_else(|| ToolkitError::IoMessage("unexpected command".to_string()))
    }
}

#[test]
fn prepare_task_config_wraps_msvc_build_commands() {
    let config = resolve_config(Some(UserConfig {
        preset: Some("msvc-cmake-ninja".to_string()),
        ..UserConfig::default()
    }))
    .unwrap();
    let runner = QueueRunner::new([CommandOutput {
        status: Some(0),
        stdout: "C:\\VS\\2022\\Community\n".to_string(),
        stderr: String::new(),
    }]);

    let prepared = prepare_task_config(&config, &mut TranscribedRunner::new(&runner)).unwrap();

    assert!(prepared.build.build.as_deref().unwrap().contains("VsDevCmd.bat"));
}

#[test]
fn msvc_preparation_passes_on_what_vswhere_answered() {
    let config = resolve_config(Some(UserConfig {
        preset: Some("msvc-cmake-ninja".to_string()),
        ..UserConfig::default()
    }))
    .unwrap();
    let blank = QueueRunner::new([CommandOutput { status: Some(0), stdout: "\n".to_string(), stderr: String::new() }]);
    assert_eq!(
        prepare_task_config(&config, &mut TranscribedRunner::new(&blank)),
        Err(ToolkitError::MissingVisualStudio)
    );
    let silent = QueueRunner::new([]);
    assert_eq!(
        prepare_task_config(&config, &mut TranscribedRunner::new(&silent)),
        Err(ToolkitError::IoMessage("unexpected command".to_string()))
    );
    let found = QueueRunner::new([CommandOutput {
        status: Some(0),
        stdout: "D:\\Tools\\VS\\\n".to_string(),
        stderr: String::new(),
    }]);
    let prepared = prepare_task_config(&config, &mut TranscribedRunner::new(&found)).unwrap();
    assert!(prepared.build.build.as_deref().unwrap().contains(r#"D:\Tools\VS\Common7\Tools\VsDevCmd.bat"#));
}
