use cpp_toolkit::cmake::tasks::CmakeTarget;
use cpp_toolkit::cmake::targets::dedupe_cmake_targets;
use cpp_toolkit::config::merge::resolve_config;
use cpp_toolkit::config::schema::{
    BuildDirStyle, ClangdConfig, EffectiveBuild, EffectiveClangd, EffectiveConfig, EffectiveRun,
    EffectiveToolchain, ToolchainConfig, UserConfig,
};
use cpp_toolkit::environment::tools::{CommandOutput, CommandRunner, TranscribedRunner};
use cpp_toolkit::error::{ToolkitError, ToolkitResult};
use cpp_toolkit::files::{LocalFiles, RecordedFiles};
use cpp_toolkit::lsp::compile_database::run_cmake_configure_for_compile_database;
use cpp_toolkit::lsp::host::write_tasks_file;
use cpp_toolkit::quoting::sh_single_quote;
use cpp_toolkit::lsp::server::{
    build_clangd_command, clangd_args, discover_cmake_targets_from_build_dir,
    discover_optional_msvc_environment, prepare_workspace_config, prepare_workspace_config_with_config,
    resolve_clangd_command, should_run_legacy_msvc_compile_database_fallback, validate_language_server_id,
    workspace_clangd_input, write_example_config_if_missing, write_generated_tasks,
};
use std::cell::RefCell;
use std::collections::VecDeque;

struct QueueRunner {
    outputs: RefCell<VecDeque<CommandOutput>>,
    calls: RefCell<Vec<(String, Vec<String>)>>,
}

impl QueueRunner {
    fn new(outputs: impl IntoIterator<Item = CommandOutput>) -> Self {
        Self {
            outputs: RefCell::new(outputs.into_iter().collect()),
            calls: RefCell::new(Vec::new()),
        }
    }
}

impl CommandRunner for QueueRunner {
    fn run_command(&self, command: &str, args: &[String]) -> ToolkitResult<CommandOutput> {
        self.calls.borrow_mut().push((command.to_string(), args.to_vec()));
        self.outputs
            .borrow_mut()
            .pop_front()
            .ok_or_else(|| ToolkitError::IoMessage("unexpected command".to_string()))
    }
}

/// A local file system held in memory.
#[derive(Default)]
struct MemoryFiles {
    files: Vec<String>,
    dirs: Vec<(String, Vec<String>)>,
    texts: Vec<(String, String)>,
}

fn missing(path: &str) -> ToolkitError {
    ToolkitError::IoMessage(format!("no file {path}"))
}

impl LocalFiles for MemoryFiles {
    fn path_exists(&self, path: &str) -> bool {
        self.files.iter().any(|f| f == path) || self.dirs.iter().any(|(d, _)| d == path)
    }

    fn is_dir(&self, path: &str) -> bool {
        self.dirs.iter().any(|(d, _)| d == path)
    }

    fn entry_names(&self, dir: &str) -> ToolkitResult<Vec<String>> {
        self.dirs
            .iter()
            .find(|(d, _)| d == dir)
            .map(|(_, names)| names.clone())
            .ok_or_else(|| missing(dir))
    }

    fn read_text(&self, path: &str) -> ToolkitResult<String> {
        self.texts.iter().find(|(p, _)| p == path).map(|(_, v)| v.clone()).ok_or_else(|| missing(path))
    }
}

fn output(stdout: &str) -> CommandOutput {
    CommandOutput {
        status: Some(0),
        stdout: stdout.to_string(),
        stderr: String::new(),
    }
}

fn existing_example_output() -> CommandOutput {
    output("True\n")
}

fn preset_config(name: &str) -> EffectiveConfig {
    resolve_config(Some(UserConfig {
        preset: Some(name.to_string()),
        ..UserConfig::default()
    }))
    .unwrap()
}

fn assert_platform_example_written(calls: &[(String, Vec<String>)], file_name: &str, preset: &str, compiler: &str) {
    assert!(
        calls.iter().any(|(command, args)| {
            command == "powershell"
                && args.iter().any(|arg| {
                    arg.contains("[System.IO.File]::WriteAllText")
                        && arg.contains(file_name)
                        && arg.contains(preset)
                        && arg.contains(compiler)
                        && arg.contains("Copy this file to .zed/cpp-toolkit.toml")
                })
        }),
        "expected {file_name} to be written"
    );
}

fn platform_example_was_written(calls: &[(String, Vec<String>)], file_name: &str) -> bool {
    calls.iter().any(|(command, args)| {
        command == "powershell"
            && args
                .iter()
                .any(|arg| arg.contains("[System.IO.File]::WriteAllText") && arg.contains(file_name))
    })
}

#[test]
fn clangd_args_disable_header_insertion() {
    assert_eq!(clangd_args(), vec!["--header-insertion=never", "--log=verbose"]);
}

#[test]
fn accepts_expected_language_server_id() {
    assert_eq!(validate_language_server_id("cpp-toolkit-clangd"), Ok(()));
}

#[test]
fn build_clangd_command_includes_query_driver() {
    let command = build_clangd_command("clangd".to_string(), Vec::new(), vec!["gcc".to_string(), "g++".to_string()]);

    assert!(command.args.contains(&"--query-driver=gcc,g++".to_string()));
}

#[test]
fn uses_discovered_configured_clangd_command() {
    let command = resolve_clangd_command("custom-clangd", Some("/usr/local/bin/custom-clangd".to_string())).unwrap();

    assert_eq!(command, "/usr/local/bin/custom-clangd");
}

#[test]
fn allows_explicit_clangd_path_when_not_discovered() {
    let command = resolve_clangd_command("/opt/llvm/bin/clangd", None).unwrap();

    assert_eq!(command, "/opt/llvm/bin/clangd");
}

#[test]
fn reports_missing_named_clangd_variant_when_not_discovered() {
    let error = resolve_clangd_command("clangd-18", None).unwrap_err();

    assert_eq!(error, ToolkitError::MissingTool("clangd-18".to_string()));
}

#[test]
fn reports_missing_default_clangd_when_not_discovered() {
    let error = resolve_clangd_command("clangd", None).unwrap_err();

    assert_eq!(error, ToolkitError::MissingClangd);
}

#[test]
fn workspace_clangd_input_uses_effective_config() {
    let config = EffectiveConfig {
        preset: "gcc-cmake-ninja".to_string(),
        toolchain: EffectiveToolchain {
            name: "gcc".to_string(),
            cc: "gcc".to_string(),
            cxx: "g++".to_string(),
        },
        build: EffectiveBuild {
            system: "cmake".to_string(),
            build_dir_style: BuildDirStyle::Build,
            build_dir: "out/release".to_string(),
            build_dir_template: None,
            build_type: "Release".to_string(),
            configure: Some("cmake -S . -B out/release".to_string()),
            configure_template: None,
            build: Some("cmake --build out/release".to_string()),
            build_template: None,
            clean: None,
            clean_template: None,
        },
        run: EffectiveRun {
            command: Some("./app".to_string()),
            command_template: None,
            cwd: "$ZED_WORKTREE_ROOT".to_string(),
        },
        clangd: EffectiveClangd {
            command: "clangd".to_string(),
            compiler: "g++".to_string(),
            compile_commands_dir: "out/release".to_string(),
            extra_flags: vec!["-std=c++20".to_string()],
            query_driver: vec!["gcc".to_string(), "g++".to_string()],
        },
    };

    let input = workspace_clangd_input(&config, None, Vec::new());

    assert_eq!(input.compiler, "g++");
    assert_eq!(input.compile_commands_dir, "out/release");
    assert_eq!(input.extra_flags, vec!["-std=c++20"]);
    assert_eq!(input.msvc_include, None);
    assert_eq!(input.sdk_includes, Vec::<String>::new());
}

#[test]
fn workspace_clangd_input_preserves_msvc_includes_when_present() {
    let config = EffectiveConfig {
        preset: "msvc-cmake-ninja".to_string(),
        toolchain: EffectiveToolchain {
            name: "msvc".to_string(),
            cc: "cl".to_string(),
            cxx: "cl".to_string(),
        },
        build: EffectiveBuild {
            system: "cmake".to_string(),
            build_dir_style: BuildDirStyle::Build,
            build_dir: "build".to_string(),
            build_dir_template: None,
            build_type: "Debug".to_string(),
            configure: None,
            configure_template: None,
            build: None,
            build_template: None,
            clean: None,
            clean_template: None,
        },
        run: EffectiveRun {
            command: None,
            command_template: None,
            cwd: "$ZED_WORKTREE_ROOT".to_string(),
        },
        clangd: EffectiveClangd {
            command: "clangd".to_string(),
            compiler: "clang-cl".to_string(),
            compile_commands_dir: "build".to_string(),
            extra_flags: Vec::new(),
            query_driver: Vec::new(),
        },
    };

    let input = workspace_clangd_input(
        &config,
        Some(r"C:\VS\VC\Tools\MSVC\14.40.33807\include".to_string()),
        vec![r"C:\Windows Kits\10\Include\10.0.22621.0\ucrt".to_string()],
    );

    assert_eq!(input.msvc_include, Some(r"C:\VS\VC\Tools\MSVC\14.40.33807\include".to_string()));
    assert_eq!(input.sdk_includes, vec![r"C:\Windows Kits\10\Include\10.0.22621.0\ucrt".to_string()]);
}

#[test]
fn msvc_configure_uses_configured_build_dir_and_type() {
    let runner = QueueRunner::new([output("C:\\VS\\2022\\Community\n"), output("")]);

    let result = run_cmake_configure_for_compile_database("C:/repo", "out/debug", "RelWithDebInfo", &mut TranscribedRunner::new(&runner));

    assert_eq!(result, Ok(()));
    let calls = runner.calls.borrow();
    assert_eq!(calls.len(), 2);
    let configure_script = &calls[1].1[2];
    assert!(configure_script.contains(r"C:/repo\out/debug"));
    assert!(configure_script.contains("-DCMAKE_BUILD_TYPE=RelWithDebInfo"));
}

#[test]
fn writes_workspace_files_with_sh_for_unix_roots() {
    let runner = QueueRunner::new([output("")]);

    write_tasks_file("/home/me/project", "[]", &mut TranscribedRunner::new(&runner)).unwrap();

    let calls = runner.calls.borrow();
    assert_eq!(calls.len(), 1);
    assert_eq!(calls[0].0, "sh");
    assert_eq!(calls[0].1[0], "-c");
    assert!(calls[0].1[1].contains("/home/me/project/.zed/tasks.json"));
    assert!(calls[0].1[1].contains("mkdir -p"));
}

#[test]
fn quotes_shell_strings_with_single_quotes() {
    assert_eq!(sh_single_quote("plain"), "'plain'");
    assert_eq!(sh_single_quote("a'b"), "'a'\\''b'");
}

#[test]
fn server_rejects_unexpected_language_server_id() {
    let error = validate_language_server_id("other-lsp").unwrap_err();

    assert_eq!(error, ToolkitError::UnsupportedLanguageServer("other-lsp".to_string()));
}

#[test]
fn keeps_user_clangd_config_but_still_writes_tasks() {
    let config = preset_config("gcc-cmake-ninja");
    let runner = QueueRunner::new([
        existing_example_output(),
        existing_example_output(),
        existing_example_output(),
        output(""),
    ]);

    let result = prepare_workspace_config_with_config(
        "C:/repo",
        Some("CompileFlags: {}".to_string()),
        &config,
        &mut TranscribedRunner::new(&runner),
        &mut RecordedFiles::new(&MemoryFiles::default()),
    );

    assert_eq!(result, Ok(()));
    let calls = runner.calls.borrow();
    assert!(calls.iter().any(|(command, args)| {
        command == "powershell"
            && args
                .iter()
                .any(|arg| arg.contains("C++: Build") && arg.contains("'C:/repo\\.zed\\tasks.json'"))
    }));
    assert!(!calls
        .iter()
        .any(|(_, args)| args.iter().any(|arg| arg.contains("'C:/repo\\.clangd'"))));
}

#[test]
fn writes_platform_example_configs_during_workspace_preparation() {
    let config = preset_config("gcc-cmake-ninja");
    let runner = QueueRunner::new([
        output("False\n"),
        output(""),
        output("False\n"),
        output(""),
        output("False\n"),
        output(""),
    ]);

    let result = prepare_workspace_config_with_config("C:/repo", None, &config, &mut TranscribedRunner::new(&runner), &mut RecordedFiles::new(&MemoryFiles::default()));

    assert_eq!(result, Ok(()));
    let calls = runner.calls.borrow();
    assert_platform_example_written(
        &calls,
        "cpp-toolkit.windows.example.toml",
        "preset = \"msvc-cmake-ninja\"",
        "compiler = \"clang-cl\"",
    );
    assert_platform_example_written(
        &calls,
        "cpp-toolkit.linux.example.toml",
        "preset = \"gcc-cmake-ninja\"",
        "compiler = \"g++\"",
    );
    assert_platform_example_written(
        &calls,
        "cpp-toolkit.macos.example.toml",
        "preset = \"clang-cmake-ninja\"",
        "compiler = \"clang++\"",
    );
}

#[test]
fn does_not_overwrite_existing_platform_example_config() {
    let runner = QueueRunner::new([output("True\n"), output("False\n"), output(""), output("True\n")]);

    write_example_config_if_missing("C:/repo", &mut TranscribedRunner::new(&runner)).unwrap();

    let calls = runner.calls.borrow();
    assert!(!platform_example_was_written(&calls, "cpp-toolkit.windows.example.toml"));
    assert!(platform_example_was_written(&calls, "cpp-toolkit.linux.example.toml"));
    assert!(!platform_example_was_written(&calls, "cpp-toolkit.macos.example.toml"));
}

#[test]
fn msvc_generated_tasks_use_visual_studio_developer_environment() {
    let config = preset_config("msvc-cmake-ninja");
    let runner = QueueRunner::new([output("C:\\VS\\2022\\Community\n"), output(""), output("")]);

    write_generated_tasks("C:/repo", &config, &mut TranscribedRunner::new(&runner), &mut RecordedFiles::new(&MemoryFiles::default())).unwrap();

    let calls = runner.calls.borrow();
    assert!(calls.iter().any(|(_, args)| {
        args.iter()
            .any(|arg| arg.contains("VsDevCmd.bat") && arg.contains("cmake --build build"))
    }));
}

#[test]
fn discovers_cmake_targets_from_file_api_codemodel() {
    let root = "/tmp/zed-msvc-cmake-file-api";
    let reply_dir = format!("{root}/build/.cmake/api/v1/reply");
    let index_name = "index-2026-06-08T15-43-28-0570.json";
    let files = MemoryFiles {
        files: Vec::new(),
        dirs: vec![(
            reply_dir.clone(),
            vec![
                index_name.to_string(),
                "codemodel-v2-test.json".to_string(),
                "target-lib.json".to_string(),
                "target-demo.json".to_string(),
                "target-autogen.json".to_string(),
                "target-imported.json".to_string(),
            ],
        )],
        texts: vec![
            (
                format!("{reply_dir}/{index_name}"),
                r#"{
                  "reply": {
                    "codemodel-v2": {
                      "jsonFile": "codemodel-v2-test.json"
                    }
                  }
                }"#
                .to_string(),
            ),
            (
                format!("{reply_dir}/codemodel-v2-test.json"),
                r#"{
                  "configurations": [
                    {
                      "targets": [
                        { "name": "QEnhancedCustomPlot", "jsonFile": "target-lib.json" },
                        { "name": "demo_realtime", "jsonFile": "target-demo.json" },
                        { "name": "demo_realtime_autogen", "jsonFile": "target-autogen.json" },
                        { "name": "Qt6::Core", "jsonFile": "target-imported.json" }
                      ]
                    }
                  ]
                }"#
                .to_string(),
            ),
            (
                format!("{reply_dir}/target-lib.json"),
                r#"{
                  "name": "QEnhancedCustomPlot",
                  "type": "STATIC_LIBRARY",
                  "artifacts": [
                    { "path": "QEnhancedCustomPlot.lib" }
                  ]
                }"#
                .to_string(),
            ),
            (
                format!("{reply_dir}/target-demo.json"),
                r#"{
                  "name": "demo_realtime",
                  "type": "EXECUTABLE",
                  "artifacts": [
                    { "path": "demos/demo_realtime/demo_realtime.exe" },
                    { "path": "demos/demo_realtime/demo_realtime.pdb" }
                  ]
                }"#
                .to_string(),
            ),
            (
                format!("{reply_dir}/target-autogen.json"),
                r#"{
                  "name": "demo_realtime_autogen",
                  "type": "UTILITY"
                }"#
                .to_string(),
            ),
            (
                format!("{reply_dir}/target-imported.json"),
                r#"{
                  "name": "Qt6::Core",
                  "type": "SHARED_LIBRARY",
                  "imported": true,
                  "artifacts": [
                    { "path": "C:/Qt/bin/Qt6Cored.dll" }
                  ]
                }"#
                .to_string(),
            ),
        ],
    };

    let runner = QueueRunner::new([output("")]);
    let targets = discover_cmake_targets_from_build_dir(root, "build", &mut TranscribedRunner::new(&runner), &mut RecordedFiles::new(&files)).unwrap();

    assert_eq!(
        targets,
        vec![
            CmakeTarget {
                name: "QEnhancedCustomPlot".to_string(),
                output: Some("QEnhancedCustomPlot.lib".to_string()),
                executable: false,
            },
            CmakeTarget {
                name: "demo_realtime".to_string(),
                output: Some("demos/demo_realtime/demo_realtime.exe".to_string()),
                executable: true,
            },
        ]
    );
}

#[test]
fn discovers_cmake_executable_targets_from_unix_ninja_build_file() {
    let runner = QueueRunner::new([output(
        "build qt_demo: CXX_EXECUTABLE_LINKER__qt_demo_Debug CMakeFiles/qt_demo.dir/main.cpp.o\nbuild qt_demo: phony qt_demo\nbuild /home/guo/Code/cpp/qt-demo/CMakeLists.txt: phony\n",
    )]);

    let targets =
        discover_cmake_targets_from_build_dir("/home/me/project", "cmake-build-debug", &mut TranscribedRunner::new(&runner), &mut RecordedFiles::new(&MemoryFiles::default()))
            .unwrap();

    assert_eq!(
        targets,
        vec![CmakeTarget {
            name: "qt_demo".to_string(),
            output: Some("qt_demo".to_string()),
            executable: true,
        }]
    );

    let calls = runner.calls.borrow();
    assert_eq!(calls.len(), 1);
    assert_eq!(calls[0].0, "sh");
    assert_eq!(calls[0].1[0], "-c");
    assert!(calls[0].1[1].contains("/home/me/project/cmake-build-debug/build.ninja"));
}

#[test]
fn ninja_target_dedupe_prefers_executable_with_directory_path() {
    let targets = dedupe_cmake_targets(vec![
        CmakeTarget {
            name: "demo_playback".to_string(),
            output: Some("demo_playback.exe".to_string()),
            executable: true,
        },
        CmakeTarget {
            name: "demo_playback".to_string(),
            output: Some("demos/demo_playback/demo_playback.exe".to_string()),
            executable: true,
        },
    ]);

    assert_eq!(
        targets,
        vec![CmakeTarget {
            name: "demo_playback".to_string(),
            output: Some("demos/demo_playback/demo_playback.exe".to_string()),
            executable: true,
        }]
    );
}

fn msvc_preset_with_clang_toolchain() -> EffectiveConfig {
    resolve_config(Some(UserConfig {
        preset: Some("msvc-cmake-ninja".to_string()),
        toolchain: ToolchainConfig {
            name: Some("clang".to_string()),
            ..ToolchainConfig::default()
        },
        ..UserConfig::default()
    }))
    .unwrap()
}

#[test]
fn overridden_toolchain_name_disables_msvc_compile_database_fallback() {
    let config = msvc_preset_with_clang_toolchain();

    assert!(!should_run_legacy_msvc_compile_database_fallback(&config));
}

#[test]
fn overridden_toolchain_name_disables_msvc_clangd_environment_detection() {
    let config = msvc_preset_with_clang_toolchain();
    let runner = QueueRunner::new([]);

    let environment = discover_optional_msvc_environment(&config, &mut TranscribedRunner::new(&runner));

    assert!(environment.is_none());
    assert!(runner.calls.borrow().is_empty());
}

#[test]
fn config_driven_workspace_generation_writes_clangd_and_tasks_without_msvc_discovery() {
    let config = resolve_config(Some(UserConfig {
        preset: Some("gcc-cmake-ninja".to_string()),
        clangd: ClangdConfig {
            extra_flags: Some(vec!["-std=c++20".to_string()]),
            ..ClangdConfig::default()
        },
        ..UserConfig::default()
    }))
    .unwrap();
    let runner = QueueRunner::new([
        existing_example_output(),
        existing_example_output(),
        existing_example_output(),
        output(""),
        output(""),
    ]);

    let result = prepare_workspace_config_with_config("C:/repo", None, &config, &mut TranscribedRunner::new(&runner), &mut RecordedFiles::new(&MemoryFiles::default()));

    assert_eq!(result, Ok(()));
    let calls = runner.calls.borrow();
    assert!(calls.iter().any(|(command, args)| {
        command == "powershell"
            && args.iter().any(|arg| {
                arg.contains("[System.IO.File]::WriteAllText")
                    && arg.contains("'C:/repo\\.clangd'")
                    && arg.contains("Compiler: g++")
                    && arg.contains("-std=c++20")
            })
    }));
    assert!(calls.iter().any(|(command, args)| {
        command == "powershell"
            && args.iter().any(|arg| {
                arg.contains("[System.IO.File]::WriteAllText")
                    && arg.contains("'C:/repo\\.zed\\tasks.json'")
                    && arg.contains("C++: Build")
                    && arg.contains("cmake --build build")
            })
    }));
}

#[test]
fn continues_when_clangd_config_is_missing() {
    let runner = QueueRunner::new([
        existing_example_output(),
        existing_example_output(),
        existing_example_output(),
        output("false\n"),
        output("false\n"),
        output("false\n"),
        output("C:\\VS\\2022\\Community\n"),
        output("14.38.33130\n14.40.33807\n"),
        output("10.0.19041.0\n10.0.22621.0\n"),
        output("ucrt\num\nshared\n"),
        output(""),
    ]);

    let result = prepare_workspace_config("C:/repo", None, &mut TranscribedRunner::new(&runner), &mut RecordedFiles::new(&MemoryFiles::default()));

    assert_eq!(result, Ok(()));
    assert!(runner.calls.borrow().iter().any(|(command, args)| {
        command == "powershell"
            && args.iter().any(|arg| {
                arg.contains("[System.IO.File]::WriteAllText")
                    && arg.contains("'C:/repo\\.clangd'")
                    && arg.contains("Compiler: clang-cl")
                    && !arg.contains("Compiler: g++")
            })
    }));
}

#[test]
fn runs_cmake_configure_when_compile_database_is_missing() {
    let root = r"C:\Temp\zed-msvc-cmake-configure";
    let files = MemoryFiles {
        files: vec![format!("{root}/CMakeLists.txt")],
        ..MemoryFiles::default()
    };
    let runner = QueueRunner::new([
        existing_example_output(),
        existing_example_output(),
        existing_example_output(),
        output("false\n"),
        output("false\n"),
        output("true\n"),
        output("C:\\VS\\2022\\Community\n"),
        output(""),
        output("test_autogen\n"),
        output(""),
        output("false\n"),
        output("false\n"),
        output("C:\\VS\\2022\\Community\n"),
        output("14.40.33807\n"),
        output("10.0.22621.0\n"),
        output("ucrt\num\nshared\n"),
        output(""),
    ]);

    let result = prepare_workspace_config(root, None, &mut TranscribedRunner::new(&runner), &mut RecordedFiles::new(&files));

    assert_eq!(result, Ok(()));
    assert!(runner.calls.borrow().iter().any(|(command, args)| {
        command == "powershell"
            && args.iter().any(|arg| {
                arg.contains("VsDevCmd.bat")
                    && arg.contains("-DCMAKE_CXX_COMPILER=cl")
                    && arg.contains("-DCMAKE_EXPORT_COMPILE_COMMANDS=ON")
            })
    }));
    assert!(runner.calls.borrow().iter().any(|(command, args)| {
        command == "cmake" && args.iter().any(|arg| arg == "--target") && args.iter().any(|arg| arg == "test_autogen")
    }));
}

#[test]
fn continues_when_compilation_database_is_present_in_root() {
    let root = "/tmp/zed-msvc-integration-root";
    let files = MemoryFiles {
        files: vec![format!("{root}/compile_commands.json")],
        ..MemoryFiles::default()
    };
    let runner = QueueRunner::new([
        output("C:\\VS\\2022\\Community\n"),
        output("14.40.33807\n"),
        output("10.0.22621.0\n"),
        output("ucrt\num\nshared\n"),
        output(""),
    ]);

    prepare_workspace_config(root, None, &mut TranscribedRunner::new(&runner), &mut RecordedFiles::new(&files)).unwrap();
}

#[test]
fn continues_when_compilation_database_is_present_in_build_subdirectory() {
    let root = "/tmp/zed-msvc-integration-build";
    let files = MemoryFiles {
        files: vec![format!("{root}/build/compile_commands.json")],
        ..MemoryFiles::default()
    };
    let runner = QueueRunner::new([
        output("C:\\VS\\2022\\Community\n"),
        output("14.40.33807\n"),
        output("10.0.22621.0\n"),
        output("ucrt\num\nshared\n"),
        output(""),
    ]);

    prepare_workspace_config(root, None, &mut TranscribedRunner::new(&runner), &mut RecordedFiles::new(&files)).unwrap();
}
