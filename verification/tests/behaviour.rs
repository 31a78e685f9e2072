use cpp_toolkit::build::shell::{shell_for_separator, ShellKind};
use cpp_toolkit::cmake::compile_db::select_database;
use cpp_toolkit::cmake::file_api::{file_api_targets_from_reads, FileApiReads};
use cpp_toolkit::lsp::compile_database::select_host_database;
use cpp_toolkit::lsp::server::targets_from_sources;
use cpp_toolkit::cmake::file_api::{
    cmake_codemodel_file_name, cmake_target_from_file_api, executable_artifact_path, file_api_primary_artifact,
    latest_cmake_file_api_index, FileApiIndex, FileApiObject, FileApiTarget,
};
use cpp_toolkit::cmake::targets::{dedupe_cmake_targets, is_user_buildable_cmake_target_name, parse_cmake_targets_from_ninja, text_lt_exec};
use cpp_toolkit::cmake::tasks::{generate_tasks_json, CmakeTarget, TaskOptions};
use cpp_toolkit::cmake::tools::{discover_cmake, discover_ninja, select_generator, CmakeGenerator};
use cpp_toolkit::config::merge::{
    cmake_build_type_suffix, merge_user_config, resolve_config, resolve_config_for_host, HostPlatform,
};
use cpp_toolkit::config::schema::{BuildConfig, BuildDirStyle, UserConfig};
use cpp_toolkit::debug::log_error;
use cpp_toolkit::environment::msvc::select_msvc_include;
use cpp_toolkit::environment::tools::{ensure_success, CommandOutput, CommandRunner, TranscribedRunner};
use cpp_toolkit::error::{ToolkitError, ToolkitResult};
use cpp_toolkit::files::path_join;
use cpp_toolkit::lsp::clangd_config::{render_clangd_config, ClangdConfigInput};
use cpp_toolkit::lsp::compile_database::cmake_configure_script;
use cpp_toolkit::lsp::host::{
    first_autogen_target, host_path_exists, join_unix_components, join_windows_components, read_cmake_build_ninja,
    workspace_file_exists,
};
use cpp_toolkit::lsp::neocmake::{require_neocmakelsp, validate_language_server_id as validate_neocmake_id};
use cpp_toolkit::lsp::server::{
    build_clangd_command, is_explicit_command_path, is_user_clangd_config, one_line_preview,
    should_write_generated_clangd,
};
use cpp_toolkit::lsp::workspace_config::{decide_clangd_file, ClangdFileDecision};
use cpp_toolkit::paths::join_windows_path;
use cpp_toolkit::toolchain::prepare_task_config;
use std::cell::RefCell;
use std::collections::VecDeque;

struct QueueRunner {
    outputs: RefCell<VecDeque<ToolkitResult<CommandOutput>>>,
    calls: RefCell<Vec<(String, Vec<String>)>>,
}

impl QueueRunner {
    fn new(outputs: impl IntoIterator<Item = ToolkitResult<CommandOutput>>) -> Self {
        Self {
            outputs: RefCell::new(outputs.into_iter().collect()),
            calls: RefCell::new(Vec::new()),
        }
    }
}

impl CommandRunner for QueueRunner {
    fn run_command(&self, command: &str, args: &[String]) -> ToolkitResult<CommandOutput> {
        self.calls.borrow_mut().push((command.to_string(), args.to_vec()));
        self.outputs
            .borrow_mut()
            .pop_front()
            .unwrap_or_else(|| Err(ToolkitError::IoMessage("unexpected command".to_string())))
    }
}

fn ok(stdout: &str) -> ToolkitResult<CommandOutput> {
    Ok(CommandOutput {
        status: Some(0),
        stdout: stdout.to_string(),
        stderr: String::new(),
    })
}

fn target(name: &str, output: Option<&str>, executable: bool) -> CmakeTarget {
    CmakeTarget {
        name: name.to_string(),
        output: output.map(str::to_string),
        executable,
    }
}

fn msvc_input(flags: Vec<String>, msvc: Option<&str>) -> ClangdConfigInput {
    ClangdConfigInput {
        compiler: "clang-cl".to_string(),
        compile_commands_dir: "build".to_string(),
        extra_flags: flags,
        msvc_include: msvc.map(str::to_string),
        sdk_includes: Vec::new(),
        compile_database_path: None,
    }
}

#[test]
fn generated_clangd_is_refreshed_and_user_clangd_is_preserved() {
    let rendered = render_clangd_config(&msvc_input(vec!["/std:c++20".to_string()], Some(r"C:\VS\include")));
    assert!(!is_user_clangd_config(&rendered));
    assert!(should_write_generated_clangd(&Some(rendered)));
    assert!(should_write_generated_clangd(&None));
    assert!(!should_write_generated_clangd(&Some("CompileFlags: {}".to_string())));
    assert!(should_write_generated_clangd(&Some(
        "# Auto-generated by Zed MSVC C++ Assistant.\nCompileFlags: {}".to_string()
    )));
}

#[test]
fn renders_exact_generic_clangd_config() {
    let rendered = render_clangd_config(&ClangdConfigInput {
        compiler: "g++".to_string(),
        compile_commands_dir: "build".to_string(),
        extra_flags: vec!["-std=c++20".to_string(), "-Iinclude".to_string()],
        msvc_include: None,
        sdk_includes: Vec::new(),
        compile_database_path: None,
    });
    assert_eq!(
        rendered,
        "# Auto-generated by Zed C++ Toolkit.\n# Edit this file to customize clangd behavior.\nCompileFlags:\n  CompilationDatabase: build\n  Compiler: g++\n  Remove:\n    - -fdeps-format=*\n    - -fmodules-ts\n    - -fmodule-mapper=*\n  Add:\n    - -std=c++20\n    - -Iinclude\nDiagnostics:\n  Suppress: ['pp_file_not_found']\n"
    );
}

#[test]
fn omits_add_without_flags_or_includes() {
    let rendered = render_clangd_config(&msvc_input(Vec::new(), None));
    assert!(!rendered.contains("Add:"));
    assert!(!rendered.contains("DriverMode"));
}

#[test]
fn decides_to_create_or_preserve_clangd() {
    let input = msvc_input(Vec::new(), None);
    match decide_clangd_file(r"C:\repo\", None, &input) {
        ClangdFileDecision::Create { path, contents } => {
            assert_eq!(path, "C:/repo/.clangd");
            assert_eq!(contents, render_clangd_config(&input));
        }
        ClangdFileDecision::PreserveExisting { .. } => panic!("expected create decision"),
    }
    assert_eq!(
        decide_clangd_file(r"C:\repo", Some("CompileFlags: {}".to_string()), &input),
        ClangdFileDecision::PreserveExisting {
            path: "C:/repo/.clangd".to_string()
        }
    );
}

#[test]
fn merging_an_empty_configuration_keeps_the_preset() {
    let preset = UserConfig {
        preset: Some("gcc-cmake-ninja".to_string()),
        build: BuildConfig {
            build_dir: Some("out".to_string()),
            ..BuildConfig::default()
        },
        ..UserConfig::default()
    };
    assert_eq!(merge_user_config(preset.clone(), UserConfig::default()), preset);
    assert_eq!(merge_user_config(preset.clone(), preset.clone()), preset);
}

#[test]
fn default_presets_follow_the_platform() {
    assert_eq!(resolve_config_for_host(None, HostPlatform::Windows).unwrap().preset, "msvc-cmake-ninja");
    assert_eq!(resolve_config_for_host(None, HostPlatform::Linux).unwrap().preset, "gcc-cmake-ninja");
    assert_eq!(resolve_config_for_host(None, HostPlatform::Macos).unwrap().preset, "clang-cmake-ninja");
}

#[test]
fn unknown_preset_and_custom_style_errors() {
    let unknown = resolve_config(Some(UserConfig {
        preset: Some("nope".to_string()),
        ..UserConfig::default()
    }))
    .unwrap_err();
    assert_eq!(unknown, ToolkitError::IoMessage("未知 cpp-toolkit preset：nope".to_string()));

    let custom = resolve_config(Some(UserConfig {
        preset: Some("gcc-cmake-ninja".to_string()),
        build: BuildConfig {
            build_dir_style: Some(BuildDirStyle::Custom),
            build_dir: Some("   ".to_string()),
            ..BuildConfig::default()
        },
        ..UserConfig::default()
    }))
    .unwrap_err();
    assert_eq!(
        custom,
        ToolkitError::IoMessage("build_dir_style = \"custom\" requires build_dir".to_string())
    );
}

#[test]
fn build_type_suffix_lowercases_unicode() {
    assert_eq!(cmake_build_type_suffix("RelWithDebInfo"), "relwithdebinfo");
    assert_eq!(cmake_build_type_suffix("ProfileÄB"), "profileäb");
}

#[test]
fn dedupe_sorts_and_keeps_one_target_per_name() {
    let targets = dedupe_cmake_targets(vec![
        target("zeta", None, false),
        target("app", Some("app"), true),
        target("zeta", Some("lib/libzeta.a"), false),
        target("app", Some("bin/app"), true),
        target("app", Some("libapp.a"), false),
    ]);
    assert_eq!(
        targets,
        vec![target("app", Some("bin/app"), true), target("zeta", Some("lib/libzeta.a"), false)]
    );
}

#[test]
fn ninja_discovery_filters_internal_targets() {
    let text = "build all: phony app\nbuild clean: phony\nbuild app_autogen: phony\nbuild CMakeFiles/x.dir: phony\nbuild Qt6::Core: phony\nbuild bin/tool.exe | extra: CXX_EXECUTABLE_LINKER__tool\r\nbuild mylib: phony libmylib.a\n";
    assert_eq!(
        parse_cmake_targets_from_ninja(text),
        vec![target("mylib", None, false), target("tool", Some("bin/tool.exe"), true)]
    );
    assert!(!is_user_buildable_cmake_target_name("cmake_object_order_depends_target_app"));
    assert!(is_user_buildable_cmake_target_name("app"));
}

#[test]
fn text_order_is_by_character() {
    assert!(text_lt_exec("a", "b"));
    assert!(text_lt_exec("ab", "abc"));
    assert!(!text_lt_exec("abc", "abc"));
    assert!(text_lt_exec("Z", "a"));
}

#[test]
fn selects_the_numerically_highest_toolset() {
    assert_eq!(
        select_msvc_include(&["14.9.1", "14.40.2", "preview"], r"C:\VS\"),
        Some(r"C:\VS\VC\Tools\MSVC\14.40.2\include".to_string())
    );
    assert_eq!(select_msvc_include(&["preview"], r"C:\VS"), None);
}

#[test]
fn file_api_index_codemodel_and_artifacts() {
    let names = vec![
        "index-2026-01-01T00-00-00-0000.json".to_string(),
        "index-2026-06-08T15-43-28-0570.json".to_string(),
        "zz-other.json".to_string(),
    ];
    assert_eq!(
        latest_cmake_file_api_index(&names),
        Some("index-2026-06-08T15-43-28-0570.json".to_string())
    );
    assert_eq!(latest_cmake_file_api_index(&vec!["codemodel.json".to_string()]), None);

    let index = FileApiIndex {
        codemodel_v2_json_file: None,
        objects: vec![
            FileApiObject {
                kind: Some("cache".to_string()),
                json_file: Some("cache.json".to_string()),
            },
            FileApiObject {
                kind: Some("codemodel".to_string()),
                json_file: Some("codemodel-v2-abc.json".to_string()),
            },
        ],
    };
    assert_eq!(cmake_codemodel_file_name(&index), Some("codemodel-v2-abc.json".to_string()));

    assert!(executable_artifact_path("bin/app.EXE"));
    assert!(executable_artifact_path("bin/app"));
    assert!(!executable_artifact_path("bin/app.PDB"));
    assert!(!executable_artifact_path("lib/libx.so"));
    let artifacts = Some(vec![None, Some("app.pdb".to_string()), Some("app.exe".to_string())]);
    assert_eq!(file_api_primary_artifact(&artifacts, true), Some("app.exe".to_string()));
    assert_eq!(file_api_primary_artifact(&artifacts, false), Some("app.pdb".to_string()));
    let only_pdb = Some(vec![Some("app.pdb".to_string())]);
    assert_eq!(file_api_primary_artifact(&only_pdb, true), Some("app.pdb".to_string()));
    assert_eq!(file_api_primary_artifact(&None, true), None);

    let trimmed = cmake_target_from_file_api(&FileApiTarget {
        imported: false,
        name: Some("  core  ".to_string()),
        target_type: Some("OBJECT_LIBRARY".to_string()),
        artifacts: None,
    });
    assert_eq!(trimmed, Some(target("core", None, false)));
    let utility = cmake_target_from_file_api(&FileApiTarget {
        imported: false,
        name: Some("docs".to_string()),
        target_type: Some("UTILITY".to_string()),
        artifacts: None,
    });
    assert_eq!(utility, None);
}

#[test]
fn joins_paths() {
    assert_eq!(path_join("/repo", "build"), "/repo/build");
    assert_eq!(path_join("/repo/", "build"), "/repo/build");
    assert_eq!(path_join("", "build"), "build");
    assert_eq!(path_join("/repo", "/abs/build"), "/abs/build");
    assert_eq!(join_windows_path(r"C:\VS\", r"\Common7\Tools"), r"C:\VS\Common7\Tools");
    assert_eq!(join_windows_components("C:/repo/", &["/.zed/", "tasks.json"]), r"C:/repo\.zed\tasks.json");
    assert_eq!(join_unix_components("/home/me//", &["/.zed/", "tasks.json"]), "/home/me/.zed/tasks.json");
}

#[test]
fn previews_on_one_line() {
    assert_eq!(one_line_preview("a\nb\tc"), "a b c");
    let long = "x".repeat(501);
    let preview = one_line_preview(&long);
    assert_eq!(preview.chars().count(), 503);
    assert!(preview.ends_with("..."));
    assert_eq!(one_line_preview(&"y".repeat(500)), "y".repeat(500));
}

#[test]
fn recognizes_explicit_command_paths() {
    assert!(is_explicit_command_path("C:clangd"));
    assert!(is_explicit_command_path("bin/clangd"));
    assert!(is_explicit_command_path(r"bin\clangd"));
    assert!(!is_explicit_command_path("clangd-18"));
    assert!(!is_explicit_command_path("é:clangd"));
}

#[test]
fn clangd_command_without_query_driver_has_fixed_args() {
    let command = build_clangd_command(
        "/usr/bin/clangd".to_string(),
        vec![("PATH".to_string(), "/usr/bin".to_string())],
        Vec::new(),
    );
    assert_eq!(command.command, "/usr/bin/clangd");
    assert_eq!(command.args, vec!["--header-insertion=never", "--log=verbose"]);
    assert_eq!(command.env, vec![("PATH".to_string(), "/usr/bin".to_string())]);
}

#[test]
fn error_messages_for_every_variant() {
    assert_eq!(ToolkitError::IoMessage("m".to_string()).user_message(), "m");
    assert_eq!(ToolkitError::MissingCmake.user_message(), "CMake was not found in PATH");
    assert_eq!(ToolkitError::MissingClangd.user_message(), "clangd was not found in PATH");
    assert_eq!(ToolkitError::MissingNeocmakelsp.user_message(), "neocmakelsp was not found in PATH");
    assert_eq!(ToolkitError::MissingVisualStudio.user_message(), "Visual Studio 2022+ was not found");
    assert_eq!(ToolkitError::MissingMsvcToolset.user_message(), "MSVC v143+ toolset was not found");
    assert_eq!(ToolkitError::MissingTool("x".to_string()).user_message(), "tool was not found in PATH: x");
    assert_eq!(
        ToolkitError::UnsupportedLanguageServer("y".to_string()).user_message(),
        "unsupported language server: y"
    );
    assert_eq!(ToolkitError::CommandFailed("z".to_string()).user_message(), "z");
    assert_eq!(log_error("ctx", &ToolkitError::MissingClangd), "ctx: clangd was not found in PATH");
}

#[test]
fn neocmake_lookup_and_id() {
    assert_eq!(require_neocmakelsp(Some("/bin/neocmakelsp".to_string())), Ok("/bin/neocmakelsp".to_string()));
    assert_eq!(require_neocmakelsp(None), Err(ToolkitError::MissingNeocmakelsp));
    assert_eq!(
        validate_neocmake_id("cpp-toolkit-clangd"),
        Err(ToolkitError::UnsupportedLanguageServer("cpp-toolkit-clangd".to_string()))
    );
}

#[test]
fn host_answers_are_read_from_command_output() {
    let runner = QueueRunner::new([
        ok(" TRUE \r\n"),
        Ok(CommandOutput {
            status: Some(1),
            stdout: String::new(),
            stderr: "boom".to_string(),
        }),
    ]);
    assert_eq!(host_path_exists(&mut TranscribedRunner::new(&runner), r"C:\repo\x"), Ok(true));
    assert_eq!(
        host_path_exists(&mut TranscribedRunner::new(&runner), r"C:\repo\x"),
        Err(ToolkitError::CommandFailed("powershell exited unsuccessfully: boom".to_string()))
    );
    assert!(runner.calls.borrow()[0].1[2].contains(r"Test-Path -LiteralPath 'C:\repo\x'"));

    let sh = QueueRunner::new([ok("TRUE"), ok("true\n")]);
    assert_eq!(workspace_file_exists("/repo", &[".zed", "x"], &mut TranscribedRunner::new(&sh)), Ok(false));
    assert_eq!(workspace_file_exists("/repo", &[".zed", "x"], &mut TranscribedRunner::new(&sh)), Ok(true));

    let empty = QueueRunner::new([ok("")]);
    assert_eq!(read_cmake_build_ninja("/repo", "build", &mut TranscribedRunner::new(&empty)), Ok(None));

    let autogen = QueueRunner::new([ok("\n  app_autogen \n")]);
    assert_eq!(first_autogen_target("C:/repo", "build", &mut TranscribedRunner::new(&autogen)), Ok(Some("app_autogen".to_string())));
    assert!(autogen.calls.borrow()[0].1[2].contains(r"'C:/repo\build\build.ninja'"));
}

#[test]
fn ensure_success_reports_stderr() {
    let failed = CommandOutput {
        status: None,
        stdout: "out".to_string(),
        stderr: "killed".to_string(),
    };
    assert_eq!(
        ensure_success("cmake", failed),
        Err(ToolkitError::CommandFailed("cmake exited unsuccessfully: killed".to_string()))
    );
}

#[test]
fn tool_probes() {
    let runner = QueueRunner::new([ok("cmake 3.29"), Err(ToolkitError::IoMessage("no".to_string()))]);
    assert_eq!(discover_cmake(&mut TranscribedRunner::new(&runner)), Ok("cmake".to_string()));
    assert_eq!(discover_cmake(&mut TranscribedRunner::new(&runner)), Err(ToolkitError::MissingCmake));
    let ninja = QueueRunner::new([ok("1.12")]);
    assert_eq!(discover_ninja(&mut TranscribedRunner::new(&ninja)), Some("ninja".to_string()));
    let none = QueueRunner::new([]);
    assert_eq!(select_generator(&mut TranscribedRunner::new(&none)), CmakeGenerator::VisualStudio2022);
}

#[test]
fn non_msvc_toolchains_keep_their_commands() {
    let config = resolve_config(Some(UserConfig {
        preset: Some("clang-cmake-ninja".to_string()),
        ..UserConfig::default()
    }))
    .unwrap();
    let runner = QueueRunner::new([]);
    assert_eq!(prepare_task_config(&config, &mut TranscribedRunner::new(&runner)), Ok(config));
    assert!(runner.calls.borrow().is_empty());
}

#[test]
fn configure_script_quotes_every_argument() {
    let script = cmake_configure_script("C:/repo", "build", "Debug", r"C:\VS");
    assert_eq!(
        script,
        "$ErrorActionPreference='Stop'; & cmd.exe /S /C 'call \"C:\\VS\\Common7\\Tools\\VsDevCmd.bat\" -arch=x64 -host_arch=x64 && cmake \"-S\" \"C:/repo\" \"-B\" \"C:/repo\\build\" \"-G\" \"Ninja\" \"-DCMAKE_C_COMPILER=cl\" \"-DCMAKE_CXX_COMPILER=cl\" \"-DCMAKE_BUILD_TYPE=Debug\" \"-DCMAKE_EXPORT_COMPILE_COMMANDS=ON\"'"
    );
}

#[test]
fn legacy_task_file_is_compact_json() {
    let json = generate_tasks_json(&TaskOptions::default()).unwrap();
    assert_eq!(
        json,
        "[{\"args\":[\"-S\",\"$ZED_WORKTREE_ROOT\",\"-B\",\"$ZED_WORKTREE_ROOT/build\",\"-DCMAKE_BUILD_TYPE=Debug\"],\"command\":\"cmake\",\"env\":{},\"label\":\"CMake: Configure (Debug)\"},{\"args\":[\"--build\",\"$ZED_WORKTREE_ROOT/build\",\"--config\",\"Debug\"],\"command\":\"cmake\",\"env\":{},\"label\":\"CMake: Build (Debug)\"}]"
    );
}

#[test]
fn shell_follows_the_separator() {
    assert_eq!(shell_for_separator('\\'), ShellKind::Powershell);
    assert_eq!(shell_for_separator('/'), ShellKind::Sh);
}

#[test]
fn database_selection_prefers_the_root() {
    assert_eq!(select_database("/p", true, true), Some("/p/compile_commands.json".to_string()));
    assert_eq!(select_database("/p", false, true), Some("/p/build/compile_commands.json".to_string()));
    assert_eq!(select_database("/p", false, false), None);
}

#[test]
fn host_database_selection_prefers_the_root() {
    assert_eq!(select_host_database(r"C:\repo", "build", true, true), Some(r"C:\repo".to_string()));
    assert_eq!(select_host_database(r"C:\repo", "build", false, true), Some(r"C:\repo\build".to_string()));
    assert_eq!(select_host_database(r"C:\repo", "build", false, false), None);
}

#[test]
fn file_api_targets_win_over_build_ninja() {
    let from_api = vec![CmakeTarget { name: "api".to_string(), output: Some("api.exe".to_string()), executable: true }];
    let ninja = "build app: CXX_EXECUTABLE_LINKER__app_Debug main.o\n".to_string();
    assert_eq!(targets_from_sources(Some(from_api.clone()), Some(ninja.clone())), from_api);
    assert_eq!(
        targets_from_sources(None, Some(ninja)),
        vec![CmakeTarget { name: "app".to_string(), output: Some("app".to_string()), executable: true }]
    );
    assert_eq!(targets_from_sources(None, None), Vec::new());
}

#[test]
fn ninja_lines_never_offer_cmake_housekeeping_targets() {
    assert_eq!(parse_cmake_targets_from_ninja("build all: phony app\nbuild clean: phony\nbuild edit_cache: phony\n"), Vec::new());
    assert_eq!(
        parse_cmake_targets_from_ninja("build CMakeFiles/app.dir/x: CXX_EXECUTABLE_LINKER__app a.o\n"),
        Vec::new()
    );
    assert_eq!(
        parse_cmake_targets_from_ninja("build out/app.exe: CXX_EXECUTABLE_LINKER__app a.o\nbuild tools: phony\n"),
        vec![
            CmakeTarget { name: "app".to_string(), output: Some("out/app.exe".to_string()), executable: true },
            CmakeTarget { name: "tools".to_string(), output: None, executable: false },
        ]
    );
}

fn reads(
    reply_is_dir: bool,
    names: Vec<&str>,
    index: &str,
    codemodel: &str,
    targets: Vec<ToolkitResult<String>>,
) -> FileApiReads {
    FileApiReads {
        reply_is_dir,
        entry_names: Ok(names.into_iter().map(|n| n.to_string()).collect()),
        index_text: Ok(index.to_string()),
        codemodel_text: Ok(codemodel.to_string()),
        target_texts: targets,
    }
}

const INDEX: &str = r#"{ "reply": { "codemodel-v2": { "jsonFile": "cm.json" } } }"#;
const CODEMODEL: &str = r#"{ "configurations": [ { "targets": [ { "jsonFile": "a.json" } ] } ] }"#;
const APP: &str = r#"{ "name": "app", "type": "EXECUTABLE", "artifacts": [ { "path": "bin/app" } ] }"#;

#[test]
fn file_api_reads_without_a_reply_give_none() {
    assert_eq!(file_api_targets_from_reads(reads(false, vec![], "", "", vec![])), Ok(None));
    assert_eq!(file_api_targets_from_reads(reads(true, vec!["cm.json"], INDEX, CODEMODEL, vec![])), Ok(None));
    assert_eq!(
        file_api_targets_from_reads(reads(true, vec!["index-1.json"], r#"{ "reply": {} }"#, "", vec![])),
        Ok(None)
    );
    let mut failed = reads(true, vec![], "", "", vec![]);
    failed.entry_names = Err(ToolkitError::IoMessage("denied".to_string()));
    assert_eq!(file_api_targets_from_reads(failed), Err(ToolkitError::IoMessage("denied".to_string())));
}

#[test]
fn file_api_reads_give_the_listed_targets_or_the_first_failure() {
    assert_eq!(
        file_api_targets_from_reads(reads(true, vec!["index-1.json"], INDEX, CODEMODEL, vec![Ok(APP.to_string())])),
        Ok(Some(vec![CmakeTarget { name: "app".to_string(), output: Some("bin/app".to_string()), executable: true }]))
    );
    assert_eq!(
        file_api_targets_from_reads(reads(
            true,
            vec!["index-1.json"],
            INDEX,
            CODEMODEL,
            vec![Err(ToolkitError::IoMessage("gone".to_string()))]
        )),
        Err(ToolkitError::IoMessage("gone".to_string()))
    );
    assert!(matches!(
        file_api_targets_from_reads(reads(true, vec!["index-1.json"], "{ broken", CODEMODEL, vec![])),
        Err(ToolkitError::IoMessage(_))
    ));
}
