//! The clangd language server: its launch command, and the workspace files
//! (`.clangd`, `.zed/tasks.json`, example configurations) prepared before
//! it starts.
use crate::error::{ToolkitError, ToolkitErrorView, ToolkitResult};
use crate::lsp::clangd_config::{ClangdConfigInput, ClangdConfigInputView, GENERATED_MARKER, LEGACY_GENERATED_MARKER};
use crate::lsp::launch::{env_view, LaunchCommand};
use crate::config::schema::{EffectiveConfig, EffectiveConfigView};
use crate::environment::tools::require_clangd;
use crate::build::shell::shell_for_root_path;
use crate::build::tasks::generate_cpp_tasks_json;
use crate::cmake::file_api::{
    discover_cmake_targets_from_file_api, file_api_outcome, file_api_reads_asked, file_api_result_view, reads_complete,
    FileApiReadsView,
};
use crate::cmake::targets::{is_dedupe_of, ninja_targets, parse_cmake_targets_from_ninja};
use crate::cmake::tasks::{targets_view, CmakeTarget};
use crate::config::merge::{is_windows_path_spec, resolve_config_for_root_path, resolve_spec, HostPlatform};
use crate::environment::discovery::{discover_msvc_environment, MsvcEnvironment};
use crate::environment::tools::CommandRunner;
use crate::files::{FileCall, LocalFiles, RecordedFiles};
use crate::lsp::compile_database::{database_ensured, ensure_compile_database};
use crate::lsp::examples::{
    cpp_toolkit_example_configs, LINUX_EXAMPLE_CONFIG, MACOS_EXAMPLE_CONFIG, WINDOWS_EXAMPLE_CONFIG,
};
use crate::lsp::host::{
    bool_answer, clangd_components, last_stdout, printed_text_answer, read_build_ninja_args, read_cmake_build_ninja,
    shell_program, tasks_components, unit_result_view, workspace_exists_args, workspace_file_exists,
    workspace_says_exists, workspace_write_args, write_clangd_file, write_tasks_file, write_workspace_text_file,
};
use crate::environment::tools::{answer_stdout, extends, one_more_call, RunnerCall};
use crate::environment::discovery::{is_discovered_environment, msvc_discovery};
use crate::environment::vswhere::{vswhere_args_spec, VSWHERE_PATH};
use crate::toolchain::msvc::prepared_for_answer;
use crate::lsp::clangd_config::render_spec;
use crate::build::tasks::tasks_json_spec;
use crate::build::shell::shell_for_root_path_spec;
use crate::cmake::tasks::CmakeTargetView;
use crate::paths::strs_of;
use crate::lsp::workspace_config::{decide_clangd_file, ClangdFileDecision};
use crate::text::{is_control, push_char, split_on,
    append_str, chars_of, contains, copy_string, copy_strings, has_char_exec, has_substring, join_strings,
    join_with, opt_view, owned, str_eq, strs_view,
};
use crate::environment::tools::TranscribedRunner;
use vstd::prelude::*;

verus! {

/// The id under which the extension serves clangd.
pub const LANGUAGE_SERVER_ID: &'static str = "cpp-toolkit-clangd";

/// The arguments clangd always gets.
pub open spec fn clangd_args_spec() -> Seq<Seq<char>> {
    seq!["--header-insertion=never"@, "--log=verbose"@]
}

/// clangd's fixed arguments: no header insertion, verbose log.
pub fn clangd_args() -> (r: Vec<String>)
    ensures
        strs_view(r@) == clangd_args_spec(),
{
    let r = vec![owned("--header-insertion=never"), owned("--log=verbose")];
    assert(strs_view(r@) =~= clangd_args_spec());
    r
}

/// Accepts only the clangd server id; any other id is
/// `UnsupportedLanguageServer` with that id.
pub fn validate_language_server_id(id: &str) -> (r: ToolkitResult<()>)
    ensures
        id@ == LANGUAGE_SERVER_ID@ <==> r is Ok,
        r matches Err(e) ==> e@ == ToolkitErrorView::UnsupportedLanguageServer(id@),
{
    if str_eq(id, LANGUAGE_SERVER_ID) {
        Ok(())
    } else {
        Err(ToolkitError::UnsupportedLanguageServer(owned(id)))
    }
}

/// clangd's arguments for a set of query drivers: the fixed arguments, then
/// `--query-driver=<a>,<b>,...` unless there are none.
pub open spec fn clangd_command_args_spec(query_driver: Seq<Seq<char>>) -> Seq<Seq<char>> {
    if query_driver.len() == 0 {
        clangd_args_spec()
    } else {
        clangd_args_spec().push("--query-driver="@ + join_with(query_driver, ","@))
    }
}

/// The clangd launch command.
pub fn build_clangd_command(command: String, env: Vec<(String, String)>, query_driver: Vec<String>) -> (r:
    LaunchCommand)
    ensures
        r@.command == command@,
        r@.args == clangd_command_args_spec(strs_view(query_driver@)),
        r@.env == env_view(env@),
{
    let mut args = clangd_args();
    if query_driver.len() > 0 {
        let mut flag = owned("--query-driver=");
        let joined = join_strings(&query_driver, ",");
        append_str(&mut flag, joined.as_str());
        let ghost before = args@;
        args.push(flag);
        assert(strs_view(args@) =~= strs_view(before).push(flag@));
    }
    LaunchCommand { command, args, env }
}

/// A configured command that names a path rather than a program to look
/// up: it holds a `/` or `\`, or its second byte is `:` (as in `C:`),
/// which needs an ASCII first character.
pub open spec fn is_explicit_command_path_spec(command: Seq<char>) -> bool {
    ||| crate::text::has_char(command, '/')
    ||| crate::text::has_char(command, '\\')
    ||| (command.len() >= 2 && (command[0] as u32) < 128 && command[1] == ':')
}

/// Whether a configured command is a path.
pub fn is_explicit_command_path(command: &str) -> (r: bool)
    ensures
        r == is_explicit_command_path_spec(command@),
{
    let v = chars_of(command);
    has_char_exec(&v, '/') || has_char_exec(&v, '\\') || (v.len() >= 2 && (v[0] as u32) < 128 && v[1] == ':')
}

/// The clangd to run: the one found on `PATH`; else, for the default name
/// `clangd`, `MissingClangd`; else the configured command itself when it is
/// a path, and `MissingTool` naming it when it is not.
pub fn resolve_clangd_command(configured_command: &str, discovered: Option<String>) -> (r: ToolkitResult<String>)
    ensures
        match discovered {
            Some(d) => r matches Ok(c) && c@ == d@,
            None => if configured_command@ == "clangd"@ {
                r matches Err(e) && e == ToolkitError::MissingClangd
            } else if is_explicit_command_path_spec(configured_command@) {
                r matches Ok(c) && c@ == configured_command@
            } else {
                r matches Err(e) && e@ == ToolkitErrorView::MissingTool(configured_command@)
            },
        },
{
    if let Some(command) = discovered {
        return Ok(command);
    }
    if str_eq(configured_command, "clangd") {
        return require_clangd(None);
    }
    if is_explicit_command_path(configured_command) {
        Ok(owned(configured_command))
    } else {
        Err(ToolkitError::MissingTool(owned(configured_command)))
    }
}

/// A `.clangd` the user wrote: it carries neither generated-file marker.
pub open spec fn is_user_clangd_config_spec(contents: Seq<char>) -> bool {
    !contains(contents, LEGACY_GENERATED_MARKER@) && !contains(contents, GENERATED_MARKER@)
}

/// Whether an existing `.clangd` is the user's own.
pub fn is_user_clangd_config(contents: &str) -> (r: bool)
    ensures
        r == is_user_clangd_config_spec(contents@),
{
    let v = chars_of(contents);
    !has_substring(&v, &chars_of(LEGACY_GENERATED_MARKER)) && !has_substring(&v, &chars_of(GENERATED_MARKER))
}

/// Whether the workspace's `.clangd` is (re)written: when there is none,
/// and when the existing one is a generated file.
pub open spec fn should_write_clangd_spec(existing: Option<Seq<char>>) -> bool {
    match existing {
        None => true,
        Some(contents) => !is_user_clangd_config_spec(contents),
    }
}

/// Whether to write the generated `.clangd` over what the workspace has.
pub fn should_write_generated_clangd(existing: &Option<String>) -> (r: bool)
    ensures
        r == should_write_clangd_spec(opt_view(*existing)),
{
    match existing {
        None => true,
        Some(contents) => !is_user_clangd_config(contents.as_str()),
    }
}

/// Whether the compilation database is produced the MSVC way (running
/// CMake inside the developer environment): for the `msvc` toolchain with
/// the `cmake` build system.
pub open spec fn legacy_msvc_fallback_spec(config: EffectiveConfigView) -> bool {
    config.toolchain.name == "msvc"@ && config.build.system == "cmake"@
}

/// Whether to produce a missing compilation database the MSVC way.
pub fn should_run_legacy_msvc_compile_database_fallback(config: &EffectiveConfig) -> (r: bool)
    ensures
        r == legacy_msvc_fallback_spec(config@),
{
    str_eq(config.toolchain.name.as_str(), "msvc") && str_eq(config.build.system.as_str(), "cmake")
}

/// The `.clangd` input of a configuration: its compiler, database
/// directory and extra flags, with the MSVC includes that were found.
pub fn workspace_clangd_input(config: &EffectiveConfig, msvc_include: Option<String>, sdk_includes: Vec<String>) -> (r:
    ClangdConfigInput)
    ensures
        r@ == (ClangdConfigInputView {
            compiler: config@.clangd.compiler,
            compile_commands_dir: config@.clangd.compile_commands_dir,
            extra_flags: config@.clangd.extra_flags,
            msvc_include: opt_view(msvc_include),
            sdk_includes: strs_view(sdk_includes@),
            compile_database_path: None,
        }),
{
    ClangdConfigInput {
        compiler: copy_string(&config.clangd.compiler),
        compile_commands_dir: copy_string(&config.clangd.compile_commands_dir),
        extra_flags: copy_strings(&config.clangd.extra_flags),
        msvc_include,
        sdk_includes,
        compile_database_path: None,
    }
}

/// The MSVC environment, looked for only for the `msvc` toolchain; a
/// failed discovery gives `None`. Other toolchains run no command.
pub fn discover_optional_msvc_environment<R: CommandRunner>(config: &EffectiveConfig, runner: &mut TranscribedRunner<R>) -> (r: Option<
    MsvcEnvironment,
>)
    ensures
        extends(old(runner).transcript(), final(runner).transcript()),
        config.toolchain.name@ != "msvc"@ ==> r is None && final(runner).transcript() == old(runner).transcript(),
        config.toolchain.name@ == "msvc"@ ==> msvc_discovery(
            old(runner).transcript(),
            final(runner).transcript(),
            match r {
                Some(env) => Some((env.visual_studio_root@, env.msvc_include@, strs_view(env.sdk_includes@))),
                None => None,
            },
        ),
        r matches Some(env) ==> is_discovered_environment(env),
{
    if !str_eq(config.toolchain.name.as_str(), "msvc") {
        return None;
    }
    match discover_msvc_environment(runner) {
        Ok(environment) => Some(environment),
        Err(_) => None,
    }
}

/// The generated `.clangd` of a configuration with the MSVC includes that
/// were found.
pub open spec fn generated_clangd_spec(
    config: EffectiveConfigView,
    msvc_include: Option<Seq<char>>,
    sdk_includes: Seq<Seq<char>>,
) -> Seq<char> {
    render_spec(
        ClangdConfigInputView {
            compiler: config.clangd.compiler,
            compile_commands_dir: config.clangd.compile_commands_dir,
            extra_flags: config.clangd.extra_flags,
            msvc_include,
            sdk_includes,
            compile_database_path: None,
        },
    )
}

/// The MSVC includes a `.clangd` can carry: none, or (for the `msvc`
/// toolchain) those of a discovered environment.
pub open spec fn is_found_environment(
    config: EffectiveConfigView,
    msvc_include: Option<Seq<char>>,
    sdk_includes: Seq<Seq<char>>,
) -> bool {
    ||| msvc_include is None && sdk_includes.len() == 0
    ||| config.toolchain.name == "msvc"@ && exists|env: MsvcEnvironment|
        #[trigger] is_discovered_environment(env) && msvc_include == Some(env.msvc_include@) && sdk_includes
            == strs_view(env.sdk_includes@)
}

/// The transcript of writing the generated `.clangd`: for the `msvc`
/// toolchain the environment discovery, then one call that writes
/// `<root>/.clangd` with the text generated for the configuration and
/// what was found (for other toolchains only that call, without MSVC
/// includes).
pub open spec fn clangd_step(
    root_path: Seq<char>,
    config: EffectiveConfigView,
    before: Seq<RunnerCall>,
    after: Seq<RunnerCall>,
) -> bool {
    exists|discovered: Seq<RunnerCall>, msvc_include: Option<Seq<char>>, sdk_includes: Seq<Seq<char>>|
        #![trigger extends(before, discovered), generated_clangd_spec(config, msvc_include, sdk_includes)]
        {
            &&& extends(before, discovered)
            &&& config.toolchain.name != "msvc"@ ==> discovered == before && msvc_include is None
                && sdk_includes.len() == 0
            &&& config.toolchain.name == "msvc"@ ==> exists|found: Option<(Seq<char>, Seq<char>, Seq<Seq<char>>)>|
                #[trigger] msvc_discovery(before, discovered, found) && match found {
                    Some(f) => msvc_include == Some(f.1) && sdk_includes == f.2,
                    None => msvc_include is None && sdk_includes.len() == 0,
                }
            &&& is_found_environment(config, msvc_include, sdk_includes)
            &&& one_more_call(
                discovered,
                after,
                shell_program(root_path),
                workspace_write_args(root_path, clangd_components(), generated_clangd_spec(config, msvc_include, sdk_includes)),
            )
        }
}

/// Renders the `.clangd` of the configuration (with the MSVC includes, for
/// the `msvc` toolchain) and writes it to the workspace root. A failed
/// write does not stop clangd from starting: the result is always `Ok`.
pub fn write_generated_clangd<R: CommandRunner>(root_path: &str, config: &EffectiveConfig, runner: &mut TranscribedRunner<R>) -> (r:
    ToolkitResult<()>)
    ensures
        r is Ok,
        clangd_step(root_path@, config@, old(runner).transcript(), final(runner).transcript()),
        extends(old(runner).transcript(), final(runner).transcript()),
{
    let environment = discover_optional_msvc_environment(config, runner);
    let ghost discovered = runner.transcript();
    let ghost found = environment;
    let (msvc_include, sdk_includes) = match environment {
        Some(e) => (Some(e.msvc_include), e.sdk_includes),
        None => (None, Vec::new()),
    };
    let ghost inc = opt_view(msvc_include);
    let ghost sdks = strs_view(sdk_includes@);
    let input = workspace_clangd_input(config, msvc_include, sdk_includes);
    assert(input@ == (ClangdConfigInputView {
        compiler: config@.clangd.compiler,
        compile_commands_dir: config@.clangd.compile_commands_dir,
        extra_flags: config@.clangd.extra_flags,
        msvc_include: inc,
        sdk_includes: sdks,
        compile_database_path: None,
    }));
    match decide_clangd_file(root_path, None, &input) {
        ClangdFileDecision::Create { contents, .. } => {
            let _ = write_clangd_file(root_path, contents.as_str(), runner);
        },
        ClangdFileDecision::PreserveExisting { .. } => {},
    }
    proof {
        if let Some(e) = found {
            assert(is_discovered_environment(e));
        }
        if config@.toolchain.name == "msvc"@ {
            let f = match found {
                Some(env) => Some((env.visual_studio_root@, env.msvc_include@, strs_view(env.sdk_includes@))),
                None => None,
            };
            assert(msvc_discovery(old(runner).transcript(), discovered, f));
        }
        assert(is_found_environment(config@, inc, sdks));
        assert(generated_clangd_spec(config@, inc, sdks) == render_spec(input@));
        assert(extends(old(runner).transcript(), discovered));
        assert(one_more_call(
            discovered,
            runner.transcript(),
            shell_program(root_path@),
            workspace_write_args(root_path@, clangd_components(), generated_clangd_spec(config@, inc, sdks)),
        ));
    }
    Ok(())
}

/// Which targets are used, given what the file-api lookup and the reading
/// of `build.ninja` gave: the file-api's when it has a reply; else those
/// declared in `build.ninja`; else none.
pub open spec fn targets_from_sources_spec(
    file_api: Option<Seq<CmakeTargetView>>,
    ninja_text: Option<Seq<char>>,
    targets: Seq<CmakeTargetView>,
) -> bool {
    match file_api {
        Some(found) => targets == found,
        None => match ninja_text {
            Some(text) => is_dedupe_of(targets, ninja_targets(split_on(text, '\n'))),
            None => targets.len() == 0,
        },
    }
}

/// The targets to use, given the file-api's answer and the text of
/// `build.ninja`.
pub fn targets_from_sources(file_api: Option<Vec<CmakeTarget>>, ninja_text: Option<String>) -> (r: Vec<CmakeTarget>)
    ensures
        targets_from_sources_spec(
            match file_api {
                Some(ts) => Some(targets_view(ts@)),
                None => None,
            },
            opt_view(ninja_text),
            targets_view(r@),
        ),
{
    match file_api {
        Some(targets) => targets,
        None => match ninja_text {
            Some(text) => parse_cmake_targets_from_ninja(text.as_str()),
            None => Vec::new(),
        },
    }
}

/// The transcript of finding the targets of a build directory: no call
/// when the file-api lookup settled it (its targets, or its failure);
/// otherwise one call that prints `build.ninja`, whose answer gives the
/// targets declared there, none when it printed nothing, or the failure.
pub open spec fn build_dir_lookup(
    root_path: Seq<char>,
    build_dir: Seq<char>,
    before: Seq<RunnerCall>,
    after: Seq<RunnerCall>,
    files_before: Seq<FileCall>,
    files_after: Seq<FileCall>,
    result: Result<Seq<CmakeTargetView>, ToolkitErrorView>,
) -> bool {
    exists|reads: FileApiReadsView, found: Result<Option<Seq<CmakeTargetView>>, ToolkitErrorView>|
        #![trigger file_api_outcome(reads, found)]
        {
            &&& reads_complete(reads)
            &&& file_api_reads_asked(root_path, build_dir, files_before, files_after, reads)
            &&& file_api_outcome(reads, found)
            &&& match found {
                Ok(Some(ts)) => after == before && result == Ok::<Seq<CmakeTargetView>, ToolkitErrorView>(ts),
                Err(e) => after == before && result == Err::<Seq<CmakeTargetView>, ToolkitErrorView>(e),
                Ok(None) => {
                    &&& one_more_call(before, after, shell_program(root_path), read_build_ninja_args(root_path, build_dir))
                    &&& match printed_text_answer(last_stdout(after)) {
                        Ok(text) => result matches Ok(ts) && targets_from_sources_spec(None, text, ts),
                        Err(e) => result == Err::<Seq<CmakeTargetView>, ToolkitErrorView>(e),
                    }
                },
            }
        }
}

/// The model of a targets result.
pub open spec fn targets_result_view(r: ToolkitResult<Vec<CmakeTarget>>) -> Result<Seq<CmakeTargetView>, ToolkitErrorView> {
    match r {
        Ok(ts) => Ok(targets_view(ts@)),
        Err(e) => Err(e@),
    }
}

/// The CMake targets of `<root>/<build_dir>`: those CMake's file-api
/// reports when it has a reply, else those declared in `build.ninja`, else
/// none.
pub fn discover_cmake_targets_from_build_dir<R: CommandRunner, F: LocalFiles>(
    root_path: &str,
    build_dir: &str,
    runner: &mut TranscribedRunner<R>,
    files: &mut RecordedFiles<F>,
) -> (r: ToolkitResult<Vec<CmakeTarget>>)
    ensures
        build_dir_lookup(
            root_path@,
            build_dir@,
            old(runner).transcript(),
            final(runner).transcript(),
            old(files).transcript(),
            final(files).transcript(),
            targets_result_view(r),
        ),
{
    let found = discover_cmake_targets_from_file_api(root_path, build_dir, files);
    let ghost reads = choose|reads: FileApiReadsView|
        #![trigger file_api_outcome(reads, file_api_result_view(found))]
        {
            &&& reads_complete(reads)
            &&& file_api_reads_asked(root_path@, build_dir@, old(files).transcript(), files.transcript(), reads)
            &&& file_api_outcome(reads, file_api_result_view(found))
        };
    let ghost outcome = file_api_result_view(found);
    let file_api = match found {
        Ok(f) => f,
        Err(e) => {
            assert(file_api_outcome(reads, outcome));
            return Err(e);
        },
    };
    if file_api.is_some() {
        let r = targets_from_sources(file_api, None);
        assert(file_api_outcome(reads, outcome));
        return Ok(r);
    }
    let text = match read_cmake_build_ninja(root_path, build_dir, runner) {
        Ok(t) => t,
        Err(e) => {
            assert(file_api_outcome(reads, outcome));
            return Err(e);
        },
    };
    let r = targets_from_sources(None, text);
    assert(file_api_outcome(reads, outcome));
    Ok(r)
}

/// The configuration tasks are generated from, given the transcript after
/// preparing it: the configuration itself, or for the `msvc` toolchain its
/// commands wrapped for the installation `vswhere` printed.
pub open spec fn is_task_config_for(
    config: EffectiveConfigView,
    prepared: Seq<RunnerCall>,
    task_config: EffectiveConfigView,
) -> bool {
    if config.toolchain.name == "msvc"@ {
        prepared_for_answer(config, prepared.last().answer) == Ok::<EffectiveConfigView, ToolkitErrorView>(task_config)
    } else {
        task_config == config
    }
}

/// The transcript of a tasks step that stopped at its preparation: for the
/// `msvc` toolchain, the `vswhere` query, whose failure is the result.
pub open spec fn task_preparation_failed(
    config: EffectiveConfigView,
    before: Seq<RunnerCall>,
    after: Seq<RunnerCall>,
    files_before: Seq<FileCall>,
    files_after: Seq<FileCall>,
    result: Result<(), ToolkitErrorView>,
) -> bool {
    &&& files_after == files_before
    &&& config.toolchain.name == "msvc"@
    &&& one_more_call(before, after, VSWHERE_PATH@, vswhere_args_spec())
    &&& prepared_for_answer(config, after.last().answer) matches Err(e)
    &&& result == Err::<(), ToolkitErrorView>(e)
}

/// The transcript of looking for the targets of a configuration: for the
/// `cmake` build system, the build-directory lookup (a failure means no
/// targets); for any other, no call and no targets.
pub open spec fn task_targets_lookup(
    root_path: Seq<char>,
    config: EffectiveConfigView,
    before: Seq<RunnerCall>,
    after: Seq<RunnerCall>,
    files_before: Seq<FileCall>,
    files_after: Seq<FileCall>,
    targets: Seq<CmakeTargetView>,
) -> bool {
    if config.build.system == "cmake"@ {
        exists|result: Result<Seq<CmakeTargetView>, ToolkitErrorView>|
            #[trigger] build_dir_lookup(root_path, config.build.build_dir, before, after, files_before, files_after, result)
                && match result {
                Ok(ts) => targets == ts,
                Err(_) => targets.len() == 0,
            }
    } else {
        after == before && files_after == files_before && targets.len() == 0
    }
}

/// The transcript of writing `.zed/tasks.json`: for the `msvc` toolchain
/// the `vswhere` query; the target lookup; then one call that writes
/// `<root>/.zed/tasks.json` with the tasks generated for the prepared
/// configuration, the root's shell and the targets found. The result is
/// that of the write.
pub open spec fn tasks_step(
    root_path: Seq<char>,
    config: EffectiveConfigView,
    before: Seq<RunnerCall>,
    after: Seq<RunnerCall>,
    files_before: Seq<FileCall>,
    files_after: Seq<FileCall>,
    result: Result<(), ToolkitErrorView>,
) -> bool {
    exists|prepared: Seq<RunnerCall>, task_config: EffectiveConfigView, looked_up: Seq<RunnerCall>, targets: Seq<
        CmakeTargetView,
    >|
        #![trigger task_targets_lookup(root_path, config, prepared, looked_up, files_before, files_after, targets), is_task_config_for(config, prepared, task_config)]
        {
            &&& if config.toolchain.name == "msvc"@ {
                one_more_call(before, prepared, VSWHERE_PATH@, vswhere_args_spec())
            } else {
                prepared == before
            }
            &&& is_task_config_for(config, prepared, task_config)
            &&& task_targets_lookup(root_path, config, prepared, looked_up, files_before, files_after, targets)
            &&& one_more_call(
                looked_up,
                after,
                shell_program(root_path),
                workspace_write_args(
                    root_path,
                    tasks_components(),
                    tasks_json_spec(task_config, shell_for_root_path_spec(root_path), targets),
                ),
            )
            &&& result == match last_stdout(after) {
                Ok(_) => Ok(()),
                Err(e) => Err(e),
            }
        }
}

/// Writes `.zed/tasks.json`: the tasks of the configuration prepared for
/// its toolchain, with one build and run task per CMake target found (for
/// the `cmake` build system; a failed discovery means no targets). For the
/// `msvc` toolchain a failure to find Visual Studio is passed on and
/// nothing is written; a failed write is passed on.
pub fn write_generated_tasks<R: CommandRunner, F: LocalFiles>(
    root_path: &str,
    config: &EffectiveConfig,
    runner: &mut TranscribedRunner<R>,
    files: &mut RecordedFiles<F>,
) -> (r: ToolkitResult<()>)
    ensures
        extends(old(runner).transcript(), final(runner).transcript()),
        tasks_step(
            root_path@,
            config@,
            old(runner).transcript(),
            final(runner).transcript(),
            old(files).transcript(),
            final(files).transcript(),
            unit_result_view(r),
        ) || task_preparation_failed(
            config@,
            old(runner).transcript(),
            final(runner).transcript(),
            old(files).transcript(),
            final(files).transcript(),
            unit_result_view(r),
        ),
{
    let task_config = match crate::toolchain::prepare_task_config(config, runner) {
        Ok(c) => c,
        Err(e) => return Err(e),
    };
    let ghost prepared = runner.transcript();
    let cmake_targets = if str_eq(config.build.system.as_str(), "cmake") {
        let found = discover_cmake_targets_from_build_dir(root_path, config.build.build_dir.as_str(), runner, files);
        proof {
            assert(build_dir_lookup(
                root_path@,
                config@.build.build_dir,
                prepared,
                runner.transcript(),
                old(files).transcript(),
                files.transcript(),
                targets_result_view(found),
            ));
        }
        match found {
            Ok(targets) => targets,
            Err(_) => Vec::new(),
        }
    } else {
        Vec::new()
    };
    let ghost looked_up = runner.transcript();
    let contents = match generate_cpp_tasks_json(&task_config, shell_for_root_path(root_path), cmake_targets.as_slice()) {
        Ok(c) => c,
        Err(e) => return Err(e),
    };
    let written = write_tasks_file(root_path, contents.as_str(), runner);
    proof {
        assert(is_task_config_for(config@, prepared, task_config@));
        assert(task_targets_lookup(
            root_path@,
            config@,
            prepared,
            looked_up,
            old(files).transcript(),
            files.transcript(),
            targets_view(cmake_targets@),
        ));
    }
    written
}

/// The names and contents of the example configurations, in order.
pub open spec fn example_components(i: int) -> Seq<Seq<char>> {
    seq![
        ".zed"@,
        if i == 0 {
            "cpp-toolkit.windows.example.toml"@
        } else if i == 1 {
            "cpp-toolkit.linux.example.toml"@
        } else {
            "cpp-toolkit.macos.example.toml"@
        },
    ]
}

/// The contents of each example configuration.
pub open spec fn example_contents(i: int) -> Seq<char> {
    if i == 0 {
        WINDOWS_EXAMPLE_CONFIG@
    } else if i == 1 {
        LINUX_EXAMPLE_CONFIG@
    } else {
        MACOS_EXAMPLE_CONFIG@
    }
}

/// The transcript of one example: one call that asks whether
/// `.zed/<name>` exists; when the answer is no, one call that writes it.
/// The result is the first failure, else `Ok`.
pub open spec fn example_step(
    root_path: Seq<char>,
    i: int,
    before: Seq<RunnerCall>,
    after: Seq<RunnerCall>,
    result: Result<(), ToolkitErrorView>,
) -> bool {
    let n = before.len() as int;
    &&& extends(before, after)
    &&& after.len() > n
    &&& after[n].program == shell_program(root_path)
    &&& after[n].args == workspace_exists_args(root_path, example_components(i))
    &&& match bool_answer(
        answer_stdout(after[n].program, after[n].answer),
        |stdout: Seq<char>| workspace_says_exists(root_path, stdout),
    ) {
        Ok(true) => after.len() == n + 1 && result == Ok::<(), ToolkitErrorView>(()),
        Ok(false) => {
            &&& after.len() == n + 2
            &&& after[n + 1].program == shell_program(root_path)
            &&& after[n + 1].args == workspace_write_args(root_path, example_components(i), example_contents(i))
            &&& result == match last_stdout(after) {
                Ok(_) => Ok(()),
                Err(e) => Err(e),
            }
        },
        Err(e) => after.len() == n + 1 && result == Err::<(), ToolkitErrorView>(e),
    }
}

/// Writes one example configuration unless a file of that name is there.
fn write_example_if_missing<R: CommandRunner>(root_path: &str, i: usize, runner: &mut TranscribedRunner<R>) -> (r: ToolkitResult<()>)
    requires
        i < 3,
    ensures
        example_step(root_path@, i as int, old(runner).transcript(), final(runner).transcript(), unit_result_view(r)),
{
    let examples = cpp_toolkit_example_configs();
    let example = &examples[i];
    let components: [&str; 2] = [".zed", example.file_name];
    assert(strs_of(components@) =~= example_components(i as int));
    assert(example.contents@ == example_contents(i as int));
    let ghost n = old(runner).transcript().len() as int;
    let exists = match workspace_file_exists(root_path, &components, runner) {
        Ok(b) => b,
        Err(e) => return Err(e),
    };
    if exists {
        return Ok(());
    }
    let ghost asked = runner.transcript();
    let written = write_workspace_text_file(root_path, &components, example.contents, runner);
    assert(runner.transcript()[n] == asked[n]);
    written
}

/// The transcript of the three examples, in order, stopping at the first
/// failure, which is the result.
pub open spec fn examples_run(
    root_path: Seq<char>,
    before: Seq<RunnerCall>,
    after: Seq<RunnerCall>,
    result: Result<(), ToolkitErrorView>,
) -> bool {
    exists|t1: Seq<RunnerCall>, r1: Result<(), ToolkitErrorView>|
        #![trigger example_step(root_path, 0, before, t1, r1)]
        {
            &&& example_step(root_path, 0, before, t1, r1)
            &&& r1 is Err ==> after == t1 && result == r1
            &&& r1 is Ok ==> exists|t2: Seq<RunnerCall>, r2: Result<(), ToolkitErrorView>|
                #![trigger example_step(root_path, 1, t1, t2, r2)]
                {
                    &&& example_step(root_path, 1, t1, t2, r2)
                    &&& r2 is Err ==> after == t2 && result == r2
                    &&& r2 is Ok ==> example_step(root_path, 2, t2, after, result)
                }
        }
}

/// Writes each platform's example configuration to `.zed/` unless a file of
/// that name is already there; a failed check or write is passed on.
pub fn write_example_config_if_missing<R: CommandRunner>(root_path: &str, runner: &mut TranscribedRunner<R>) -> (r: ToolkitResult<()>)
    ensures
        examples_run(root_path@, old(runner).transcript(), final(runner).transcript(), unit_result_view(r)),
        extends(old(runner).transcript(), final(runner).transcript()),
{
    let first = write_example_if_missing(root_path, 0, runner);
    let ghost t1 = runner.transcript();
    let ghost r1 = unit_result_view(first);
    if first.is_err() {
        return first;
    }
    let second = write_example_if_missing(root_path, 1, runner);
    let ghost t2 = runner.transcript();
    let ghost r2 = unit_result_view(second);
    if second.is_err() {
        assert(example_step(root_path@, 1, t1, t2, r2));
        return second;
    }
    let third = write_example_if_missing(root_path, 2, runner);
    assert(example_step(root_path@, 1, t1, t2, r2));
    third
}

/// The tasks step, finished or stopped at its preparation.
pub open spec fn tasks_part(
    root_path: Seq<char>,
    config: EffectiveConfigView,
    before: Seq<RunnerCall>,
    after: Seq<RunnerCall>,
    files_before: Seq<FileCall>,
    files_after: Seq<FileCall>,
) -> bool {
    ||| exists|outcome: Result<(), ToolkitErrorView>|
        #[trigger] tasks_step(root_path, config, before, after, files_before, files_after, outcome)
    ||| exists|outcome: Result<(), ToolkitErrorView>|
        #[trigger] task_preparation_failed(config, before, after, files_before, files_after, outcome)
}

/// The steps of preparing a workspace, with the transcript after the
/// examples, after the database step and after the `.clangd` step: the
/// examples; then, unless the workspace has a `.clangd` of the user's own,
/// the database step (for MSVC with CMake) and the generated `.clangd`;
/// then the tasks (whose preparation may fail for MSVC, writing nothing).
pub open spec fn preparation_steps(
    root_path: Seq<char>,
    existing_clangd: Option<Seq<char>>,
    config: EffectiveConfigView,
    before: Seq<RunnerCall>,
    after: Seq<RunnerCall>,
    files_before: Seq<FileCall>,
    files_after: Seq<FileCall>,
    examples: Seq<RunnerCall>,
    ensured: Seq<RunnerCall>,
    generated: Seq<RunnerCall>,
) -> bool {
    &&& extends(before, examples)
    &&& extends(examples, ensured)
    &&& extends(ensured, generated)
    &&& exists|outcome: Result<(), ToolkitErrorView>| #[trigger] examples_run(root_path, before, examples, outcome)
    &&& if should_write_clangd_spec(existing_clangd) {
        &&& if legacy_msvc_fallback_spec(config) {
            exists|found: Option<Seq<char>>, files_ensured: Seq<FileCall>|
                #![trigger database_ensured(root_path, config.build.build_dir, config.build.build_type, examples, ensured, files_before, files_ensured, found)]
                {
                    &&& database_ensured(
                        root_path,
                        config.build.build_dir,
                        config.build.build_type,
                        examples,
                        ensured,
                        files_before,
                        files_ensured,
                        found,
                    )
                    &&& tasks_part(root_path, config, generated, after, files_ensured, files_after)
                }
        } else {
            ensured == examples && tasks_part(root_path, config, generated, after, files_before, files_after)
        }
        &&& clangd_step(root_path, config, ensured, generated)
    } else {
        generated == examples && tasks_part(root_path, config, generated, after, files_before, files_after)
    }
}

/// The transcripts of preparing a workspace: some split of them into the
/// steps of `preparation_steps`.
pub open spec fn workspace_preparation(
    root_path: Seq<char>,
    existing_clangd: Option<Seq<char>>,
    config: EffectiveConfigView,
    before: Seq<RunnerCall>,
    after: Seq<RunnerCall>,
    files_before: Seq<FileCall>,
    files_after: Seq<FileCall>,
) -> bool {
    exists|examples: Seq<RunnerCall>, ensured: Seq<RunnerCall>, generated: Seq<RunnerCall>|
        #[trigger] preparation_steps(
            root_path,
            existing_clangd,
            config,
            before,
            after,
            files_before,
            files_after,
            examples,
            ensured,
            generated,
        )
}

/// Prepares the workspace for clangd with a resolved configuration: writes
/// the example configurations; keeps a user-authored `.clangd` (then only
/// the tasks are written); otherwise, for MSVC with CMake, makes sure there
/// is a compilation database, then writes the generated `.clangd` and the
/// tasks. Nothing that fails on the way stops clangd: the result is always
/// `Ok`.
pub fn prepare_workspace_config_with_config<R: CommandRunner, F: LocalFiles>(
    root_path: &str,
    existing_clangd: Option<String>,
    config: &EffectiveConfig,
    runner: &mut TranscribedRunner<R>,
    files: &mut RecordedFiles<F>,
) -> (r: ToolkitResult<()>)
    ensures
        r is Ok,
        workspace_preparation(
            root_path@,
            opt_view(existing_clangd),
            config@,
            old(runner).transcript(),
            final(runner).transcript(),
            old(files).transcript(),
            final(files).transcript(),
        ),
{
    let examples_result = write_example_config_if_missing(root_path, runner);
    let ghost examples = runner.transcript();
    let ghost examples_outcome = unit_result_view(examples_result);
    let ghost mut ensured = examples;
    let ghost mut generated = examples;
    let ghost mut found_v: Option<Seq<char>> = None;
    let ghost mut files_ensured = files.transcript();
    let write_clangd = should_write_generated_clangd(&existing_clangd);
    if write_clangd {
        if should_run_legacy_msvc_compile_database_fallback(config) {
            let found = ensure_compile_database(
                root_path,
                config.build.build_dir.as_str(),
                config.build.build_type.as_str(),
                runner,
                files,
            );
            proof {
                found_v = opt_view(found);
                files_ensured = files.transcript();
            }
        }
        proof {
            ensured = runner.transcript();
        }
        let _ = write_generated_clangd(root_path, config, runner);
        proof {
            generated = runner.transcript();
        }
    }
    let tasks = write_generated_tasks(root_path, config, runner, files);
    proof {
        assert(examples_run(root_path@, old(runner).transcript(), examples, examples_outcome));
        assert(extends(old(runner).transcript(), examples));
        assert(extends(examples, ensured));
        assert(extends(ensured, generated));
        let outcome = unit_result_view(tasks);
        if tasks_step(root_path@, config@, generated, runner.transcript(), files_ensured, files.transcript(), outcome) {
        } else {
            assert(task_preparation_failed(config@, generated, runner.transcript(), files_ensured, files.transcript(), outcome));
        }
        assert(tasks_part(root_path@, config@, generated, runner.transcript(), files_ensured, files.transcript()));
        if write_clangd && legacy_msvc_fallback_spec(config@) {
            assert(database_ensured(
                root_path@,
                config@.build.build_dir,
                config@.build.build_type,
                examples,
                ensured,
                old(files).transcript(),
                files_ensured,
                found_v,
            ));
        }
        assert(preparation_steps(
            root_path@,
            opt_view(existing_clangd),
            config@,
            old(runner).transcript(),
            runner.transcript(),
            old(files).transcript(),
            files.transcript(),
            examples,
            ensured,
            generated,
        ));
    }
    Ok(())
}

/// The platform a root path is taken for: Windows for a Windows path,
/// Linux otherwise.
pub open spec fn root_platform(root_path: Seq<char>) -> HostPlatform {
    if is_windows_path_spec(root_path) {
        HostPlatform::Windows
    } else {
        HostPlatform::Linux
    }
}

/// Prepares the workspace for clangd with the configuration resolved from
/// the root path alone (no user configuration), which always resolves.
pub fn prepare_workspace_config<R: CommandRunner, F: LocalFiles>(
    root_path: &str,
    existing_clangd: Option<String>,
    runner: &mut TranscribedRunner<R>,
    files: &mut RecordedFiles<F>,
) -> (r: ToolkitResult<()>)
    ensures
        r is Ok,
        exists|config: EffectiveConfigView|
            #[trigger] resolve_spec(None, root_platform(root_path@)) == Ok::<EffectiveConfigView, ToolkitErrorView>(
                config,
            ) && workspace_preparation(
                root_path@,
                opt_view(existing_clangd),
                config,
                old(runner).transcript(),
                final(runner).transcript(),
                old(files).transcript(),
                final(files).transcript(),
            ),
{
    proof {
        crate::config::merge::lemma_default_preset_resolves(HostPlatform::Windows);
        crate::config::merge::lemma_default_preset_resolves(HostPlatform::Linux);
    }
    let config = resolve_config_for_root_path(None, root_path)?;
    prepare_workspace_config_with_config(root_path, existing_clangd, &config, runner, files)
}

/// At most this many characters of a text are shown in a preview.
pub const MAX_PREVIEW_CHARS: usize = 500;

/// A one-line preview: the first characters of the text with control
/// characters (line breaks among them) shown as spaces, and `...` when the
/// text is longer.
pub open spec fn one_line_preview_spec(contents: Seq<char>) -> Seq<char> {
    let shown = if contents.len() > MAX_PREVIEW_CHARS {
        contents.take(MAX_PREVIEW_CHARS as int)
    } else {
        contents
    };
    shown.map_values(|c: char| if is_control(c) { ' ' } else { c }) + if contents.len() > MAX_PREVIEW_CHARS {
        "..."@
    } else {
        Seq::empty()
    }
}

/// A one-line preview of a text, for log lines.
pub fn one_line_preview(contents: &str) -> (r: String)
    ensures
        r@ == one_line_preview_spec(contents@),
{
    let v = chars_of(contents);
    let n: usize = if v.len() > MAX_PREVIEW_CHARS {
        MAX_PREVIEW_CHARS
    } else {
        v.len()
    };
    let ghost shown = v@.take(n as int);
    let mut preview = String::new();
    let mut i: usize = 0;
    while i < n
        invariant
            v@ == contents@,
            n <= v.len(),
            shown == v@.take(n as int),
            i <= n,
            preview@ == shown.take(i as int).map_values(|c: char| if is_control(c) { ' ' } else { c }),
        decreases n - i,
    {
        let c = v[i];
        if crate::text::char_is_control(c) {
            push_char(&mut preview, ' ');
        } else {
            push_char(&mut preview, c);
        }
        assert(shown.take(i + 1).map_values(|c: char| if is_control(c) { ' ' } else { c }) =~= shown.take(
            i as int,
        ).map_values(|c: char| if is_control(c) { ' ' } else { c }).push(if is_control(c) { ' ' } else { c }));
        i = i + 1;
    }
    assert(shown.take(n as int) =~= shown);
    if v.len() > MAX_PREVIEW_CHARS {
        append_str(&mut preview, "...");
    } else {
        assert(v@.take(n as int) =~= v@);
    }
    preview
}

/// A `.clangd` the extension generated is never taken for the user's own:
/// it is refreshed, not preserved, on the next start.
pub proof fn law_generated_clangd_is_refreshed(input: ClangdConfigInputView)
    ensures
        !is_user_clangd_config_spec(crate::lsp::clangd_config::render_spec(input)),
        should_write_clangd_spec(Some(crate::lsp::clangd_config::render_spec(input))),
{
    let text = crate::lsp::clangd_config::render_spec(input);
    let marker = GENERATED_MARKER@;
    assert(text.subrange(0, marker.len() as int) =~= marker);
    assert(crate::text::occurs_at(text, marker, 0));
}

/// A user-authored `.clangd` (one without a generated marker) is never
/// written over.
pub proof fn law_user_clangd_is_preserved(contents: Seq<char>)
    requires
        is_user_clangd_config_spec(contents),
    ensures
        !should_write_clangd_spec(Some(contents)),
{
}

/// Preparing a workspace that has a `.clangd` of the user's own leaves it
/// alone: the commands run are those of the examples, then those of the
/// tasks, and nothing in between (no database step, no `.clangd` write).
pub proof fn law_preparation_keeps_user_clangd(
    root_path: Seq<char>,
    contents: Seq<char>,
    config: EffectiveConfigView,
    before: Seq<RunnerCall>,
    after: Seq<RunnerCall>,
    files_before: Seq<FileCall>,
    files_after: Seq<FileCall>,
)
    requires
        is_user_clangd_config_spec(contents),
        workspace_preparation(root_path, Some(contents), config, before, after, files_before, files_after),
    ensures
        exists|examples: Seq<RunnerCall>, outcome: Result<(), ToolkitErrorView>|
            #[trigger] examples_run(root_path, before, examples, outcome) && tasks_part(
                root_path,
                config,
                examples,
                after,
                files_before,
                files_after,
            ),
{
    let (examples, ensured, generated) = choose|examples: Seq<RunnerCall>, ensured: Seq<RunnerCall>, generated: Seq<
        RunnerCall,
    >|
        #[trigger] preparation_steps(
            root_path,
            Some(contents),
            config,
            before,
            after,
            files_before,
            files_after,
            examples,
            ensured,
            generated,
        );
    assert(generated == examples);
}

} // verus!
