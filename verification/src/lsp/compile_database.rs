//! Making sure an MSVC CMake workspace has a compilation database: look for
//! one, and otherwise configure the project with CMake inside the Visual
//! Studio developer environment.
use crate::cmake::compile_db::{compile_database_lookup, discover_compile_database};
use crate::environment::tools::{
    answer_stdout, ensure_success, extends, powershell_args, powershell_command_args, CommandRunner, RunnerCall,
};
use crate::environment::vswhere::{discover_visual_studio, visual_studio_from_answer, vswhere_args_spec, VSWHERE_PATH};
use crate::error::{ToolkitErrorView, ToolkitResult};
use crate::files::{FileCall, LocalFiles, RecordedFiles};
use crate::lsp::host::{
    autogen_answer, bool_answer, first_autogen_script_spec, first_autogen_target, host_path_exists,
    host_path_exists_script_spec, last_stdout, says_true_ignoring_case, unit_result_view, windows_build_ninja_path,
};
use crate::paths::{join_windows_path, join_windows_path_spec};
use crate::quoting::{cmd_quote, cmd_quote_spec, powershell_single_quote, powershell_single_quote_spec};
use crate::text::{append_str, join_strings, join_with, opt_view, owned, strs_view};
use crate::toolchain::msvc::{dev_cmd_line, dev_cmd_line_spec, vs_dev_cmd_spec};
use crate::environment::tools::TranscribedRunner;
use vstd::prelude::*;

verus! {

/// Which database the host reports, given whether it has one in the
/// workspace root and in `<root>\<build_dir>`: the root first.
pub open spec fn select_host_database_spec(
    root_path: Seq<char>,
    build_dir_name: Seq<char>,
    root_found: bool,
    build_found: bool,
) -> Option<Seq<char>> {
    if root_found {
        Some(root_path)
    } else if build_found {
        Some(join_windows_path_spec(root_path, build_dir_name))
    } else {
        None
    }
}

/// The database directory the host reports, given its two answers.
pub fn select_host_database(root_path: &str, build_dir_name: &str, root_found: bool, build_found: bool) -> (r:
    Option<String>)
    ensures
        opt_view(r) == select_host_database_spec(root_path@, build_dir_name@, root_found, build_found),
{
    if root_found {
        Some(owned(root_path))
    } else if build_found {
        Some(join_windows_path(root_path, build_dir_name))
    } else {
        None
    }
}

/// The host call that asks whether a path exists.
pub open spec fn is_host_exists_call(call: RunnerCall, path: Seq<char>) -> bool {
    call.program == "powershell"@ && call.args == powershell_args(host_path_exists_script_spec(path))
}

/// Whether a host existence call answered yes.
pub open spec fn host_said_yes(call: RunnerCall) -> bool {
    bool_answer(answer_stdout(call.program, call.answer), |stdout: Seq<char>| says_true_ignoring_case(stdout))
        == Ok::<bool, ToolkitErrorView>(true)
}

/// The host part of the lookup, as a transcript: the workspace root's
/// database is asked for first; only when the answer is not yes is
/// `<root>\<build_dir>\compile_commands.json` asked for. The result is the
/// directory the host has a database in.
pub open spec fn host_lookup(
    root_path: Seq<char>,
    build_dir_name: Seq<char>,
    before: Seq<RunnerCall>,
    after: Seq<RunnerCall>,
    found: Option<Seq<char>>,
) -> bool {
    let n = before.len() as int;
    &&& extends(before, after)
    &&& after.len() > n
    &&& is_host_exists_call(after[n], join_windows_path_spec(root_path, "compile_commands.json"@))
    &&& if host_said_yes(after[n]) {
        after.len() == n + 1 && found == select_host_database_spec(root_path, build_dir_name, true, false)
    } else {
        &&& after.len() == n + 2
        &&& is_host_exists_call(
            after[n + 1],
            join_windows_path_spec(join_windows_path_spec(root_path, build_dir_name), "compile_commands.json"@),
        )
        &&& found == select_host_database_spec(root_path, build_dir_name, false, host_said_yes(after[n + 1]))
    }
}

/// A whole lookup, as a transcript: when the local file system has a root
/// or `build/` database, that one (root first) with no host call;
/// otherwise the host lookup.
pub open spec fn database_lookup(
    root_path: Seq<char>,
    build_dir_name: Seq<char>,
    before: Seq<RunnerCall>,
    after: Seq<RunnerCall>,
    files_before: Seq<FileCall>,
    files_after: Seq<FileCall>,
    found: Option<Seq<char>>,
) -> bool {
    exists|local: Option<Seq<char>>|
        #![trigger compile_database_lookup(root_path, files_before, files_after, local)]
        {
            &&& compile_database_lookup(root_path, files_before, files_after, local)
            &&& local is Some ==> after == before && found == local
            &&& local is None ==> host_lookup(root_path, build_dir_name, before, after, found)
        }
}

/// Looks for a compilation database: first on the local file system (root,
/// then `build/`), then, when neither is there, on the host in the
/// workspace root and then in `<root>\<build_dir>`. A host check that fails
/// counts as "not there".
pub fn discover_compile_database_from_host<R: CommandRunner, F: LocalFiles>(
    root_path: &str,
    build_dir_name: &str,
    runner: &mut TranscribedRunner<R>,
    files: &mut RecordedFiles<F>,
) -> (r: Option<String>)
    ensures
        database_lookup(
            root_path@,
            build_dir_name@,
            old(runner).transcript(),
            final(runner).transcript(),
            old(files).transcript(),
            final(files).transcript(),
            opt_view(r),
        ),
{
    let local = discover_compile_database(root_path, files);
    let ghost local_v = opt_view(local);
    if let Some(path) = local {
        assert(compile_database_lookup(root_path@, old(files).transcript(), files.transcript(), local_v));
        return Some(path);
    }
    let ghost n = old(runner).transcript().len() as int;
    let root_db = join_windows_path(root_path, "compile_commands.json");
    let root_found = match host_path_exists(runner, root_db.as_str()) {
        Ok(b) => b,
        Err(_) => false,
    };
    if root_found {
        let r = select_host_database(root_path, build_dir_name, true, false);
        assert(compile_database_lookup(root_path@, old(files).transcript(), files.transcript(), local_v));
        return r;
    }
    let ghost mid = runner.transcript();
    let build_dir = join_windows_path(root_path, build_dir_name);
    let build_db = join_windows_path(build_dir.as_str(), "compile_commands.json");
    let build_found = match host_path_exists(runner, build_db.as_str()) {
        Ok(b) => b,
        Err(_) => false,
    };
    proof {
        assert(runner.transcript()[n] == mid[n]);
        assert(compile_database_lookup(root_path@, old(files).transcript(), files.transcript(), local_v));
    }
    select_host_database(root_path, build_dir_name, false, build_found)
}

/// The arguments of the CMake configure run that produces the database:
/// Ninja, `cl` for C and C++, the build type, and exported compile
/// commands.
pub open spec fn cmake_configure_args_spec(root_path: Seq<char>, build_dir: Seq<char>, build_type: Seq<char>) -> Seq<
    Seq<char>,
> {
    seq![
        "-S"@,
        root_path,
        "-B"@,
        build_dir,
        "-G"@,
        "Ninja"@,
        "-DCMAKE_C_COMPILER=cl"@,
        "-DCMAKE_CXX_COMPILER=cl"@,
        "-DCMAKE_BUILD_TYPE="@ + build_type,
        "-DCMAKE_EXPORT_COMPILE_COMMANDS=ON"@,
    ]
}

/// `cmake` followed by the arguments, each quoted for `cmd.exe`.
pub open spec fn cmake_command_spec(args: Seq<Seq<char>>) -> Seq<char> {
    "cmake "@ + join_with(args.map_values(|a: Seq<char>| cmd_quote_spec(a)), " "@)
}

/// The PowerShell script that configures the project in
/// `<root>\<build_dir>` inside the developer environment of the
/// installation at `vs_root`.
pub open spec fn cmake_configure_script_spec(
    root_path: Seq<char>,
    build_dir_name: Seq<char>,
    build_type: Seq<char>,
    vs_root: Seq<char>,
) -> Seq<char> {
    let build_dir = join_windows_path_spec(root_path, build_dir_name);
    let command = cmake_command_spec(cmake_configure_args_spec(root_path, build_dir, build_type));
    "$ErrorActionPreference='Stop'; & cmd.exe /S /C "@ + powershell_single_quote_spec(
        dev_cmd_line_spec(vs_dev_cmd_spec(vs_root), command),
    )
}

/// The configure arguments.
fn cmake_configure_args(root_path: &str, build_dir: &str, build_type: &str) -> (r: Vec<String>)
    ensures
        strs_view(r@) == cmake_configure_args_spec(root_path@, build_dir@, build_type@),
{
    let mut type_arg = owned("-DCMAKE_BUILD_TYPE=");
    append_str(&mut type_arg, build_type);
    let r = vec![
        owned("-S"),
        owned(root_path),
        owned("-B"),
        owned(build_dir),
        owned("-G"),
        owned("Ninja"),
        owned("-DCMAKE_C_COMPILER=cl"),
        owned("-DCMAKE_CXX_COMPILER=cl"),
        type_arg,
        owned("-DCMAKE_EXPORT_COMPILE_COMMANDS=ON"),
    ];
    assert(strs_view(r@) =~= cmake_configure_args_spec(root_path@, build_dir@, build_type@));
    r
}

/// `cmake` with arguments quoted for `cmd.exe`.
fn cmake_command_line(args: &Vec<String>) -> (r: String)
    ensures
        r@ == cmake_command_spec(strs_view(args@)),
{
    let mut quoted: Vec<String> = Vec::new();
    let mut i: usize = 0;
    while i < args.len()
        invariant
            i <= args.len(),
            quoted@.len() == i,
            forall|j: int| 0 <= j < i ==> #[trigger] quoted@[j]@ == cmd_quote_spec(args@[j]@),
        decreases args.len() - i,
    {
        quoted.push(cmd_quote(args[i].as_str()));
        i = i + 1;
    }
    assert(strs_view(quoted@) =~= strs_view(args@).map_values(|a: Seq<char>| cmd_quote_spec(a)));
    let mut s = owned("cmake ");
    let joined = join_strings(&quoted, " ");
    append_str(&mut s, joined.as_str());
    s
}

/// The script that configures the project for the database.
pub fn cmake_configure_script(root_path: &str, build_dir_name: &str, build_type: &str, vs_root: &str) -> (r:
    String)
    ensures
        r@ == cmake_configure_script_spec(root_path@, build_dir_name@, build_type@, vs_root@),
{
    let vs_dev_cmd = join_windows_path(vs_root, "Common7\\Tools\\VsDevCmd.bat");
    let build_dir = join_windows_path(root_path, build_dir_name);
    let args = cmake_configure_args(root_path, build_dir.as_str(), build_type);
    let command = cmake_command_line(&args);
    let line = dev_cmd_line(vs_dev_cmd.as_str(), command.as_str());
    let mut s = owned("$ErrorActionPreference='Stop'; & cmd.exe /S /C ");
    let q = powershell_single_quote(line.as_str());
    append_str(&mut s, q.as_str());
    s
}

/// The transcript of a configure run: the `vswhere` query; then, when it
/// found an installation, the configure script for it run with PowerShell.
/// The result is the first failure, or `Ok` when the script ran and exited
/// with status 0.
pub open spec fn configure_run(
    root_path: Seq<char>,
    build_dir_name: Seq<char>,
    build_type: Seq<char>,
    before: Seq<RunnerCall>,
    after: Seq<RunnerCall>,
    result: Result<(), ToolkitErrorView>,
) -> bool {
    let n = before.len() as int;
    &&& extends(before, after)
    &&& after.len() > n
    &&& after[n].program == VSWHERE_PATH@
    &&& after[n].args == vswhere_args_spec()
    &&& match visual_studio_from_answer(answer_stdout(VSWHERE_PATH@, after[n].answer)) {
        Ok(vs_root) => {
            &&& after.len() == n + 2
            &&& after[n + 1].program == "powershell"@
            &&& after[n + 1].args == powershell_args(
                cmake_configure_script_spec(root_path, build_dir_name, build_type, vs_root),
            )
            &&& result == match last_stdout(after) {
                Ok(_) => Ok(()),
                Err(e) => Err(e),
            }
        },
        Err(e) => after.len() == n + 1 && result == Err::<(), ToolkitErrorView>(e),
    }
}

/// Finds Visual Studio and runs the configure script with PowerShell;
/// failures are passed on.
pub fn run_cmake_configure_for_compile_database<R: CommandRunner>(
    root_path: &str,
    build_dir_name: &str,
    build_type: &str,
    runner: &mut TranscribedRunner<R>,
) -> (r: ToolkitResult<()>)
    ensures
        configure_run(
            root_path@,
            build_dir_name@,
            build_type@,
            old(runner).transcript(),
            final(runner).transcript(),
            unit_result_view(r),
        ),
{
    let ghost n = old(runner).transcript().len() as int;
    let visual_studio_root = match discover_visual_studio(runner) {
        Ok(v) => v,
        Err(e) => return Err(e),
    };
    let ghost mid = runner.transcript();
    let script = cmake_configure_script(root_path, build_dir_name, build_type, visual_studio_root.as_str());
    let args = powershell_command_args(script);
    let output = match runner.run_command("powershell", args.as_slice()) {
        Ok(o) => o,
        Err(e) => {
            assert(runner.transcript()[n] == mid[n]);
            return Err(e);
        },
    };
    assert(runner.transcript()[n] == mid[n]);
    match ensure_success("powershell", output) {
        Ok(_) => Ok(()),
        Err(e) => Err(e),
    }
}

/// `cmake --build <dir> --target <target>`.
pub open spec fn autogen_build_args_spec(build_dir: Seq<char>, target: Seq<char>) -> Seq<Seq<char>> {
    seq!["--build"@, build_dir, "--target"@, target]
}

/// The arguments that build one target.
pub fn autogen_build_args(build_dir: String, target: String) -> (r: Vec<String>)
    ensures
        strs_view(r@) == autogen_build_args_spec(build_dir@, target@),
{
    let r = vec![owned("--build"), build_dir, owned("--target"), target];
    assert(strs_view(r@) =~= autogen_build_args_spec(r@[1]@, r@[3]@));
    r
}

/// The transcript of an autogen run: the query for the first autogen
/// target; then, when there is one, `cmake --build <root>\<build_dir>
/// --target <target>`. The result is the first failure, else `Ok`.
pub open spec fn autogen_run(
    root_path: Seq<char>,
    build_dir_name: Seq<char>,
    before: Seq<RunnerCall>,
    after: Seq<RunnerCall>,
    result: Result<(), ToolkitErrorView>,
) -> bool {
    let n = before.len() as int;
    &&& extends(before, after)
    &&& after.len() > n
    &&& after[n].program == "powershell"@
    &&& after[n].args == powershell_args(
        first_autogen_script_spec(windows_build_ninja_path(root_path, build_dir_name)),
    )
    &&& match autogen_answer(answer_stdout("powershell"@, after[n].answer)) {
        Ok(Some(target)) => {
            &&& after.len() == n + 2
            &&& after[n + 1].program == "cmake"@
            &&& after[n + 1].args == autogen_build_args_spec(join_windows_path_spec(root_path, build_dir_name), target)
            &&& result == match last_stdout(after) {
                Ok(_) => Ok(()),
                Err(e) => Err(e),
            }
        },
        Ok(None) => after.len() == n + 1 && result == Ok::<(), ToolkitErrorView>(()),
        Err(e) => after.len() == n + 1 && result == Err::<(), ToolkitErrorView>(e),
    }
}

/// Builds the first `*_autogen` target of the configured project (Qt's
/// generated sources), if there is one; failures are passed on.
pub fn run_cmake_autogen_targets<R: CommandRunner>(root_path: &str, build_dir_name: &str, runner: &mut TranscribedRunner<R>) -> (r:
    ToolkitResult<()>)
    ensures
        autogen_run(root_path@, build_dir_name@, old(runner).transcript(), final(runner).transcript(), unit_result_view(r)),
{
    let ghost n = old(runner).transcript().len() as int;
    let target = match first_autogen_target(root_path, build_dir_name, runner) {
        Ok(Some(t)) => t,
        Ok(None) => return Ok(()),
        Err(e) => return Err(e),
    };
    let ghost mid = runner.transcript();
    let build_dir = join_windows_path(root_path, build_dir_name);
    let args = autogen_build_args(build_dir, target);
    let output = match runner.run_command("cmake", args.as_slice()) {
        Ok(o) => o,
        Err(e) => {
            assert(runner.transcript()[n] == mid[n]);
            return Err(e);
        },
    };
    assert(runner.transcript()[n] == mid[n]);
    match ensure_success("cmake", output) {
        Ok(_) => Ok(()),
        Err(e) => Err(e),
    }
}

/// The transcript of producing the database after a lookup found none:
/// the host is asked for `<root>\CMakeLists.txt`; when it has one, the
/// project is configured; when that succeeded, the autogen target is built
/// (whatever that gives) and the database is looked up again, which gives
/// the result. Otherwise there is no database.
pub open spec fn database_production(
    root_path: Seq<char>,
    build_dir_name: Seq<char>,
    build_type: Seq<char>,
    before: Seq<RunnerCall>,
    after: Seq<RunnerCall>,
    files_before: Seq<FileCall>,
    files_after: Seq<FileCall>,
    found: Option<Seq<char>>,
) -> bool {
    let n = before.len() as int;
    &&& extends(before, after)
    &&& after.len() > n
    &&& is_host_exists_call(after[n], join_windows_path_spec(root_path, "CMakeLists.txt"@))
    &&& if !host_said_yes(after[n]) {
        after.len() == n + 1 && found is None && files_after == files_before
    } else {
        exists|configured: Seq<RunnerCall>, outcome: Result<(), ToolkitErrorView>|
            #![trigger configure_run(root_path, build_dir_name, build_type, after.take(n + 1), configured, outcome)]
            {
                &&& configure_run(root_path, build_dir_name, build_type, after.take(n + 1), configured, outcome)
                &&& outcome is Err ==> after == configured && found is None && files_after == files_before
                &&& outcome is Ok ==> exists|built: Seq<RunnerCall>, built_outcome: Result<(), ToolkitErrorView>|
                    #![trigger autogen_run(root_path, build_dir_name, configured, built, built_outcome)]
                    {
                        &&& autogen_run(root_path, build_dir_name, configured, built, built_outcome)
                        &&& database_lookup(root_path, build_dir_name, built, after, files_before, files_after, found)
                    }
            }
    }
}

/// The transcript of making sure there is a database: a lookup, whose
/// result stands when it found one; otherwise the production step.
pub open spec fn database_ensured(
    root_path: Seq<char>,
    build_dir: Seq<char>,
    build_type: Seq<char>,
    before: Seq<RunnerCall>,
    after: Seq<RunnerCall>,
    files_before: Seq<FileCall>,
    files_after: Seq<FileCall>,
    found: Option<Seq<char>>,
) -> bool {
    exists|looked_up: Seq<RunnerCall>, files_looked_up: Seq<FileCall>, first: Option<Seq<char>>|
        #![trigger database_lookup(root_path, build_dir, before, looked_up, files_before, files_looked_up, first)]
        {
            &&& database_lookup(root_path, build_dir, before, looked_up, files_before, files_looked_up, first)
            &&& first is Some ==> after == looked_up && files_after == files_looked_up && found == first
            &&& first is None ==> database_production(
                root_path,
                build_dir,
                build_type,
                looked_up,
                after,
                files_looked_up,
                files_after,
                found,
            )
        }
}

/// Finds the compilation database, or produces it: when none is found and
/// the host has `<root>\CMakeLists.txt`, the project is configured with
/// CMake (then its autogen target is built) and the database is looked for
/// again. Every failure only means "no database".
pub fn ensure_compile_database<R: CommandRunner, F: LocalFiles>(
    root_path: &str,
    build_dir: &str,
    build_type: &str,
    runner: &mut TranscribedRunner<R>,
    files: &mut RecordedFiles<F>,
) -> (r: Option<String>)
    ensures
        database_ensured(
            root_path@,
            build_dir@,
            build_type@,
            old(runner).transcript(),
            final(runner).transcript(),
            old(files).transcript(),
            final(files).transcript(),
            opt_view(r),
        ),
        extends(old(runner).transcript(), final(runner).transcript()),
{
    let first = discover_compile_database_from_host(root_path, build_dir, runner, files);
    let ghost looked_up = runner.transcript();
    let ghost files_looked_up = files.transcript();
    if let Some(path) = first {
        return Some(path);
    }
    let ghost n = looked_up.len() as int;
    let lists = join_windows_path(root_path, "CMakeLists.txt");
    let has_lists = match host_path_exists(runner, lists.as_str()) {
        Ok(b) => b,
        Err(_) => false,
    };
    let ghost asked = runner.transcript();
    if !has_lists {
        assert(database_production(
            root_path@,
            build_dir@,
            build_type@,
            looked_up,
            runner.transcript(),
            files_looked_up,
            files.transcript(),
            None,
        ));
        return None;
    }
    let configured = run_cmake_configure_for_compile_database(root_path, build_dir, build_type, runner);
    let ghost configured_t = runner.transcript();
    let ghost outcome = unit_result_view(configured);
    if configured.is_err() {
        proof {
            assert(runner.transcript()[n] == asked[n]);
            assert(runner.transcript().take(n + 1) =~= asked);
            assert(configure_run(root_path@, build_dir@, build_type@, asked, configured_t, outcome));
            assert(database_production(
                root_path@,
                build_dir@,
                build_type@,
                looked_up,
                runner.transcript(),
                files_looked_up,
                files.transcript(),
                None,
            ));
        }
        return None;
    }
    let built = run_cmake_autogen_targets(root_path, build_dir, runner);
    let ghost built_t = runner.transcript();
    let ghost built_outcome = unit_result_view(built);
    let again = discover_compile_database_from_host(root_path, build_dir, runner, files);
    proof {
        assert(extends(asked, configured_t));
        assert(extends(configured_t, built_t));
        assert(extends(built_t, runner.transcript())) by {
            let local = choose|local: Option<Seq<char>>|
                #![trigger compile_database_lookup(root_path@, files_looked_up, files.transcript(), local)]
                {
                    &&& compile_database_lookup(root_path@, files_looked_up, files.transcript(), local)
                    &&& local is Some ==> runner.transcript() == built_t && opt_view(again) == local
                    &&& local is None ==> host_lookup(root_path@, build_dir@, built_t, runner.transcript(), opt_view(again))
                };
        }
        assert(extends(asked, runner.transcript()));
        assert(runner.transcript()[n] == asked[n]);
        assert(runner.transcript().take(n + 1) =~= asked);
        assert(configure_run(root_path@, build_dir@, build_type@, asked, configured_t, outcome));
        assert(autogen_run(root_path@, build_dir@, configured_t, built_t, built_outcome));
        assert(database_production(
            root_path@,
            build_dir@,
            build_type@,
            looked_up,
            runner.transcript(),
            files_looked_up,
            files.transcript(),
            opt_view(again),
        ));
    }
    again
}

} // verus!
