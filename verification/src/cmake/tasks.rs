//! The CMake task file of the first versions, and the CMake target model.
use crate::error::ToolkitResult;
use crate::json::{cmake_tasks_view, compact_tasks_json, render_cmake_tasks};
use crate::text::{append_str, owned, strs_view};
use vstd::prelude::*;

verus! {

/// A CMake target found in the build directory.
#[derive(Debug, Clone, PartialEq, Eq)]
pub struct CmakeTarget {
    /// The target name, as `cmake --build --target` takes it.
    pub name: String,
    /// The main artifact, relative to the build directory.
    pub output: Option<String>,
    /// Whether the target is an executable.
    pub executable: bool,
}

pub struct CmakeTargetView {
    pub name: Seq<char>,
    pub output: Option<Seq<char>>,
    pub executable: bool,
}

impl View for CmakeTarget {
    type V = CmakeTargetView;

    open spec fn view(&self) -> CmakeTargetView {
        CmakeTargetView {
            name: self.name@,
            output: crate::text::opt_view(self.output),
            executable: self.executable,
        }
    }
}

/// The model of a list of targets.
pub open spec fn targets_view(targets: Seq<CmakeTarget>) -> Seq<CmakeTargetView> {
    targets.map_values(|t: CmakeTarget| t@)
}

/// Options of the CMake task file.
#[derive(Debug, Clone, PartialEq, Eq)]
pub struct TaskOptions {
    /// The build directory, relative to the workspace root.
    pub build_dir: String,
    /// The build type.
    pub build_type: String,
}

impl Default for TaskOptions {
    /// A Debug build in `build`.
    fn default() -> (r: Self)
        ensures
            r.build_dir@ == "build"@,
            r.build_type@ == "Debug"@,
    {
        TaskOptions { build_dir: owned("build"), build_type: owned("Debug") }
    }
}

/// One task of the CMake task file.
pub struct CmakeTask {
    pub label: String,
    pub command: String,
    pub args: Vec<String>,
    pub env: Vec<(String, String)>,
}

pub struct CmakeTaskView {
    pub label: Seq<char>,
    pub command: Seq<char>,
    pub args: Seq<Seq<char>>,
    pub env: Seq<(Seq<char>, Seq<char>)>,
}

impl View for CmakeTask {
    type V = CmakeTaskView;

    open spec fn view(&self) -> CmakeTaskView {
        CmakeTaskView {
            label: self.label@,
            command: self.command@,
            args: strs_view(self.args@),
            env: self.env@.map_values(|p: (String, String)| (p.0@, p.1@)),
        }
    }
}

/// The two tasks of the CMake task file: configure and build, with the
/// build directory under `$ZED_WORKTREE_ROOT`.
pub open spec fn cmake_tasks_spec(build_dir: Seq<char>, build_type: Seq<char>) -> Seq<CmakeTaskView> {
    let dir = "$ZED_WORKTREE_ROOT/"@ + build_dir;
    seq![
        CmakeTaskView {
            label: "CMake: Configure ("@ + build_type + ")"@,
            command: "cmake"@,
            args: seq!["-S"@, "$ZED_WORKTREE_ROOT"@, "-B"@, dir, "-DCMAKE_BUILD_TYPE="@ + build_type],
            env: seq![],
        },
        CmakeTaskView {
            label: "CMake: Build ("@ + build_type + ")"@,
            command: "cmake"@,
            args: seq!["--build"@, dir, "--config"@, build_type],
            env: seq![],
        },
    ]
}

fn concat2(a: &str, b: &str) -> (r: String)
    ensures
        r@ == a@ + b@,
{
    let mut r = owned(a);
    append_str(&mut r, b);
    r
}

fn concat3(a: &str, b: &str, c: &str) -> (r: String)
    ensures
        r@ == a@ + b@ + c@,
{
    let mut r = owned(a);
    append_str(&mut r, b);
    append_str(&mut r, c);
    r
}

/// The two CMake tasks of the task file.
pub fn cmake_tasks(options: &TaskOptions) -> (r: Vec<CmakeTask>)
    ensures
        cmake_tasks_view(r@) == cmake_tasks_spec(options.build_dir@, options.build_type@),
{
    let bt = options.build_type.as_str();
    let dir = concat2("$ZED_WORKTREE_ROOT/", options.build_dir.as_str());
    let configure_args = vec![
        owned("-S"),
        owned("$ZED_WORKTREE_ROOT"),
        owned("-B"),
        owned(dir.as_str()),
        concat2("-DCMAKE_BUILD_TYPE=", bt),
    ];
    let build_args = vec![owned("--build"), owned(dir.as_str()), owned("--config"), owned(bt)];
    let configure = CmakeTask {
        label: concat3("CMake: Configure (", bt, ")"),
        command: owned("cmake"),
        args: configure_args,
        env: Vec::new(),
    };
    let build = CmakeTask {
        label: concat3("CMake: Build (", bt, ")"),
        command: owned("cmake"),
        args: build_args,
        env: Vec::new(),
    };
    let r = vec![configure, build];
    proof {
        let spec = cmake_tasks_spec(options.build_dir@, options.build_type@);
        assert(r@[0]@.args =~= spec[0].args);
        assert(r@[1]@.args =~= spec[1].args);
        assert(r@[0]@.env =~= spec[0].env);
        assert(r@[1]@.env =~= spec[1].env);
        assert(cmake_tasks_view(r@) =~= spec);
    }
    r
}

/// The task file's JSON text: the configure and build tasks as compact
/// JSON. Always succeeds.
pub fn generate_tasks_json(options: &TaskOptions) -> (r: ToolkitResult<String>)
    ensures
        r matches Ok(text) && text@ == compact_tasks_json(
            cmake_tasks_spec(options.build_dir@, options.build_type@),
        ),
{
    let tasks = cmake_tasks(options);
    Ok(render_cmake_tasks(&tasks))
}

} // verus!
