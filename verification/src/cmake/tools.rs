//! CMake tool discovery and command building.
use crate::environment::tools::{one_more_call, CommandRunner};
use crate::error::{ToolkitError, ToolkitResult};
use crate::text::{append_str, copy_string, owned, strs_view};
use crate::environment::tools::TranscribedRunner;
use vstd::prelude::*;

verus! {

/// CMake executable name.
pub const CMAKE_EXE: &'static str = "cmake";

/// Ninja executable name.
pub const NINJA_EXE: &'static str = "ninja";

/// The options of a CMake configure step.
#[derive(Debug, Clone, PartialEq, Eq)]
pub struct CmakeConfigureOptions {
    /// Source directory (workspace root).
    pub source_dir: String,
    /// Build directory.
    pub build_dir: String,
    pub generator: CmakeGenerator,
    pub build_type: CmakeBuildType,
}

/// A CMake generator.
#[derive(Debug, Clone, Copy, PartialEq, Eq, Structural)]
pub enum CmakeGenerator {
    Ninja,
    VisualStudio2022,
}

/// A CMake build type.
#[derive(Debug, Clone, Copy, PartialEq, Eq, Structural)]
pub enum CmakeBuildType {
    Debug,
    Release,
    RelWithDebInfo,
}

/// The generator's name, as `-G` takes it.
pub open spec fn generator_name_spec(g: CmakeGenerator) -> Seq<char> {
    match g {
        CmakeGenerator::Ninja => "Ninja"@,
        CmakeGenerator::VisualStudio2022 => "Visual Studio 17 2022"@,
    }
}

/// The build type's name.
pub open spec fn build_type_name_spec(t: CmakeBuildType) -> Seq<char> {
    match t {
        CmakeBuildType::Debug => "Debug"@,
        CmakeBuildType::Release => "Release"@,
        CmakeBuildType::RelWithDebInfo => "RelWithDebInfo"@,
    }
}

impl CmakeGenerator {
    /// The generator name (without `-G`).
    pub fn generator_name(&self) -> (r: &str)
        ensures
            r@ == generator_name_spec(*self),
    {
        match self {
            CmakeGenerator::Ninja => "Ninja",
            CmakeGenerator::VisualStudio2022 => "Visual Studio 17 2022",
        }
    }

    /// `-G` and the generator name, as two arguments.
    pub fn as_args(&self) -> (r: Vec<String>)
        ensures
            strs_view(r@) == seq!["-G"@, generator_name_spec(*self)],
    {
        let r = vec![owned("-G"), owned(self.generator_name())];
        assert(strs_view(r@) =~= seq!["-G"@, generator_name_spec(*self)]);
        r
    }
}

impl CmakeBuildType {
    /// The value of `CMAKE_BUILD_TYPE`.
    pub fn as_cmake_var(&self) -> (r: &str)
        ensures
            r@ == build_type_name_spec(*self),
    {
        match self {
            CmakeBuildType::Debug => "Debug",
            CmakeBuildType::Release => "Release",
            CmakeBuildType::RelWithDebInfo => "RelWithDebInfo",
        }
    }

    /// The value of `--config` for `cmake --build`.
    pub fn as_build_arg(&self) -> (r: &str)
        ensures
            r@ == build_type_name_spec(*self),
    {
        match self {
            CmakeBuildType::Debug => "Debug",
            CmakeBuildType::Release => "Release",
            CmakeBuildType::RelWithDebInfo => "RelWithDebInfo",
        }
    }
}

/// Checks that `cmake --version` runs. Gives the executable name `cmake`,
/// or `MissingCmake` when the probe fails.
pub fn discover_cmake<R: CommandRunner>(runner: &mut TranscribedRunner<R>) -> (r: ToolkitResult<String>)
    ensures
        one_more_call(old(runner).transcript(), final(runner).transcript(), CMAKE_EXE@, seq!["--version"@]),
        match r {
            Ok(name) => name@ == CMAKE_EXE@,
            Err(e) => e == ToolkitError::MissingCmake,
        },
        r is Ok <==> final(runner).transcript().last().answer is Ok,
{
    let args = vec![owned("--version")];
    assert(strs_view(args@) =~= seq!["--version"@]);
    match runner.run_command(CMAKE_EXE, args.as_slice()) {
        Ok(_) => Ok(owned(CMAKE_EXE)),
        Err(_) => Err(ToolkitError::MissingCmake),
    }
}

/// Checks that `ninja --version` runs. Gives the executable name `ninja`,
/// or `None` when the probe fails.
pub fn discover_ninja<R: CommandRunner>(runner: &mut TranscribedRunner<R>) -> (r: Option<String>)
    ensures
        one_more_call(old(runner).transcript(), final(runner).transcript(), NINJA_EXE@, seq!["--version"@]),
        r matches Some(name) ==> name@ == NINJA_EXE@,
        r is Some <==> final(runner).transcript().last().answer is Ok,
{
    let args = vec![owned("--version")];
    assert(strs_view(args@) =~= seq!["--version"@]);
    match runner.run_command(NINJA_EXE, args.as_slice()) {
        Ok(_) => Some(owned(NINJA_EXE)),
        Err(_) => None,
    }
}

/// The generator for a Ninja probe outcome: Ninja when it is available,
/// else Visual Studio 2022.
pub fn generator_for_ninja(ninja: &Option<String>) -> (r: CmakeGenerator)
    ensures
        r == (if ninja is Some {
            CmakeGenerator::Ninja
        } else {
            CmakeGenerator::VisualStudio2022
        }),
{
    if ninja.is_some() {
        CmakeGenerator::Ninja
    } else {
        CmakeGenerator::VisualStudio2022
    }
}

/// Prefers Ninja, and falls back to Visual Studio 2022.
pub fn select_generator<R: CommandRunner>(runner: &mut TranscribedRunner<R>) -> (r: CmakeGenerator)
    ensures
        one_more_call(old(runner).transcript(), final(runner).transcript(), NINJA_EXE@, seq!["--version"@]),
        r == (if final(runner).transcript().last().answer is Ok {
            CmakeGenerator::Ninja
        } else {
            CmakeGenerator::VisualStudio2022
        }),
{
    let ninja = discover_ninja(runner);
    generator_for_ninja(&ninja)
}

/// The arguments of the configure step: `-S <source> -B <build> -G
/// <generator> -DCMAKE_BUILD_TYPE=<type>`.
pub open spec fn configure_args_spec(
    source_dir: Seq<char>,
    build_dir: Seq<char>,
    generator: CmakeGenerator,
    build_type: CmakeBuildType,
) -> Seq<Seq<char>> {
    seq![
        "-S"@,
        source_dir,
        "-B"@,
        build_dir,
        "-G"@,
        generator_name_spec(generator),
        "-DCMAKE_BUILD_TYPE="@ + build_type_name_spec(build_type),
    ]
}

/// The argument list of `cmake` for the configure step.
pub fn build_configure_command(options: &CmakeConfigureOptions) -> (r: Vec<String>)
    ensures
        strs_view(r@) == configure_args_spec(
            options.source_dir@,
            options.build_dir@,
            options.generator,
            options.build_type,
        ),
{
    let mut args = vec![
        owned("-S"),
        copy_string(&options.source_dir),
        owned("-B"),
        copy_string(&options.build_dir),
    ];
    args.push(owned("-G"));
    args.push(owned(options.generator.generator_name()));
    let mut define = owned("-DCMAKE_BUILD_TYPE=");
    append_str(&mut define, options.build_type.as_cmake_var());
    args.push(define);
    assert(strs_view(args@) =~= configure_args_spec(
        options.source_dir@,
        options.build_dir@,
        options.generator,
        options.build_type,
    ));
    args
}

/// The argument list of `cmake` for the build step:
/// `--build <dir> --config <type>`.
pub fn build_build_command(build_dir: &str, build_type: CmakeBuildType) -> (r: Vec<String>)
    ensures
        strs_view(r@) == seq!["--build"@, build_dir@, "--config"@, build_type_name_spec(build_type)],
{
    let r = vec![owned("--build"), owned(build_dir), owned("--config"), owned(build_type.as_build_arg())];
    assert(strs_view(r@) =~= seq!["--build"@, build_dir@, "--config"@, build_type_name_spec(build_type)]);
    r
}

} // verus!
