//! The example configurations written next to a workspace's settings.
use vstd::prelude::*;

verus! {

/// The example for Windows with MSVC.
pub const WINDOWS_EXAMPLE_CONFIG: &'static str = r#"# Example cpp-toolkit configuration for Windows/MSVC.
# Copy this file to .zed/cpp-toolkit.toml and edit it for your project.
# After editing, restart the language server (command palette -> "clangd: Restart") to apply changes.

preset = "msvc-cmake-ninja"

[toolchain]
name = "msvc"
cc = "cl"
cxx = "cl"

[build]
system = "cmake"
build_dir_style = "build"
build_type = "Debug"
configure = "cmake -S . -B {build_dir} -G Ninja -DCMAKE_BUILD_TYPE={build_type} -DCMAKE_C_COMPILER=cl -DCMAKE_CXX_COMPILER=cl -DCMAKE_EXPORT_COMPILE_COMMANDS=ON"
build = "cmake --build {build_dir}"
clean = "cmake --build {build_dir} --target clean"

# [run] is optional for cmake projects: executable targets are auto-discovered from build.ninja.
# Uncomment and edit to override the auto-discovered run command.
# [run]
# command = ".\\build\\app.exe"
# cwd = "$ZED_WORKTREE_ROOT"

[clangd]
command = "clangd"
compiler = "clang-cl"
compile_commands_dir = "build"
extra_flags = ["/std:c++20"]
query_driver = []
"#;

/// The example for Linux with GCC.
pub const LINUX_EXAMPLE_CONFIG: &'static str = r#"# Example cpp-toolkit configuration for Linux/GCC.
# Copy this file to .zed/cpp-toolkit.toml and edit it for your project.
# After editing, restart the language server (command palette -> "clangd: Restart") to apply changes.

preset = "gcc-cmake-ninja"

[toolchain]
name = "gcc"
cc = "gcc"
cxx = "g++"

[build]
system = "cmake"
build_dir_style = "build"
build_type = "Debug"
configure = "cmake -S . -B {build_dir} -G Ninja -DCMAKE_BUILD_TYPE={build_type} -DCMAKE_C_COMPILER=gcc -DCMAKE_CXX_COMPILER=g++ -DCMAKE_EXPORT_COMPILE_COMMANDS=ON"
build = "cmake --build {build_dir}"
clean = "cmake --build {build_dir} --target clean"

# [run] is optional for cmake projects: executable targets are auto-discovered from build.ninja.
# Uncomment and edit to override the auto-discovered run command.
# [run]
# command = "./build/app"
# cwd = "$ZED_WORKTREE_ROOT"

[clangd]
command = "clangd"
compiler = "g++"
compile_commands_dir = "build"
extra_flags = ["-std=c++20"]
query_driver = ["gcc", "g++"]
"#;

/// The example for macOS with Clang.
pub const MACOS_EXAMPLE_CONFIG: &'static str = r#"# Example cpp-toolkit configuration for macOS/Clang.
# Copy this file to .zed/cpp-toolkit.toml and edit it for your project.
# After editing, restart the language server (command palette -> "clangd: Restart") to apply changes.

preset = "clang-cmake-ninja"

[toolchain]
name = "clang"
cc = "clang"
cxx = "clang++"

[build]
system = "cmake"
build_dir_style = "build"
build_type = "Debug"
configure = "cmake -S . -B {build_dir} -G Ninja -DCMAKE_BUILD_TYPE={build_type} -DCMAKE_C_COMPILER=clang -DCMAKE_CXX_COMPILER=clang++ -DCMAKE_EXPORT_COMPILE_COMMANDS=ON"
build = "cmake --build {build_dir}"
clean = "cmake --build {build_dir} --target clean"

# [run] is optional for cmake projects: executable targets are auto-discovered from build.ninja.
# Uncomment and edit to override the auto-discovered run command.
# [run]
# command = "./build/app"
# cwd = "$ZED_WORKTREE_ROOT"

[clangd]
command = "clangd"
compiler = "clang++"
compile_commands_dir = "build"
extra_flags = ["-std=c++20"]
query_driver = ["clang", "clang++"]
"#;

/// One example file: its name under `.zed/` and its text.
pub struct ExampleConfig {
    pub file_name: &'static str,
    pub contents: &'static str,
}

/// The example files, one per platform: Windows, Linux, macOS.
pub fn cpp_toolkit_example_configs() -> (r: [ExampleConfig; 3])
    ensures
        r[0].file_name@ == "cpp-toolkit.windows.example.toml"@,
        r[0].contents@ == WINDOWS_EXAMPLE_CONFIG@,
        r[1].file_name@ == "cpp-toolkit.linux.example.toml"@,
        r[1].contents@ == LINUX_EXAMPLE_CONFIG@,
        r[2].file_name@ == "cpp-toolkit.macos.example.toml"@,
        r[2].contents@ == MACOS_EXAMPLE_CONFIG@,
{
    [
        ExampleConfig { file_name: "cpp-toolkit.windows.example.toml", contents: WINDOWS_EXAMPLE_CONFIG },
        ExampleConfig { file_name: "cpp-toolkit.linux.example.toml", contents: LINUX_EXAMPLE_CONFIG },
        ExampleConfig { file_name: "cpp-toolkit.macos.example.toml", contents: MACOS_EXAMPLE_CONFIG },
    ]
}

} // verus!
