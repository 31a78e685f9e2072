//! The built-in presets a configuration starts from.
use crate::config::schema::{
    empty_user_config, BuildConfig, BuildConfigView, BuildDirStyle, ClangdConfig, ClangdConfigView,
    RunConfig, RunConfigView, ToolchainConfig, ToolchainConfigView, UserConfig, UserConfigView,
};
use crate::text::{owned, str_eq};
use vstd::prelude::*;

verus! {

/// The model of a CMake + Ninja preset.
pub open spec fn cmake_preset_spec(
    preset: Seq<char>,
    toolchain: Seq<char>,
    cc: Seq<char>,
    cxx: Seq<char>,
    compiler: Seq<char>,
    configure: Seq<char>,
    query_driver: Seq<Seq<char>>,
) -> UserConfigView {
    UserConfigView {
        preset: Some(preset),
        toolchain: ToolchainConfigView { name: Some(toolchain), cc: Some(cc), cxx: Some(cxx) },
        build: BuildConfigView {
            system: Some("cmake"@),
            build_dir_style: Some(BuildDirStyle::Build),
            build_dir: None,
            build_type: Some("Debug"@),
            configure: Some(configure),
            build: Some("cmake --build {build_dir}"@),
            clean: Some("cmake --build {build_dir} --target clean"@),
        },
        run: RunConfigView { command: None, cwd: None },
        clangd: ClangdConfigView {
            command: Some("clangd"@),
            compiler: Some(compiler),
            compile_commands_dir: Some("{build_dir}"@),
            extra_flags: None,
            query_driver: Some(query_driver),
        },
    }
}

/// The model of a Makefile preset.
pub open spec fn make_preset_spec(
    preset: Seq<char>,
    toolchain: Seq<char>,
    cc: Seq<char>,
    cxx: Seq<char>,
    compiler: Seq<char>,
    query_driver: Seq<Seq<char>>,
) -> UserConfigView {
    UserConfigView {
        preset: Some(preset),
        toolchain: ToolchainConfigView { name: Some(toolchain), cc: Some(cc), cxx: Some(cxx) },
        build: BuildConfigView {
            system: Some("make"@),
            build_dir_style: None,
            build_dir: None,
            build_type: None,
            configure: None,
            build: Some("make -j"@),
            clean: Some("make clean"@),
        },
        run: RunConfigView { command: None, cwd: None },
        clangd: ClangdConfigView {
            command: Some("clangd"@),
            compiler: Some(compiler),
            compile_commands_dir: Some("."@),
            extra_flags: None,
            query_driver: Some(query_driver),
        },
    }
}

/// The configure command of the MSVC preset.
pub open spec fn msvc_configure() -> Seq<char> {
    "cmake -S . -B {build_dir} -G Ninja -DCMAKE_BUILD_TYPE={build_type} -DCMAKE_C_COMPILER=cl -DCMAKE_CXX_COMPILER=cl -DCMAKE_EXPORT_COMPILE_COMMANDS=ON"@
}

/// The configure command of the GCC preset.
pub open spec fn gcc_configure() -> Seq<char> {
    "cmake -S . -B {build_dir} -G Ninja -DCMAKE_BUILD_TYPE={build_type} -DCMAKE_C_COMPILER=gcc -DCMAKE_CXX_COMPILER=g++ -DCMAKE_EXPORT_COMPILE_COMMANDS=ON"@
}

/// The configure command of the Clang preset.
pub open spec fn clang_configure() -> Seq<char> {
    "cmake -S . -B {build_dir} -G Ninja -DCMAKE_BUILD_TYPE={build_type} -DCMAKE_C_COMPILER=clang -DCMAKE_CXX_COMPILER=clang++ -DCMAKE_EXPORT_COMPILE_COMMANDS=ON"@
}

/// The built-in preset called `name`, if there is one.
pub open spec fn preset_spec(name: Seq<char>) -> Option<UserConfigView> {
    if name == "msvc-cmake-ninja"@ {
        Some(cmake_preset_spec(name, "msvc"@, "cl"@, "cl"@, "clang-cl"@, msvc_configure(), seq![]))
    } else if name == "gcc-cmake-ninja"@ {
        Some(
            cmake_preset_spec(
                name,
                "gcc"@,
                "gcc"@,
                "g++"@,
                "g++"@,
                gcc_configure(),
                seq!["gcc"@, "g++"@],
            ),
        )
    } else if name == "clang-cmake-ninja"@ {
        Some(
            cmake_preset_spec(
                name,
                "clang"@,
                "clang"@,
                "clang++"@,
                "clang++"@,
                clang_configure(),
                seq!["clang"@, "clang++"@],
            ),
        )
    } else if name == "gcc-make"@ {
        Some(make_preset_spec(name, "gcc"@, "gcc"@, "g++"@, "g++"@, seq!["gcc"@, "g++"@]))
    } else if name == "clang-make"@ {
        Some(
            make_preset_spec(
                name,
                "clang"@,
                "clang"@,
                "clang++"@,
                "clang++"@,
                seq!["clang"@, "clang++"@],
            ),
        )
    } else if name == "custom"@ {
        Some(UserConfigView { preset: Some(name), ..empty_user_config() })
    } else {
        None
    }
}

fn cmake_preset(
    preset: &str,
    toolchain: &str,
    cc: &str,
    cxx: &str,
    compiler: &str,
    configure: &str,
    query_driver: Vec<String>,
) -> (r: UserConfig)
    ensures
        r@ == cmake_preset_spec(
            preset@,
            toolchain@,
            cc@,
            cxx@,
            compiler@,
            configure@,
            query_driver@.map_values(|s: String| s@),
        ),
{
    UserConfig {
        preset: Some(owned(preset)),
        toolchain: ToolchainConfig {
            name: Some(owned(toolchain)),
            cc: Some(owned(cc)),
            cxx: Some(owned(cxx)),
        },
        build: BuildConfig {
            system: Some(owned("cmake")),
            build_dir_style: Some(BuildDirStyle::Build),
            build_dir: None,
            build_type: Some(owned("Debug")),
            configure: Some(owned(configure)),
            build: Some(owned("cmake --build {build_dir}")),
            clean: Some(owned("cmake --build {build_dir} --target clean")),
        },
        run: RunConfig { command: None, cwd: None },
        clangd: ClangdConfig {
            command: Some(owned("clangd")),
            compiler: Some(owned(compiler)),
            compile_commands_dir: Some(owned("{build_dir}")),
            extra_flags: None,
            query_driver: Some(query_driver),
        },
    }
}

fn make_preset(
    preset: &str,
    toolchain: &str,
    cc: &str,
    cxx: &str,
    compiler: &str,
    query_driver: Vec<String>,
) -> (r: UserConfig)
    ensures
        r@ == make_preset_spec(
            preset@,
            toolchain@,
            cc@,
            cxx@,
            compiler@,
            query_driver@.map_values(|s: String| s@),
        ),
{
    UserConfig {
        preset: Some(owned(preset)),
        toolchain: ToolchainConfig {
            name: Some(owned(toolchain)),
            cc: Some(owned(cc)),
            cxx: Some(owned(cxx)),
        },
        build: BuildConfig {
            system: Some(owned("make")),
            build_dir_style: None,
            build_dir: None,
            build_type: None,
            configure: None,
            build: Some(owned("make -j")),
            clean: Some(owned("make clean")),
        },
        run: RunConfig { command: None, cwd: None },
        clangd: ClangdConfig {
            command: Some(owned("clangd")),
            compiler: Some(owned(compiler)),
            compile_commands_dir: Some(owned(".")),
            extra_flags: None,
            query_driver: Some(query_driver),
        },
    }
}

fn pair(a: &str, b: &str) -> (r: Vec<String>)
    ensures
        r@.map_values(|s: String| s@) == seq![a@, b@],
{
    let r = vec![owned(a), owned(b)];
    assert(r@.map_values(|s: String| s@) =~= seq![a@, b@]);
    r
}

/// The built-in preset called `name`: `msvc-cmake-ninja`, `gcc-cmake-ninja`,
/// `clang-cmake-ninja`, `gcc-make`, `clang-make` or `custom`.
pub fn preset_config(name: &str) -> (r: Option<UserConfig>)
    ensures
        match r {
            Some(c) => preset_spec(name@) == Some(c@),
            None => preset_spec(name@) is None,
        },
{
    if str_eq(name, "msvc-cmake-ninja") {
        let q: Vec<String> = Vec::new();
        assert(q@.map_values(|s: String| s@) =~= seq![]);
        Some(cmake_preset(name, "msvc", "cl", "cl", "clang-cl", "cmake -S . -B {build_dir} -G Ninja -DCMAKE_BUILD_TYPE={build_type} -DCMAKE_C_COMPILER=cl -DCMAKE_CXX_COMPILER=cl -DCMAKE_EXPORT_COMPILE_COMMANDS=ON", q))
    } else if str_eq(name, "gcc-cmake-ninja") {
        Some(cmake_preset(name, "gcc", "gcc", "g++", "g++", "cmake -S . -B {build_dir} -G Ninja -DCMAKE_BUILD_TYPE={build_type} -DCMAKE_C_COMPILER=gcc -DCMAKE_CXX_COMPILER=g++ -DCMAKE_EXPORT_COMPILE_COMMANDS=ON", pair("gcc", "g++")))
    } else if str_eq(name, "clang-cmake-ninja") {
        Some(cmake_preset(name, "clang", "clang", "clang++", "clang++", "cmake -S . -B {build_dir} -G Ninja -DCMAKE_BUILD_TYPE={build_type} -DCMAKE_C_COMPILER=clang -DCMAKE_CXX_COMPILER=clang++ -DCMAKE_EXPORT_COMPILE_COMMANDS=ON", pair("clang", "clang++")))
    } else if str_eq(name, "gcc-make") {
        Some(make_preset(name, "gcc", "gcc", "g++", "g++", pair("gcc", "g++")))
    } else if str_eq(name, "clang-make") {
        Some(make_preset(name, "clang", "clang", "clang++", "clang++", pair("clang", "clang++")))
    } else if str_eq(name, "custom") {
        let mut c = UserConfig::default();
        c.preset = Some(owned(name));
        Some(c)
    } else {
        None
    }
}

} // verus!
