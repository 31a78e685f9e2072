//! The configuration model: what `.zed/cpp-toolkit.toml` may say
//! (`UserConfig`) and what the extension works with once presets and
//! defaults are applied (`EffectiveConfig`).
use crate::text::{copy_opt, copy_opt_strings, copy_string, copy_strings, opt_strs_view, opt_view, strs_view};
use vstd::prelude::*;

verus! {

/// The whole user configuration file; every field may be left out.
#[derive(Debug, Clone, PartialEq, Eq)]
pub struct UserConfig {
    pub preset: Option<String>,
    pub toolchain: ToolchainConfig,
    pub build: BuildConfig,
    pub run: RunConfig,
    pub clangd: ClangdConfig,
}

/// `[toolchain]`.
#[derive(Debug, Clone, PartialEq, Eq)]
pub struct ToolchainConfig {
    pub name: Option<String>,
    pub cc: Option<String>,
    pub cxx: Option<String>,
}

/// `[build]`.
#[derive(Debug, Clone, PartialEq, Eq)]
pub struct BuildConfig {
    pub system: Option<String>,
    pub build_dir_style: Option<BuildDirStyle>,
    pub build_dir: Option<String>,
    pub build_type: Option<String>,
    pub configure: Option<String>,
    pub build: Option<String>,
    pub clean: Option<String>,
}

/// `[run]`.
#[derive(Debug, Clone, PartialEq, Eq)]
pub struct RunConfig {
    pub command: Option<String>,
    pub cwd: Option<String>,
}

/// `[clangd]`.
#[derive(Debug, Clone, PartialEq, Eq)]
pub struct ClangdConfig {
    pub command: Option<String>,
    pub compiler: Option<String>,
    pub compile_commands_dir: Option<String>,
    pub extra_flags: Option<Vec<String>>,
    pub query_driver: Option<Vec<String>>,
}

/// How the build directory is named when `build_dir` is not given.
#[derive(Debug, Clone, Copy, PartialEq, Eq, Structural)]
pub enum BuildDirStyle {
    /// `build`.
    Build,
    /// `cmake-build-<type>`, as CLion names it.
    Clion,
    /// Only an explicit `build_dir`.
    Custom,
}

/// The configuration the extension acts on.
#[derive(Debug, Clone, PartialEq, Eq)]
pub struct EffectiveConfig {
    pub preset: String,
    pub toolchain: EffectiveToolchain,
    pub build: EffectiveBuild,
    pub run: EffectiveRun,
    pub clangd: EffectiveClangd,
}

/// The resolved toolchain.
#[derive(Debug, Clone, PartialEq, Eq)]
pub struct EffectiveToolchain {
    pub name: String,
    pub cc: String,
    pub cxx: String,
}

/// The resolved build settings. The `*_template` fields keep the commands
/// (and the explicit build directory) before `{build_dir}` and
/// `{build_type}` were filled in, so that tasks for other build types can
/// be derived from them.
#[derive(Debug, Clone, PartialEq, Eq)]
pub struct EffectiveBuild {
    pub system: String,
    pub build_dir_style: BuildDirStyle,
    pub build_dir: String,
    pub build_dir_template: Option<String>,
    pub build_type: String,
    pub configure: Option<String>,
    pub configure_template: Option<String>,
    pub build: Option<String>,
    pub build_template: Option<String>,
    pub clean: Option<String>,
    pub clean_template: Option<String>,
}

/// The resolved run settings.
#[derive(Debug, Clone, PartialEq, Eq)]
pub struct EffectiveRun {
    pub command: Option<String>,
    pub command_template: Option<String>,
    pub cwd: String,
}

/// The resolved clangd settings.
#[derive(Debug, Clone, PartialEq, Eq)]
pub struct EffectiveClangd {
    pub command: String,
    pub compiler: String,
    pub compile_commands_dir: String,
    pub extra_flags: Vec<String>,
    pub query_driver: Vec<String>,
}

// ---------------------------------------------------------------------------
// Models
// ---------------------------------------------------------------------------

pub struct ToolchainConfigView {
    pub name: Option<Seq<char>>,
    pub cc: Option<Seq<char>>,
    pub cxx: Option<Seq<char>>,
}

pub struct BuildConfigView {
    pub system: Option<Seq<char>>,
    pub build_dir_style: Option<BuildDirStyle>,
    pub build_dir: Option<Seq<char>>,
    pub build_type: Option<Seq<char>>,
    pub configure: Option<Seq<char>>,
    pub build: Option<Seq<char>>,
    pub clean: Option<Seq<char>>,
}

pub struct RunConfigView {
    pub command: Option<Seq<char>>,
    pub cwd: Option<Seq<char>>,
}

pub struct ClangdConfigView {
    pub command: Option<Seq<char>>,
    pub compiler: Option<Seq<char>>,
    pub compile_commands_dir: Option<Seq<char>>,
    pub extra_flags: Option<Seq<Seq<char>>>,
    pub query_driver: Option<Seq<Seq<char>>>,
}

pub struct UserConfigView {
    pub preset: Option<Seq<char>>,
    pub toolchain: ToolchainConfigView,
    pub build: BuildConfigView,
    pub run: RunConfigView,
    pub clangd: ClangdConfigView,
}

pub struct EffectiveToolchainView {
    pub name: Seq<char>,
    pub cc: Seq<char>,
    pub cxx: Seq<char>,
}

pub struct EffectiveBuildView {
    pub system: Seq<char>,
    pub build_dir_style: BuildDirStyle,
    pub build_dir: Seq<char>,
    pub build_dir_template: Option<Seq<char>>,
    pub build_type: Seq<char>,
    pub configure: Option<Seq<char>>,
    pub configure_template: Option<Seq<char>>,
    pub build: Option<Seq<char>>,
    pub build_template: Option<Seq<char>>,
    pub clean: Option<Seq<char>>,
    pub clean_template: Option<Seq<char>>,
}

pub struct EffectiveRunView {
    pub command: Option<Seq<char>>,
    pub command_template: Option<Seq<char>>,
    pub cwd: Seq<char>,
}

pub struct EffectiveClangdView {
    pub command: Seq<char>,
    pub compiler: Seq<char>,
    pub compile_commands_dir: Seq<char>,
    pub extra_flags: Seq<Seq<char>>,
    pub query_driver: Seq<Seq<char>>,
}

pub struct EffectiveConfigView {
    pub preset: Seq<char>,
    pub toolchain: EffectiveToolchainView,
    pub build: EffectiveBuildView,
    pub run: EffectiveRunView,
    pub clangd: EffectiveClangdView,
}

impl View for ToolchainConfig {
    type V = ToolchainConfigView;

    open spec fn view(&self) -> ToolchainConfigView {
        ToolchainConfigView { name: opt_view(self.name), cc: opt_view(self.cc), cxx: opt_view(self.cxx) }
    }
}

impl View for BuildConfig {
    type V = BuildConfigView;

    open spec fn view(&self) -> BuildConfigView {
        BuildConfigView {
            system: opt_view(self.system),
            build_dir_style: self.build_dir_style,
            build_dir: opt_view(self.build_dir),
            build_type: opt_view(self.build_type),
            configure: opt_view(self.configure),
            build: opt_view(self.build),
            clean: opt_view(self.clean),
        }
    }
}

impl View for RunConfig {
    type V = RunConfigView;

    open spec fn view(&self) -> RunConfigView {
        RunConfigView { command: opt_view(self.command), cwd: opt_view(self.cwd) }
    }
}

impl View for ClangdConfig {
    type V = ClangdConfigView;

    open spec fn view(&self) -> ClangdConfigView {
        ClangdConfigView {
            command: opt_view(self.command),
            compiler: opt_view(self.compiler),
            compile_commands_dir: opt_view(self.compile_commands_dir),
            extra_flags: opt_strs_view(self.extra_flags),
            query_driver: opt_strs_view(self.query_driver),
        }
    }
}

impl View for UserConfig {
    type V = UserConfigView;

    open spec fn view(&self) -> UserConfigView {
        UserConfigView {
            preset: opt_view(self.preset),
            toolchain: self.toolchain@,
            build: self.build@,
            run: self.run@,
            clangd: self.clangd@,
        }
    }
}

impl View for EffectiveToolchain {
    type V = EffectiveToolchainView;

    open spec fn view(&self) -> EffectiveToolchainView {
        EffectiveToolchainView { name: self.name@, cc: self.cc@, cxx: self.cxx@ }
    }
}

impl View for EffectiveBuild {
    type V = EffectiveBuildView;

    open spec fn view(&self) -> EffectiveBuildView {
        EffectiveBuildView {
            system: self.system@,
            build_dir_style: self.build_dir_style,
            build_dir: self.build_dir@,
            build_dir_template: opt_view(self.build_dir_template),
            build_type: self.build_type@,
            configure: opt_view(self.configure),
            configure_template: opt_view(self.configure_template),
            build: opt_view(self.build),
            build_template: opt_view(self.build_template),
            clean: opt_view(self.clean),
            clean_template: opt_view(self.clean_template),
        }
    }
}

impl View for EffectiveRun {
    type V = EffectiveRunView;

    open spec fn view(&self) -> EffectiveRunView {
        EffectiveRunView {
            command: opt_view(self.command),
            command_template: opt_view(self.command_template),
            cwd: self.cwd@,
        }
    }
}

impl View for EffectiveClangd {
    type V = EffectiveClangdView;

    open spec fn view(&self) -> EffectiveClangdView {
        EffectiveClangdView {
            command: self.command@,
            compiler: self.compiler@,
            compile_commands_dir: self.compile_commands_dir@,
            extra_flags: strs_view(self.extra_flags@),
            query_driver: strs_view(self.query_driver@),
        }
    }
}

impl View for EffectiveConfig {
    type V = EffectiveConfigView;

    open spec fn view(&self) -> EffectiveConfigView {
        EffectiveConfigView {
            preset: self.preset@,
            toolchain: self.toolchain@,
            build: self.build@,
            run: self.run@,
            clangd: self.clangd@,
        }
    }
}

// ---------------------------------------------------------------------------
// Empty values
// ---------------------------------------------------------------------------

/// The model of a configuration that sets nothing.
pub open spec fn empty_user_config() -> UserConfigView {
    UserConfigView {
        preset: None,
        toolchain: ToolchainConfigView { name: None, cc: None, cxx: None },
        build: BuildConfigView {
            system: None,
            build_dir_style: None,
            build_dir: None,
            build_type: None,
            configure: None,
            build: None,
            clean: None,
        },
        run: RunConfigView { command: None, cwd: None },
        clangd: ClangdConfigView {
            command: None,
            compiler: None,
            compile_commands_dir: None,
            extra_flags: None,
            query_driver: None,
        },
    }
}

impl Default for ToolchainConfig {
    fn default() -> (r: Self)
        ensures
            r@ == empty_user_config().toolchain,
    {
        ToolchainConfig { name: None, cc: None, cxx: None }
    }
}

impl Default for BuildConfig {
    fn default() -> (r: Self)
        ensures
            r@ == empty_user_config().build,
    {
        BuildConfig {
            system: None,
            build_dir_style: None,
            build_dir: None,
            build_type: None,
            configure: None,
            build: None,
            clean: None,
        }
    }
}

impl Default for RunConfig {
    fn default() -> (r: Self)
        ensures
            r@ == empty_user_config().run,
    {
        RunConfig { command: None, cwd: None }
    }
}

impl Default for ClangdConfig {
    fn default() -> (r: Self)
        ensures
            r@ == empty_user_config().clangd,
    {
        ClangdConfig {
            command: None,
            compiler: None,
            compile_commands_dir: None,
            extra_flags: None,
            query_driver: None,
        }
    }
}

impl Default for UserConfig {
    fn default() -> (r: Self)
        ensures
            r@ == empty_user_config(),
    {
        UserConfig {
            preset: None,
            toolchain: ToolchainConfig::default(),
            build: BuildConfig::default(),
            run: RunConfig::default(),
            clangd: ClangdConfig::default(),
        }
    }
}

impl Default for BuildDirStyle {
    fn default() -> (r: Self)
        ensures
            r == BuildDirStyle::Build,
    {
        BuildDirStyle::Build
    }
}

// ---------------------------------------------------------------------------
// Copies
// ---------------------------------------------------------------------------

impl EffectiveConfig {
    /// A copy of this configuration with the same model.
    pub fn duplicate(&self) -> (r: EffectiveConfig)
        ensures
            r@ == self@,
    {
        EffectiveConfig {
            preset: copy_string(&self.preset),
            toolchain: EffectiveToolchain {
                name: copy_string(&self.toolchain.name),
                cc: copy_string(&self.toolchain.cc),
                cxx: copy_string(&self.toolchain.cxx),
            },
            build: EffectiveBuild {
                system: copy_string(&self.build.system),
                build_dir_style: self.build.build_dir_style,
                build_dir: copy_string(&self.build.build_dir),
                build_dir_template: copy_opt(&self.build.build_dir_template),
                build_type: copy_string(&self.build.build_type),
                configure: copy_opt(&self.build.configure),
                configure_template: copy_opt(&self.build.configure_template),
                build: copy_opt(&self.build.build),
                build_template: copy_opt(&self.build.build_template),
                clean: copy_opt(&self.build.clean),
                clean_template: copy_opt(&self.build.clean_template),
            },
            run: EffectiveRun {
                command: copy_opt(&self.run.command),
                command_template: copy_opt(&self.run.command_template),
                cwd: copy_string(&self.run.cwd),
            },
            clangd: EffectiveClangd {
                command: copy_string(&self.clangd.command),
                compiler: copy_string(&self.clangd.compiler),
                compile_commands_dir: copy_string(&self.clangd.compile_commands_dir),
                extra_flags: copy_strings(&self.clangd.extra_flags),
                query_driver: copy_strings(&self.clangd.query_driver),
            },
        }
    }
}

impl UserConfig {
    /// A copy of this configuration with the same model.
    pub fn duplicate(&self) -> (r: UserConfig)
        ensures
            r@ == self@,
    {
        UserConfig {
            preset: copy_opt(&self.preset),
            toolchain: ToolchainConfig {
                name: copy_opt(&self.toolchain.name),
                cc: copy_opt(&self.toolchain.cc),
                cxx: copy_opt(&self.toolchain.cxx),
            },
            build: BuildConfig {
                system: copy_opt(&self.build.system),
                build_dir_style: self.build.build_dir_style,
                build_dir: copy_opt(&self.build.build_dir),
                build_type: copy_opt(&self.build.build_type),
                configure: copy_opt(&self.build.configure),
                build: copy_opt(&self.build.build),
                clean: copy_opt(&self.build.clean),
            },
            run: RunConfig { command: copy_opt(&self.run.command), cwd: copy_opt(&self.run.cwd) },
            clangd: ClangdConfig {
                command: copy_opt(&self.clangd.command),
                compiler: copy_opt(&self.clangd.compiler),
                compile_commands_dir: copy_opt(&self.clangd.compile_commands_dir),
                extra_flags: copy_opt_strings(&self.clangd.extra_flags),
                query_driver: copy_opt_strings(&self.clangd.query_driver),
            },
        }
    }
}

} // verus!
