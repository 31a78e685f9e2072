//! Merging a user configuration over its preset, and resolving the result
//! into the configuration the extension acts on.
use crate::config::presets::{preset_config, preset_spec};
use crate::config::schema::{
    empty_user_config, BuildConfig, BuildConfigView, BuildDirStyle, ClangdConfig, ClangdConfigView,
    EffectiveBuild, EffectiveBuildView, EffectiveClangd, EffectiveClangdView, EffectiveConfig,
    EffectiveConfigView, EffectiveRun, EffectiveRunView, EffectiveToolchain,
    EffectiveToolchainView, RunConfig, RunConfigView, ToolchainConfig, ToolchainConfigView,
    UserConfig, UserConfigView,
};
use crate::error::{ToolkitError, ToolkitErrorView, ToolkitResult};
use crate::text::{
    all_ws, all_ws_exec, append_str, chars_of, copy_opt, copy_string, has_char, has_char_exec,
    opt_view, owned, replace_all, replace_str, str_eq, strs_view, ascii_lower_exec, ascii_lower_seq, string_of,
};
use vstd::prelude::*;

verus! {

/// The platform the workspace lives on.
#[derive(Debug, Clone, Copy, PartialEq, Eq, Structural)]
pub enum HostPlatform {
    Windows,
    Macos,
    Linux,
}

/// A path written the Windows way: it holds a backslash, or its second
/// byte is a drive colon (`C:`), which in UTF-8 means its first character
/// is ASCII and its second is `:`.
pub open spec fn is_windows_path_spec(p: Seq<char>) -> bool {
    has_char(p, '\\') || (p.len() >= 2 && (p[0] as u32) < 0x80 && p[1] == ':')
}

/// Whether a path is written the Windows way.
pub fn is_windows_path(path: &str) -> (r: bool)
    ensures
        r == is_windows_path_spec(path@),
{
    let v = chars_of(path);
    if has_char_exec(&v, '\\') {
        return true;
    }
    v.len() >= 2 && (v[0] as u32) < 0x80 && v[1] == ':'
}

impl HostPlatform {
    /// The platform of a workspace, judged by its root path: Windows for a
    /// Windows path, Linux otherwise.
    pub fn from_root_path(root_path: &str) -> (r: Self)
        ensures
            r == (if is_windows_path_spec(root_path@) {
                HostPlatform::Windows
            } else {
                HostPlatform::Linux
            }),
    {
        if is_windows_path(root_path) {
            HostPlatform::Windows
        } else {
            HostPlatform::Linux
        }
    }
}

/// The preset used when the configuration names none.
pub open spec fn default_preset_spec(platform: HostPlatform) -> Seq<char> {
    match platform {
        HostPlatform::Windows => "msvc-cmake-ninja"@,
        HostPlatform::Macos => "clang-cmake-ninja"@,
        HostPlatform::Linux => "gcc-cmake-ninja"@,
    }
}

/// The preset used when the configuration names none.
pub fn default_preset_for_host_platform(platform: HostPlatform) -> (r: &'static str)
    ensures
        r@ == default_preset_spec(platform),
{
    match platform {
        HostPlatform::Windows => "msvc-cmake-ninja",
        HostPlatform::Macos => "clang-cmake-ninja",
        HostPlatform::Linux => "gcc-cmake-ninja",
    }
}

// ---------------------------------------------------------------------------
// Merging
// ---------------------------------------------------------------------------

/// `user.or(base)`: the user's value when it has one.
pub open spec fn or_else<A>(user: Option<A>, base: Option<A>) -> Option<A> {
    match user {
        Some(v) => Some(v),
        None => base,
    }
}

/// `value.unwrap_or(default)`.
pub open spec fn unwrap_or<A>(value: Option<A>, default: A) -> A {
    match value {
        Some(v) => v,
        None => default,
    }
}

pub open spec fn merge_toolchain_spec(
    base: ToolchainConfigView,
    user: ToolchainConfigView,
) -> ToolchainConfigView {
    ToolchainConfigView {
        name: or_else(user.name, base.name),
        cc: or_else(user.cc, base.cc),
        cxx: or_else(user.cxx, base.cxx),
    }
}

pub open spec fn merge_build_spec(base: BuildConfigView, user: BuildConfigView) -> BuildConfigView {
    BuildConfigView {
        system: or_else(user.system, base.system),
        build_dir_style: or_else(user.build_dir_style, base.build_dir_style),
        build_dir: or_else(user.build_dir, base.build_dir),
        build_type: or_else(user.build_type, base.build_type),
        configure: or_else(user.configure, base.configure),
        build: or_else(user.build, base.build),
        clean: or_else(user.clean, base.clean),
    }
}

pub open spec fn merge_run_spec(base: RunConfigView, user: RunConfigView) -> RunConfigView {
    RunConfigView { command: or_else(user.command, base.command), cwd: or_else(user.cwd, base.cwd) }
}

pub open spec fn merge_clangd_spec(base: ClangdConfigView, user: ClangdConfigView) -> ClangdConfigView {
    ClangdConfigView {
        command: or_else(user.command, base.command),
        compiler: or_else(user.compiler, base.compiler),
        compile_commands_dir: or_else(user.compile_commands_dir, base.compile_commands_dir),
        extra_flags: or_else(user.extra_flags, base.extra_flags),
        query_driver: or_else(user.query_driver, base.query_driver),
    }
}

/// Every field the user sets replaces the one of `base`; the others are
/// kept.
pub open spec fn merge_spec(base: UserConfigView, user: UserConfigView) -> UserConfigView {
    UserConfigView {
        preset: or_else(user.preset, base.preset),
        toolchain: merge_toolchain_spec(base.toolchain, user.toolchain),
        build: merge_build_spec(base.build, user.build),
        run: merge_run_spec(base.run, user.run),
        clangd: merge_clangd_spec(base.clangd, user.clangd),
    }
}

fn or_str(user: Option<String>, base: Option<String>) -> (r: Option<String>)
    ensures
        opt_view(r) == or_else(opt_view(user), opt_view(base)),
{
    match user {
        Some(v) => Some(v),
        None => base,
    }
}

fn or_strs(user: Option<Vec<String>>, base: Option<Vec<String>>) -> (r: Option<Vec<String>>)
    ensures
        crate::text::opt_strs_view(r) == or_else(
            crate::text::opt_strs_view(user),
            crate::text::opt_strs_view(base),
        ),
{
    match user {
        Some(v) => Some(v),
        None => base,
    }
}

fn or_style(user: Option<BuildDirStyle>, base: Option<BuildDirStyle>) -> (r: Option<BuildDirStyle>)
    ensures
        r == or_else(user, base),
{
    match user {
        Some(v) => Some(v),
        None => base,
    }
}

/// Lays the user's toolchain settings over the preset's.
pub fn merge_toolchain(base: ToolchainConfig, user: ToolchainConfig) -> (r: ToolchainConfig)
    ensures
        r@ == merge_toolchain_spec(base@, user@),
{
    ToolchainConfig {
        name: or_str(user.name, base.name),
        cc: or_str(user.cc, base.cc),
        cxx: or_str(user.cxx, base.cxx),
    }
}

/// Lays the user's build settings over the preset's.
pub fn merge_build(base: BuildConfig, user: BuildConfig) -> (r: BuildConfig)
    ensures
        r@ == merge_build_spec(base@, user@),
{
    BuildConfig {
        system: or_str(user.system, base.system),
        build_dir_style: or_style(user.build_dir_style, base.build_dir_style),
        build_dir: or_str(user.build_dir, base.build_dir),
        build_type: or_str(user.build_type, base.build_type),
        configure: or_str(user.configure, base.configure),
        build: or_str(user.build, base.build),
        clean: or_str(user.clean, base.clean),
    }
}

/// Lays the user's run settings over the preset's.
pub fn merge_run(base: RunConfig, user: RunConfig) -> (r: RunConfig)
    ensures
        r@ == merge_run_spec(base@, user@),
{
    RunConfig { command: or_str(user.command, base.command), cwd: or_str(user.cwd, base.cwd) }
}

/// Lays the user's clangd settings over the preset's.
pub fn merge_clangd(base: ClangdConfig, user: ClangdConfig) -> (r: ClangdConfig)
    ensures
        r@ == merge_clangd_spec(base@, user@),
{
    ClangdConfig {
        command: or_str(user.command, base.command),
        compiler: or_str(user.compiler, base.compiler),
        compile_commands_dir: or_str(user.compile_commands_dir, base.compile_commands_dir),
        extra_flags: or_strs(user.extra_flags, base.extra_flags),
        query_driver: or_strs(user.query_driver, base.query_driver),
    }
}

/// Lays a user configuration over a preset: every field the user sets wins
/// (an empty list included), every other field keeps the preset's value.
pub fn merge_user_config(base: UserConfig, user: UserConfig) -> (r: UserConfig)
    ensures
        r@ == merge_spec(base@, user@),
{
    UserConfig {
        preset: or_str(user.preset, base.preset),
        toolchain: merge_toolchain(base.toolchain, user.toolchain),
        build: merge_build(base.build, user.build),
        run: merge_run(base.run, user.run),
        clangd: merge_clangd(base.clangd, user.clangd),
    }
}

// ---------------------------------------------------------------------------
// Templates and build directories
// ---------------------------------------------------------------------------

/// `{build_dir}` and then `{build_type}` replaced in a command template.
pub open spec fn expand_spec(value: Seq<char>, build_dir: Seq<char>, build_type: Seq<char>) -> Seq<char> {
    replace_all(replace_all(value, "{build_dir}"@, build_dir), "{build_type}"@, build_type)
}

pub open spec fn expand_opt_spec(
    value: Option<Seq<char>>,
    build_dir: Seq<char>,
    build_type: Seq<char>,
) -> Option<Seq<char>> {
    match value {
        Some(v) => Some(expand_spec(v, build_dir, build_type)),
        None => None,
    }
}

/// Fills `{build_dir}` and `{build_type}` into a command template.
pub fn expand_template(value: &str, build_dir: &str, build_type: &str) -> (r: String)
    ensures
        r@ == expand_spec(value@, build_dir@, build_type@),
{
    proof {
        reveal_strlit("{build_dir}");
        reveal_strlit("{build_type}");
    }
    let once = replace_str(value, "{build_dir}", build_dir);
    replace_str(once.as_str(), "{build_type}", build_type)
}

/// Fills the placeholders into an optional command template.
pub fn expand_optional(value: Option<String>, build_dir: &str, build_type: &str) -> (r: Option<String>)
    ensures
        opt_view(r) == expand_opt_spec(opt_view(value), build_dir@, build_type@),
{
    match value {
        Some(v) => Some(expand_template(v.as_str(), build_dir, build_type)),
        None => None,
    }
}

/// The lower-case form of a text, as `str::to_lowercase` computes it
/// (Unicode `Lowercase` mapping).
pub uninterp spec fn unicode_lowercase(s: Seq<char>) -> Seq<char>;

/// `str::to_lowercase`: the lower-case equivalent of the text under the
/// Unicode `Lowercase` mapping. Nothing more than the name is stated.
#[verifier::external_body]
pub(crate) fn to_lowercase(s: &str) -> (r: String)
    ensures
        r@ == unicode_lowercase(s@),
{
    s.to_lowercase()
}

/// Every character of the text is ASCII.
pub open spec fn is_ascii_text(s: Seq<char>) -> bool {
    forall|i: int| 0 <= i < s.len() ==> (#[trigger] s[i] as u32) < 128
}

/// The lower-case form of a text as `str::to_lowercase` gives it: for
/// ASCII text that is ASCII lower-casing (the Unicode mapping of ASCII
/// letters), which is computed here; other text goes to `to_lowercase`.
pub open spec fn lowercase_spec(s: Seq<char>) -> Seq<char> {
    if is_ascii_text(s) {
        ascii_lower_seq(s)
    } else {
        unicode_lowercase(s)
    }
}

/// The lower-case form of a text.
pub fn lowercase(s: &str) -> (r: String)
    ensures
        r@ == lowercase_spec(s@),
{
    let v = chars_of(s);
    let mut i: usize = 0;
    while i < v.len()
        invariant
            v@ == s@,
            i <= v.len(),
            forall|j: int| 0 <= j < i ==> (#[trigger] v@[j] as u32) < 128,
        decreases v.len() - i,
    {
        if (v[i] as u32) >= 128 {
            return to_lowercase(s);
        }
        i = i + 1;
    }
    string_of(&ascii_lower_exec(&v))
}

/// The build-type part of a CLion build directory name.
pub open spec fn build_type_suffix_spec(build_type: Seq<char>) -> Seq<char> {
    if build_type == "Debug"@ {
        "debug"@
    } else if build_type == "Release"@ {
        "release"@
    } else if build_type == "RelWithDebInfo"@ {
        "relwithdebinfo"@
    } else if build_type == "MinSizeRel"@ {
        "minsizerel"@
    } else {
        lowercase_spec(build_type)
    }
}

/// The build-type part of a CLion build directory name.
pub fn cmake_build_type_suffix(build_type: &str) -> (r: String)
    ensures
        r@ == build_type_suffix_spec(build_type@),
{
    if str_eq(build_type, "Debug") {
        owned("debug")
    } else if str_eq(build_type, "Release") {
        owned("release")
    } else if str_eq(build_type, "RelWithDebInfo") {
        owned("relwithdebinfo")
    } else if str_eq(build_type, "MinSizeRel") {
        owned("minsizerel")
    } else {
        lowercase(build_type)
    }
}

/// The build directory a style gives when no directory is set.
pub open spec fn infer_build_dir_spec(style: BuildDirStyle, build_type: Seq<char>) -> Seq<char> {
    match style {
        BuildDirStyle::Clion => "cmake-build-"@ + build_type_suffix_spec(build_type),
        _ => "build"@,
    }
}

/// The build directory a style gives when no directory is set: `build`, or
/// `cmake-build-<type>` for the CLion style. The custom style has none.
pub fn infer_build_dir(style: BuildDirStyle, build_type: &str) -> (r: String)
    requires
        style != BuildDirStyle::Custom,
    ensures
        r@ == infer_build_dir_spec(style, build_type@),
{
    match style {
        BuildDirStyle::Build => owned("build"),
        BuildDirStyle::Clion => {
            let mut r = owned("cmake-build-");
            let suffix = cmake_build_type_suffix(build_type);
            append_str(&mut r, suffix.as_str());
            r
        },
        BuildDirStyle::Custom => owned("build"),
    }
}

// ---------------------------------------------------------------------------
// Resolution
// ---------------------------------------------------------------------------

/// The message given for a preset name that is not built in.
pub open spec fn unknown_preset_message(name: Seq<char>) -> Seq<char> {
    "未知 cpp-toolkit preset："@ + name
}

/// The message given for the custom style without a build directory.
pub open spec fn custom_style_message() -> Seq<char> {
    "build_dir_style = \"custom\" requires build_dir"@
}

/// The preset a configuration resolves with.
pub open spec fn chosen_preset(user: Option<UserConfigView>, host: HostPlatform) -> Seq<char> {
    match user {
        Some(u) => unwrap_or(u.preset, default_preset_spec(host)),
        None => default_preset_spec(host),
    }
}

/// The explicit build directory: set and not blank.
pub open spec fn explicit_build_dir_spec(merged: UserConfigView) -> Option<Seq<char>> {
    match merged.build.build_dir {
        Some(d) => if all_ws(d) {
            None
        } else {
            Some(d)
        },
        None => None,
    }
}

/// The build directory of a merged configuration whose style is usable.
pub open spec fn resolved_build_dir(merged: UserConfigView) -> Seq<char> {
    match explicit_build_dir_spec(merged) {
        Some(d) => d,
        None => infer_build_dir_spec(
            unwrap_or(merged.build.build_dir_style, BuildDirStyle::Build),
            unwrap_or(merged.build.build_type, "Debug"@),
        ),
    }
}

/// The effective configuration of a merged configuration.
pub open spec fn effective_spec(preset_name: Seq<char>, merged: UserConfigView) -> EffectiveConfigView {
    let build_type = unwrap_or(merged.build.build_type, "Debug"@);
    let build_dir = resolved_build_dir(merged);
    let cxx = unwrap_or(merged.toolchain.cxx, "c++"@);
    EffectiveConfigView {
        preset: preset_name,
        toolchain: EffectiveToolchainView {
            name: unwrap_or(merged.toolchain.name, "custom"@),
            cc: unwrap_or(merged.toolchain.cc, "cc"@),
            cxx: cxx,
        },
        build: EffectiveBuildView {
            system: unwrap_or(merged.build.system, "custom"@),
            build_dir_style: unwrap_or(merged.build.build_dir_style, BuildDirStyle::Build),
            build_dir: build_dir,
            build_dir_template: explicit_build_dir_spec(merged),
            build_type: build_type,
            configure: expand_opt_spec(merged.build.configure, build_dir, build_type),
            configure_template: merged.build.configure,
            build: expand_opt_spec(merged.build.build, build_dir, build_type),
            build_template: merged.build.build,
            clean: expand_opt_spec(merged.build.clean, build_dir, build_type),
            clean_template: merged.build.clean,
        },
        run: EffectiveRunView {
            command: expand_opt_spec(merged.run.command, build_dir, build_type),
            command_template: merged.run.command,
            cwd: unwrap_or(merged.run.cwd, "$ZED_WORKTREE_ROOT"@),
        },
        clangd: EffectiveClangdView {
            command: unwrap_or(merged.clangd.command, "clangd"@),
            compiler: unwrap_or(merged.clangd.compiler, cxx),
            compile_commands_dir: expand_spec(
                unwrap_or(merged.clangd.compile_commands_dir, build_dir),
                build_dir,
                build_type,
            ),
            extra_flags: unwrap_or(merged.clangd.extra_flags, seq![]),
            query_driver: unwrap_or(merged.clangd.query_driver, seq![]),
        },
    }
}

/// What resolving a configuration gives: the chosen preset (named by the
/// user, else the platform default) with the user's settings laid over it,
/// every unset field filled with its default and the templates expanded.
pub open spec fn resolve_spec(user: Option<UserConfigView>, host: HostPlatform) -> Result<
    EffectiveConfigView,
    ToolkitErrorView,
> {
    let name = chosen_preset(user, host);
    match preset_spec(name) {
        None => Err(ToolkitErrorView::IoMessage(unknown_preset_message(name))),
        Some(preset) => {
            let merged = merge_spec(preset, unwrap_or(user, empty_user_config()));
            if unwrap_or(merged.build.build_dir_style, BuildDirStyle::Build) == BuildDirStyle::Custom
                && explicit_build_dir_spec(merged) is None {
                Err(ToolkitErrorView::IoMessage(custom_style_message()))
            } else {
                Ok(effective_spec(name, merged))
            }
        },
    }
}

/// The model of an optional user configuration.
pub open spec fn opt_user_view(user: Option<UserConfig>) -> Option<UserConfigView> {
    match user {
        Some(u) => Some(u@),
        None => None,
    }
}

/// The model of a resolution result.
pub open spec fn result_view(r: ToolkitResult<EffectiveConfig>) -> Result<EffectiveConfigView, ToolkitErrorView> {
    match r {
        Ok(c) => Ok(c@),
        Err(e) => Err(e@),
    }
}

fn unwrap_or_str(value: Option<String>, default: &str) -> (r: String)
    ensures
        r@ == unwrap_or(opt_view(value), default@),
{
    match value {
        Some(v) => v,
        None => owned(default),
    }
}

fn unwrap_or_strs(value: Option<Vec<String>>) -> (r: Vec<String>)
    ensures
        strs_view(r@) == unwrap_or(crate::text::opt_strs_view(value), seq![]),
{
    match value {
        Some(v) => v,
        None => {
            let r: Vec<String> = Vec::new();
            assert(strs_view(r@) =~= seq![]);
            r
        },
    }
}

/// Resolves a configuration for a workspace on the given platform: the
/// preset it names (or the platform's default preset) is merged with it,
/// unset fields get their defaults, and `{build_dir}` / `{build_type}` are
/// filled into the commands. Fails for an unknown preset, and for the
/// custom build directory style without a (non-blank) `build_dir`.
pub fn resolve_config_for_host(user: Option<UserConfig>, host_platform: HostPlatform) -> (r:
    ToolkitResult<EffectiveConfig>)
    ensures
        result_view(r) == resolve_spec(opt_user_view(user), host_platform),
{
    let preset_name: String = match &user {
        Some(config) => match &config.preset {
            Some(p) => copy_string(p),
            None => owned(default_preset_for_host_platform(host_platform)),
        },
        None => owned(default_preset_for_host_platform(host_platform)),
    };
    let preset = match preset_config(preset_name.as_str()) {
        Some(p) => p,
        None => {
            let mut message = owned("未知 cpp-toolkit preset：");
            append_str(&mut message, preset_name.as_str());
            return Err(ToolkitError::IoMessage(message));
        },
    };
    let user_config = match user {
        Some(u) => u,
        None => UserConfig::default(),
    };
    let merged = merge_user_config(preset, user_config);
    let ghost mv = merged@;

    let build_type = unwrap_or_str(copy_opt(&merged.build.build_type), "Debug");
    let build_dir_style = match merged.build.build_dir_style {
        Some(s) => s,
        None => BuildDirStyle::Build,
    };
    let explicit_build_dir: Option<String> = match &merged.build.build_dir {
        Some(d) => {
            let dv = chars_of(d.as_str());
            if all_ws_exec(&dv) {
                None
            } else {
                Some(copy_string(d))
            }
        },
        None => None,
    };
    assert(opt_view(explicit_build_dir) == explicit_build_dir_spec(mv));
    if build_dir_style == BuildDirStyle::Custom && explicit_build_dir.is_none() {
        return Err(ToolkitError::IoMessage(owned("build_dir_style = \"custom\" requires build_dir")));
    }
    let build_dir = match &explicit_build_dir {
        Some(d) => copy_string(d),
        None => infer_build_dir(build_dir_style, build_type.as_str()),
    };
    assert(build_dir@ == resolved_build_dir(mv));

    let toolchain_name = unwrap_or_str(merged.toolchain.name, "custom");
    let cc = unwrap_or_str(merged.toolchain.cc, "cc");
    let cxx = unwrap_or_str(merged.toolchain.cxx, "c++");
    let clangd_compiler = match merged.clangd.compiler {
        Some(c) => c,
        None => copy_string(&cxx),
    };
    let compile_commands_dir_template = match merged.clangd.compile_commands_dir {
        Some(d) => d,
        None => copy_string(&build_dir),
    };
    let compile_commands_dir = expand_template(
        compile_commands_dir_template.as_str(),
        build_dir.as_str(),
        build_type.as_str(),
    );

    let configure = expand_optional(copy_opt(&merged.build.configure), build_dir.as_str(), build_type.as_str());
    let build = expand_optional(copy_opt(&merged.build.build), build_dir.as_str(), build_type.as_str());
    let clean = expand_optional(copy_opt(&merged.build.clean), build_dir.as_str(), build_type.as_str());
    let run_command = expand_optional(copy_opt(&merged.run.command), build_dir.as_str(), build_type.as_str());

    let r = EffectiveConfig {
        preset: preset_name,
        toolchain: EffectiveToolchain { name: toolchain_name, cc, cxx },
        build: EffectiveBuild {
            system: unwrap_or_str(merged.build.system, "custom"),
            build_dir_style,
            build_dir,
            build_dir_template: explicit_build_dir,
            build_type,
            configure,
            configure_template: merged.build.configure,
            build,
            build_template: merged.build.build,
            clean,
            clean_template: merged.build.clean,
        },
        run: EffectiveRun {
            command: run_command,
            command_template: merged.run.command,
            cwd: unwrap_or_str(merged.run.cwd, "$ZED_WORKTREE_ROOT"),
        },
        clangd: EffectiveClangd {
            command: unwrap_or_str(merged.clangd.command, "clangd"),
            compiler: clangd_compiler,
            compile_commands_dir,
            extra_flags: unwrap_or_strs(merged.clangd.extra_flags),
            query_driver: unwrap_or_strs(merged.clangd.query_driver),
        },
    };
    Ok(r)
}

/// Resolves a configuration for a workspace whose platform is judged from
/// its root path.
pub fn resolve_config_for_root_path(user: Option<UserConfig>, root_path: &str) -> (r: ToolkitResult<
    EffectiveConfig,
>)
    ensures
        result_view(r) == resolve_spec(
            opt_user_view(user),
            if is_windows_path_spec(root_path@) {
                HostPlatform::Windows
            } else {
                HostPlatform::Linux
            },
        ),
{
    resolve_config_for_host(user, HostPlatform::from_root_path(root_path))
}

/// Resolves a configuration for a workspace that is not on Windows.
pub fn resolve_config(user: Option<UserConfig>) -> (r: ToolkitResult<EffectiveConfig>)
    ensures
        result_view(r) == resolve_spec(opt_user_view(user), HostPlatform::Linux),
{
    proof {
        reveal_strlit("");
    }
    resolve_config_for_host(user, HostPlatform::from_root_path(""))
}

/// Without a user configuration, the platform's default preset resolves.
pub proof fn lemma_default_preset_resolves(host: HostPlatform)
    ensures
        resolve_spec(None, host) is Ok,
{
    reveal_strlit("msvc-cmake-ninja");
    reveal_strlit("gcc-cmake-ninja");
    reveal_strlit("clang-cmake-ninja");
}

} // verus!
