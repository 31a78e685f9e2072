//! Zed task generation from the effective configuration.
//!
//! Tasks are made for two profiles, Debug and Release; each profile gets
//! its own build directory, derived from the configured one.
use crate::build::shell::{wrap_command, wrap_command_spec, ShellKind};
use crate::cmake::tasks::{targets_view, CmakeTarget, CmakeTargetView};
use crate::config::merge::{
    expand_opt_spec, expand_optional, lowercase, lowercase_spec, or_else, unwrap_or,
};
use crate::config::schema::{EffectiveConfig, EffectiveConfigView};
use crate::error::{ToolkitError, ToolkitErrorView, ToolkitResult};
use crate::json::{json_error_message, pretty_tasks_json, render_zed_tasks, zed_tasks_view};
use crate::text::{
    append_chars, append_str, append_str_chars, char_is_ws, chars_of, contains, copy_opt, occurs_at,
    copy_string, ends_with, find_last, has_substring, has_suffix, is_sep, is_ws,
    last_occurrence, opt_view, owned, replace_all, replace_char, replace_char_exec,
    replace_exec, str_eq, string_of, strs_view, sub_chars, trim_end_by, trim_end_seps,
};
use vstd::prelude::*;

verus! {

/// One entry of `.zed/tasks.json`.
pub struct ZedTask {
    pub label: String,
    pub command: String,
    pub args: Vec<String>,
    pub env: Vec<(String, String)>,
    pub cwd: String,
}

pub struct ZedTaskView {
    pub label: Seq<char>,
    pub command: Seq<char>,
    pub args: Seq<Seq<char>>,
    pub env: Seq<(Seq<char>, Seq<char>)>,
    pub cwd: Seq<char>,
}

impl View for ZedTask {
    type V = ZedTaskView;

    open spec fn view(&self) -> ZedTaskView {
        ZedTaskView {
            label: self.label@,
            command: self.command@,
            args: strs_view(self.args@),
            env: self.env@.map_values(|p: (String, String)| (p.0@, p.1@)),
            cwd: self.cwd@,
        }
    }
}

/// A build type and the lower-case suffix of its build directory.
#[derive(Debug, Clone, Copy, PartialEq, Eq)]
pub struct TaskProfile {
    pub build_type: &'static str,
    pub suffix: &'static str,
}

/// The profiles tasks are made for.
pub fn task_profiles() -> (r: [TaskProfile; 2])
    ensures
        r[0].build_type@ == "Debug"@,
        r[0].suffix@ == "debug"@,
        r[1].build_type@ == "Release"@,
        r[1].suffix@ == "release"@,
{
    [
        TaskProfile { build_type: "Debug", suffix: "debug" },
        TaskProfile { build_type: "Release", suffix: "release" },
    ]
}

/// The commands of one profile.
pub struct ProfiledBuild {
    pub build_dir: String,
    pub build_type: &'static str,
    pub configure: Option<String>,
    pub build: Option<String>,
    pub clean: Option<String>,
    pub run: Option<String>,
}

pub struct ProfiledBuildView {
    pub build_dir: Seq<char>,
    pub build_type: Seq<char>,
    pub configure: Option<Seq<char>>,
    pub build: Option<Seq<char>>,
    pub clean: Option<Seq<char>>,
    pub run: Option<Seq<char>>,
}

impl View for ProfiledBuild {
    type V = ProfiledBuildView;

    open spec fn view(&self) -> ProfiledBuildView {
        ProfiledBuildView {
            build_dir: self.build_dir@,
            build_type: self.build_type@,
            configure: opt_view(self.configure),
            build: opt_view(self.build),
            clean: opt_view(self.clean),
            run: opt_view(self.run),
        }
    }
}

// ---------------------------------------------------------------------------
// Specifications
// ---------------------------------------------------------------------------

/// `path` with its last segment `debug`/`release` (after `-`, `/` or `\`)
/// replaced by `suffix`; unchanged when it ends with neither.
pub open spec fn replace_last_segment_spec(path: Seq<char>, suffix: Seq<char>) -> Seq<char> {
    if ends_with(path, "-debug"@) {
        path.take(path.len() - "-debug"@.len()) + "-"@ + suffix
    } else if ends_with(path, "-release"@) {
        path.take(path.len() - "-release"@.len()) + "-"@ + suffix
    } else if ends_with(path, "/debug"@) {
        path.take(path.len() - "/debug"@.len()) + "/"@ + suffix
    } else if ends_with(path, "/release"@) {
        path.take(path.len() - "/release"@.len()) + "/"@ + suffix
    } else if ends_with(path, "\\debug"@) {
        path.take(path.len() - "\\debug"@.len()) + "\\"@ + suffix
    } else if ends_with(path, "\\release"@) {
        path.take(path.len() - "\\release"@.len()) + "\\"@ + suffix
    } else {
        path
    }
}

/// `s` ends with `-name`, `/name` or `\name`.
pub open spec fn ends_with_segment(s: Seq<char>, name: Seq<char>) -> bool {
    ends_with(s, "-"@ + name) || ends_with(s, "/"@ + name) || ends_with(s, "\\"@ + name)
}

/// The configured build directory, before profiles.
pub open spec fn profile_base_dir(config: EffectiveConfigView) -> Seq<char> {
    unwrap_or(config.build.build_dir_template, config.build.build_dir)
}

/// The build directory of a profile: the configured directory without
/// trailing separators when it already ends with the profile's suffix,
/// with a `debug`/`release` segment switched when it ends with the other
/// one, and with `/<suffix>` appended otherwise. Suffixes are compared on
/// the lower-cased directory.
pub open spec fn profile_build_dir_spec(config: EffectiveConfigView, suffix: Seq<char>) -> Seq<char> {
    let trimmed = trim_end_by(profile_base_dir(config), |c: char| is_sep(c));
    let lower = lowercase_spec(trimmed);
    if ends_with_segment(lower, suffix) {
        trimmed
    } else if suffix == "debug"@ && ends_with_segment(lower, "release"@) {
        replace_last_segment_spec(trimmed, "debug"@)
    } else if suffix == "release"@ && ends_with_segment(lower, "debug"@) {
        replace_last_segment_spec(trimmed, "release"@)
    } else {
        trimmed + "/"@ + suffix
    }
}

/// The commands of a profile: the configured templates (or, without one,
/// the already expanded commands) expanded for the profile.
pub open spec fn profiled_build_spec(
    config: EffectiveConfigView,
    build_type: Seq<char>,
    suffix: Seq<char>,
) -> ProfiledBuildView {
    let dir = profile_build_dir_spec(config, suffix);
    ProfiledBuildView {
        build_dir: dir,
        build_type: build_type,
        configure: expand_opt_spec(
            or_else(config.build.configure_template, config.build.configure),
            dir,
            build_type,
        ),
        build: expand_opt_spec(or_else(config.build.build_template, config.build.build), dir, build_type),
        clean: expand_opt_spec(or_else(config.build.clean_template, config.build.clean), dir, build_type),
        run: expand_opt_spec(or_else(config.run.command_template, config.run.command), dir, build_type),
    }
}

/// `"<base> (<build type>)"`.
pub open spec fn label_spec(base: Seq<char>, build_type: Seq<char>) -> Seq<char> {
    base + " ("@ + build_type + ")"@
}

/// `"<base> (<build type>): <target>"`.
pub open spec fn target_label_spec(base: Seq<char>, build_type: Seq<char>, target: Seq<char>) -> Seq<char> {
    base + " ("@ + build_type + "): "@ + target
}

/// A task running `command` in `shell`.
pub open spec fn task_spec(label: Seq<char>, command: Seq<char>, cwd: Seq<char>, shell: ShellKind) -> ZedTaskView {
    let w = wrap_command_spec(shell, command);
    ZedTaskView { label: label, command: w.0, args: w.1, env: seq![], cwd: cwd }
}

/// The task of an optional command: none without a command.
pub open spec fn opt_task_spec(
    command: Option<Seq<char>>,
    label: Seq<char>,
    cwd: Seq<char>,
    shell: ShellKind,
) -> Seq<ZedTaskView> {
    match command {
        Some(c) => seq![task_spec(label, c, cwd, shell)],
        None => seq![],
    }
}

/// A character that makes a target name need quoting in a shell.
pub open spec fn needs_quote_char(c: char) -> bool {
    is_ws(c) || c == '"' || c == '\'' || c == '&' || c == '|' || c == '<' || c == '>' || c == '('
        || c == ')'
}

/// The target name as a shell argument: quoted (with doubled inner quotes)
/// when it holds white space or a shell metacharacter.
pub open spec fn target_argument_spec(target: Seq<char>) -> Seq<char> {
    if exists|i: int| 0 <= i < target.len() && needs_quote_char(target[i]) {
        "\""@ + replace_all(target, "\""@, "\"\""@) + "\""@
    } else {
        target
    }
}

/// Whether the part of `base` after its last `cmake --build ` (or all of
/// it, when there is none) already selects a configuration.
pub open spec fn build_command_has_config(base: Seq<char>) -> bool {
    match last_occurrence(base, "cmake --build "@) {
        Some(i) => contains(base.skip(i + "cmake --build "@.len()), " --config "@),
        None => contains(base, " --config "@),
    }
}

/// The command that builds one target: the profile's build command (by
/// default `cmake --build <dir>`), with ` --config <type>` unless it
/// already selects one, and ` --target <target>`.
pub open spec fn build_command_spec(p: ProfiledBuildView, target: Seq<char>) -> Seq<char> {
    let base = unwrap_or(p.build, "cmake --build "@ + p.build_dir);
    let config = if build_command_has_config(base) {
        Seq::<char>::empty()
    } else {
        " --config "@ + p.build_type
    };
    base + config + " --target "@ + target_argument_spec(target)
}

/// The command that runs a target's artifact from the build directory.
pub open spec fn run_command_spec(build_dir: Seq<char>, output: Seq<char>, shell: ShellKind) -> Seq<char> {
    let o = replace_char(output, '/', '\\');
    match shell {
        ShellKind::Powershell => "Start-Process -FilePath \"$ZED_WORKTREE_ROOT\\"@ + build_dir + "\\"@
            + o + "\""@,
        ShellKind::Sh => "\"$ZED_WORKTREE_ROOT/"@ + build_dir + "/"@ + replace_char(o, '\\', '/')
            + "\""@,
    }
}

/// A "Build Target" task for each target, in order.
pub open spec fn build_target_tasks_spec(
    targets: Seq<CmakeTargetView>,
    p: ProfiledBuildView,
    shell: ShellKind,
) -> Seq<ZedTaskView>
    decreases targets.len(),
{
    if targets.len() == 0 {
        seq![]
    } else {
        let t = targets.last();
        build_target_tasks_spec(targets.drop_last(), p, shell).push(
            task_spec(
                target_label_spec("C++: Build Target"@, p.build_type, t.name),
                build_command_spec(p, t.name),
                "$ZED_WORKTREE_ROOT"@,
                shell,
            ),
        )
    }
}

/// A "Run" task for each executable target with an artifact, in order.
pub open spec fn run_target_tasks_spec(
    targets: Seq<CmakeTargetView>,
    p: ProfiledBuildView,
    shell: ShellKind,
) -> Seq<ZedTaskView>
    decreases targets.len(),
{
    if targets.len() == 0 {
        seq![]
    } else {
        let t = targets.last();
        let rest = run_target_tasks_spec(targets.drop_last(), p, shell);
        if t.executable && t.output is Some {
            rest.push(
                task_spec(
                    target_label_spec("C++: Run"@, p.build_type, t.name),
                    run_command_spec(p.build_dir, t.output->0, shell),
                    "$ZED_WORKTREE_ROOT"@,
                    shell,
                ),
            )
        } else {
            rest
        }
    }
}

/// A target that gets Run tasks: an executable with an artifact.
pub open spec fn is_runnable(t: CmakeTargetView) -> bool {
    t.executable && t.output is Some
}

/// The targets that get Run tasks.
pub open spec fn runnable_targets(targets: Seq<CmakeTargetView>) -> Seq<CmakeTargetView> {
    targets.filter(|t: CmakeTargetView| is_runnable(t))
}

/// Every target gets one Build Target task, and only executables with an
/// artifact get Run tasks: library targets add none.
pub proof fn law_run_tasks_only_for_executables(targets: Seq<CmakeTargetView>, p: ProfiledBuildView, shell: ShellKind)
    ensures
        build_target_tasks_spec(targets, p, shell).len() == targets.len(),
        run_target_tasks_spec(targets, p, shell) == run_target_tasks_spec(runnable_targets(targets), p, shell),
        run_target_tasks_spec(targets, p, shell).len() == runnable_targets(targets).len(),
    decreases targets.len(),
{
    reveal(Seq::filter);
    if targets.len() > 0 {
        let d = targets.drop_last();
        law_run_tasks_only_for_executables(d, p, shell);
        let f = runnable_targets(targets);
        let fd = runnable_targets(d);
        law_run_tasks_only_for_executables(fd, p, shell);
        if is_runnable(targets.last()) {
            assert(f == fd.push(targets.last()));
            assert(f.drop_last() =~= fd);
            assert(f.last() == targets.last());
        } else {
            assert(f == fd);
        }
    }
}

/// The tasks of one profile: Configure, Build and Clean when configured;
/// Build Target for every target of a CMake build; Run when a run command
/// is configured, else Run for every executable target.
pub open spec fn profile_tasks_spec(
    config: EffectiveConfigView,
    shell: ShellKind,
    targets: Seq<CmakeTargetView>,
    build_type: Seq<char>,
    suffix: Seq<char>,
) -> Seq<ZedTaskView> {
    let p = profiled_build_spec(config, build_type, suffix);
    let root = "$ZED_WORKTREE_ROOT"@;
    opt_task_spec(p.configure, label_spec("C++: Configure"@, build_type), root, shell)
        + opt_task_spec(p.build, label_spec("C++: Build"@, build_type), root, shell)
        + opt_task_spec(p.clean, label_spec("C++: Clean"@, build_type), root, shell)
        + (if config.build.system == "cmake"@ {
        build_target_tasks_spec(targets, p, shell)
    } else {
        seq![]
    }) + opt_task_spec(p.run, label_spec("C++: Run"@, build_type), config.run.cwd, shell) + (
    if p.run is None {
        run_target_tasks_spec(targets, p, shell)
    } else {
        seq![]
    })
}

/// All generated tasks: the Debug profile's, then the Release profile's.
pub open spec fn cpp_tasks_spec(
    config: EffectiveConfigView,
    shell: ShellKind,
    targets: Seq<CmakeTargetView>,
) -> Seq<ZedTaskView> {
    profile_tasks_spec(config, shell, targets, "Debug"@, "debug"@) + profile_tasks_spec(
        config,
        shell,
        targets,
        "Release"@,
        "release"@,
    )
}

// ---------------------------------------------------------------------------
// Implementation
// ---------------------------------------------------------------------------

fn push_task(tasks: &mut Vec<ZedTask>, t: ZedTask)
    ensures
        zed_tasks_view(final(tasks)@) == zed_tasks_view(old(tasks)@).push(t@),
{
    let ghost before = tasks@;
    tasks.push(t);
    assert(zed_tasks_view(tasks@) =~= zed_tasks_view(before).push(t@));
}

/// A task running `command_string` in `shell` from `cwd`.
pub fn task(label: String, command_string: &str, cwd: &str, shell: ShellKind) -> (r: ZedTask)
    ensures
        r@ == task_spec(label@, command_string@, cwd@, shell),
{
    let (command, args) = wrap_command(shell, command_string);
    let env: Vec<(String, String)> = Vec::new();
    let r = ZedTask { label, command, args, env, cwd: owned(cwd) };
    assert(r@.env =~= seq![]);
    r
}

/// `"<base> (<build type>)"`.
pub fn profile_label(base: &str, build_type: &str) -> (r: String)
    ensures
        r@ == label_spec(base@, build_type@),
{
    let mut r = owned(base);
    append_str(&mut r, " (");
    append_str(&mut r, build_type);
    append_str(&mut r, ")");
    r
}

/// `"<base> (<build type>): <target>"`.
pub fn profile_target_label(base: &str, build_type: &str, target: &str) -> (r: String)
    ensures
        r@ == target_label_spec(base@, build_type@, target@),
{
    let mut r = owned(base);
    append_str(&mut r, " (");
    append_str(&mut r, build_type);
    append_str(&mut r, "): ");
    append_str(&mut r, target);
    r
}

/// A command template expanded for a profile.
pub fn profile_command(command: Option<&String>, build_dir: &str, build_type: &str) -> (r: Option<String>)
    ensures
        opt_view(r) == expand_opt_spec(
            match command {
                Some(c) => Some(c@),
                None => None,
            },
            build_dir@,
            build_type@,
        ),
{
    let owned_command = match command {
        Some(c) => Some(copy_string(c)),
        None => None,
    };
    expand_optional(owned_command, build_dir, build_type)
}

fn lit(s: &str) -> (r: Vec<char>)
    ensures
        r@ == s@,
{
    chars_of(s)
}

fn prefixed(p: &str, name: &str) -> (r: Vec<char>)
    ensures
        r@ == p@ + name@,
{
    let mut r = chars_of(p);
    append_str_chars(&mut r, name);
    r
}

fn ends_with_segment_exec(s: &[char], name: &str) -> (r: bool)
    ensures
        r == ends_with_segment(s@, name@),
{
    has_suffix(s, &prefixed("-", name)) || has_suffix(s, &prefixed("/", name)) || has_suffix(
        s,
        &prefixed("\\", name),
    )
}

fn strip_then(path: &[char], pat_len: usize, sep: &str, suffix: &str) -> (r: Vec<char>)
    requires
        pat_len <= path.len(),
    ensures
        r@ == path@.take(path.len() - pat_len) + sep@ + suffix@,
{
    let mut r = sub_chars(path, 0, path.len() - pat_len);
    append_str_chars(&mut r, sep);
    append_str_chars(&mut r, suffix);
    r
}

/// Switches a trailing `debug`/`release` segment of a path to `suffix`.
pub fn replace_last_path_segment(path: &[char], suffix: &str) -> (r: Vec<char>)
    ensures
        r@ == replace_last_segment_spec(path@, suffix@),
{
    let p1 = lit("-debug");
    if has_suffix(path, &p1) {
        return strip_then(path, p1.len(), "-", suffix);
    }
    let p2 = lit("-release");
    if has_suffix(path, &p2) {
        return strip_then(path, p2.len(), "-", suffix);
    }
    let p3 = lit("/debug");
    if has_suffix(path, &p3) {
        return strip_then(path, p3.len(), "/", suffix);
    }
    let p4 = lit("/release");
    if has_suffix(path, &p4) {
        return strip_then(path, p4.len(), "/", suffix);
    }
    let p5 = lit("\\debug");
    if has_suffix(path, &p5) {
        return strip_then(path, p5.len(), "\\", suffix);
    }
    let p6 = lit("\\release");
    if has_suffix(path, &p6) {
        return strip_then(path, p6.len(), "\\", suffix);
    }
    let mut r: Vec<char> = Vec::new();
    append_chars(&mut r, path);
    assert(r@ =~= path@);
    r
}

/// The build directory of a profile (see `profile_build_dir_spec`).
pub fn profile_build_dir(config: &EffectiveConfig, profile: TaskProfile) -> (r: String)
    ensures
        r@ == profile_build_dir_spec(config@, profile.suffix@),
{
    let base: &String = match &config.build.build_dir_template {
        Some(t) => t,
        None => &config.build.build_dir,
    };
    let base_chars = chars_of(base.as_str());
    let trimmed = trim_end_seps(&base_chars);
    let trimmed_string = string_of(&trimmed);
    let lower_string = lowercase(trimmed_string.as_str());
    let lower = chars_of(lower_string.as_str());
    let suffix = profile.suffix;
    if ends_with_segment_exec(&lower, suffix) {
        trimmed_string
    } else if str_eq(suffix, "debug") && ends_with_segment_exec(&lower, "release") {
        string_of(&replace_last_path_segment(&trimmed, "debug"))
    } else if str_eq(suffix, "release") && ends_with_segment_exec(&lower, "debug") {
        string_of(&replace_last_path_segment(&trimmed, "release"))
    } else {
        let mut r = trimmed_string;
        append_str(&mut r, "/");
        append_str(&mut r, suffix);
        r
    }
}

fn template_or<'a>(template: &'a Option<String>, expanded: &'a Option<String>) -> (r: Option<&'a String>)
    ensures
        match r {
            Some(c) => Some(c@),
            None => None::<Seq<char>>,
        } == or_else(opt_view(*template), opt_view(*expanded)),
{
    match template {
        Some(t) => Some(t),
        None => match expanded {
            Some(e) => Some(e),
            None => None,
        },
    }
}

/// The commands of a profile.
pub fn profiled_build(config: &EffectiveConfig, profile: TaskProfile) -> (r: ProfiledBuild)
    ensures
        r@ == profiled_build_spec(config@, profile.build_type@, profile.suffix@),
{
    let build_dir = profile_build_dir(config, profile);
    let build_type = profile.build_type;
    let configure = profile_command(
        template_or(&config.build.configure_template, &config.build.configure),
        build_dir.as_str(),
        build_type,
    );
    let build = profile_command(
        template_or(&config.build.build_template, &config.build.build),
        build_dir.as_str(),
        build_type,
    );
    let clean = profile_command(
        template_or(&config.build.clean_template, &config.build.clean),
        build_dir.as_str(),
        build_type,
    );
    let run = profile_command(
        template_or(&config.run.command_template, &config.run.command),
        build_dir.as_str(),
        build_type,
    );
    ProfiledBuild { build_dir, build_type, configure, build, clean, run }
}

/// Whether a target name needs quoting in a shell.
pub fn target_needs_shell_quotes(target: &str) -> (r: bool)
    ensures
        r == exists|i: int| 0 <= i < target@.len() && needs_quote_char(target@[i]),
{
    let v = chars_of(target);
    let mut i: usize = 0;
    while i < v.len()
        invariant
            v@ == target@,
            i <= v.len(),
            forall|j: int| 0 <= j < i ==> !needs_quote_char(v@[j]),
        decreases v.len() - i,
    {
        let c = v[i];
        if char_is_ws(c) || c == '"' || c == '\'' || c == '&' || c == '|' || c == '<' || c == '>'
            || c == '(' || c == ')' {
            assert(needs_quote_char(v@[i as int]));
            return true;
        }
        i = i + 1;
    }
    false
}

/// The target name as a shell argument.
pub fn target_argument(target: &str) -> (r: String)
    ensures
        r@ == target_argument_spec(target@),
{
    if target_needs_shell_quotes(target) {
        let tv = chars_of(target);
        let quote = lit("\"");
        let doubled = lit("\"\"");
        proof {
            reveal_strlit("\"");
        }
        let inner = replace_exec(&tv, &quote, &doubled);
        let mut r = owned("\"");
        let inner_s = string_of(&inner);
        append_str(&mut r, inner_s.as_str());
        append_str(&mut r, "\"");
        r
    } else {
        owned(target)
    }
}

/// The command that builds one target (see `build_command_spec`).
pub fn build_command_for_target(profiled: &ProfiledBuild, target: &str) -> (r: String)
    ensures
        r@ == build_command_spec(profiled@, target@),
{
    let base: String = match &profiled.build {
        Some(b) => copy_string(b),
        None => {
            let mut b = owned("cmake --build ");
            append_str(&mut b, profiled.build_dir.as_str());
            b
        },
    };
    let bv = chars_of(base.as_str());
    let pat = lit("cmake --build ");
    let config_pat = lit(" --config ");
    let has_config = match find_last(&bv, &pat) {
        Some(i) => {
            assert(occurs_at(bv@, pat@, i as int));
            assert(i + pat@.len() <= bv@.len());
            assert(i + pat.len() <= bv.len());
            let rest = sub_chars(&bv, i + pat.len(), bv.len());
            assert(rest@ =~= bv@.skip(i + pat@.len()));
            has_substring(&rest, &config_pat)
        },
        None => has_substring(&bv, &config_pat),
    };
    assert(has_config == build_command_has_config(base@));
    let mut r = base;
    if !has_config {
        append_str(&mut r, " --config ");
        append_str(&mut r, profiled.build_type);
    } else {
        assert(r@ + Seq::<char>::empty() =~= r@);
    }
    append_str(&mut r, " --target ");
    let arg = target_argument(target);
    append_str(&mut r, arg.as_str());
    r
}

/// The command that runs a target's artifact from the build directory:
/// `Start-Process` with a backslash path for PowerShell, the quoted path
/// with forward slashes for `sh`.
pub fn run_command_for_target(build_dir: &str, output: &str, shell: ShellKind) -> (r: String)
    ensures
        r@ == run_command_spec(build_dir@, output@, shell),
{
    let ov = chars_of(output);
    let o = replace_char_exec(&ov, '/', '\\');
    match shell {
        ShellKind::Powershell => {
            let mut r = owned("Start-Process -FilePath \"$ZED_WORKTREE_ROOT\\");
            append_str(&mut r, build_dir);
            append_str(&mut r, "\\");
            let os = string_of(&o);
            append_str(&mut r, os.as_str());
            append_str(&mut r, "\"");
            r
        },
        ShellKind::Sh => {
            let mut r = owned("\"$ZED_WORKTREE_ROOT/");
            append_str(&mut r, build_dir);
            append_str(&mut r, "/");
            let back = replace_char_exec(&o, '\\', '/');
            let bs = string_of(&back);
            append_str(&mut r, bs.as_str());
            append_str(&mut r, "\"");
            r
        },
    }
}

fn push_opt_task(
    tasks: &mut Vec<ZedTask>,
    command: &Option<String>,
    label: String,
    cwd: &str,
    shell: ShellKind,
)
    ensures
        zed_tasks_view(final(tasks)@) == zed_tasks_view(old(tasks)@) + opt_task_spec(
            opt_view(*command),
            label@,
            cwd@,
            shell,
        ),
{
    match command {
        Some(c) => {
            let t = task(label, c.as_str(), cwd, shell);
            push_task(tasks, t);
            assert(zed_tasks_view(old(tasks)@).push(t@) =~= zed_tasks_view(old(tasks)@) + seq![t@]);
        },
        None => {
            assert(zed_tasks_view(tasks@) =~= zed_tasks_view(tasks@) + Seq::<ZedTaskView>::empty());
        },
    }
}

fn push_build_target_tasks(
    tasks: &mut Vec<ZedTask>,
    targets: &[CmakeTarget],
    profiled: &ProfiledBuild,
    shell: ShellKind,
)
    ensures
        zed_tasks_view(final(tasks)@) == zed_tasks_view(old(tasks)@) + build_target_tasks_spec(
            targets_view(targets@),
            profiled@,
            shell,
        ),
{
    let mut i: usize = 0;
    assert(targets_view(targets@.take(0)) =~= seq![]);
    assert(zed_tasks_view(tasks@) =~= zed_tasks_view(old(tasks)@) + Seq::<ZedTaskView>::empty());
    while i < targets.len()
        invariant
            i <= targets.len(),
            zed_tasks_view(tasks@) == zed_tasks_view(old(tasks)@) + build_target_tasks_spec(
                targets_view(targets@.take(i as int)),
                profiled@,
                shell,
            ),
        decreases targets.len() - i,
    {
        let name = targets[i].name.as_str();
        let label = profile_target_label("C++: Build Target", profiled.build_type, name);
        let command = build_command_for_target(profiled, name);
        let t = task(label, command.as_str(), "$ZED_WORKTREE_ROOT", shell);
        let ghost before = zed_tasks_view(tasks@);
        push_task(tasks, t);
        proof {
            let tv = targets_view(targets@.take(i + 1));
            assert(tv.drop_last() =~= targets_view(targets@.take(i as int)));
            assert(tv.last() == targets@[i as int]@);
            assert(zed_tasks_view(tasks@) =~= zed_tasks_view(old(tasks)@) + build_target_tasks_spec(
                tv,
                profiled@,
                shell,
            ));
        }
        i = i + 1;
    }
    assert(targets@.take(targets.len() as int) =~= targets@);
}

fn push_run_target_tasks(
    tasks: &mut Vec<ZedTask>,
    targets: &[CmakeTarget],
    profiled: &ProfiledBuild,
    shell: ShellKind,
)
    ensures
        zed_tasks_view(final(tasks)@) == zed_tasks_view(old(tasks)@) + run_target_tasks_spec(
            targets_view(targets@),
            profiled@,
            shell,
        ),
{
    let mut i: usize = 0;
    assert(targets_view(targets@.take(0)) =~= seq![]);
    assert(zed_tasks_view(tasks@) =~= zed_tasks_view(old(tasks)@) + Seq::<ZedTaskView>::empty());
    while i < targets.len()
        invariant
            i <= targets.len(),
            zed_tasks_view(tasks@) == zed_tasks_view(old(tasks)@) + run_target_tasks_spec(
                targets_view(targets@.take(i as int)),
                profiled@,
                shell,
            ),
        decreases targets.len() - i,
    {
        let target = &targets[i];
        proof {
            let tv = targets_view(targets@.take(i + 1));
            assert(tv.drop_last() =~= targets_view(targets@.take(i as int)));
            assert(tv.last() == targets@[i as int]@);
        }
        if target.executable {
            match &target.output {
                Some(output) => {
                    let label = profile_target_label("C++: Run", profiled.build_type, target.name.as_str());
                    let command = run_command_for_target(profiled.build_dir.as_str(), output.as_str(), shell);
                    let t = task(label, command.as_str(), "$ZED_WORKTREE_ROOT", shell);
                    push_task(tasks, t);
                    assert(zed_tasks_view(tasks@) =~= zed_tasks_view(old(tasks)@) + run_target_tasks_spec(
                        targets_view(targets@.take(i + 1)),
                        profiled@,
                        shell,
                    ));
                },
                None => {},
            }
        }
        i = i + 1;
    }
    assert(targets@.take(targets.len() as int) =~= targets@);
}

#[verifier::spinoff_prover]
#[verifier::rlimit(40)]
fn push_profile_tasks(
    tasks: &mut Vec<ZedTask>,
    config: &EffectiveConfig,
    shell: ShellKind,
    targets: &[CmakeTarget],
    profile: TaskProfile,
)
    ensures
        zed_tasks_view(final(tasks)@) == zed_tasks_view(old(tasks)@) + profile_tasks_spec(
            config@,
            shell,
            targets_view(targets@),
            profile.build_type@,
            profile.suffix@,
        ),
{
    let profiled = profiled_build(config, profile);
    let bt = profile.build_type;
    let ghost t0 = zed_tasks_view(tasks@);
    push_opt_task(tasks, &profiled.configure, profile_label("C++: Configure", bt), "$ZED_WORKTREE_ROOT", shell);
    push_opt_task(tasks, &profiled.build, profile_label("C++: Build", bt), "$ZED_WORKTREE_ROOT", shell);
    push_opt_task(tasks, &profiled.clean, profile_label("C++: Clean", bt), "$ZED_WORKTREE_ROOT", shell);
    let ghost t1 = zed_tasks_view(tasks@);
    let is_cmake = str_eq(config.build.system.as_str(), "cmake");
    if is_cmake {
        push_build_target_tasks(tasks, targets, &profiled, shell);
    } else {
        assert(zed_tasks_view(tasks@) =~= zed_tasks_view(tasks@) + Seq::<ZedTaskView>::empty());
    }
    let ghost t2 = zed_tasks_view(tasks@);
    push_opt_task(tasks, &profiled.run, profile_label("C++: Run", bt), config.run.cwd.as_str(), shell);
    let ghost t3 = zed_tasks_view(tasks@);
    if profiled.run.is_none() {
        push_run_target_tasks(tasks, targets, &profiled, shell);
    } else {
        assert(zed_tasks_view(tasks@) =~= zed_tasks_view(tasks@) + Seq::<ZedTaskView>::empty());
    }
    proof {
        let spec = profile_tasks_spec(config@, shell, targets_view(targets@), bt@, profile.suffix@);
        assert(zed_tasks_view(tasks@) =~= t0 + spec);
    }
}

/// The generated tasks (see `cpp_tasks_spec`).
pub fn cpp_tasks(config: &EffectiveConfig, shell: ShellKind, cmake_targets: &[CmakeTarget]) -> (r: Vec<
    ZedTask,
>)
    ensures
        zed_tasks_view(r@) == cpp_tasks_spec(config@, shell, targets_view(cmake_targets@)),
        r@.len() == 2 * crate::build::laws::profile_task_count(config@, targets_view(cmake_targets@)),
        crate::build::laws::all_shell_tasks(zed_tasks_view(r@), shell, config@.run.cwd),
        crate::build::laws::all_labelled_for(
            zed_tasks_view(r@).take(crate::build::laws::profile_task_count(config@, targets_view(cmake_targets@)) as int),
            "Debug"@,
        ),
        crate::build::laws::all_labelled_for(
            zed_tasks_view(r@).skip(crate::build::laws::profile_task_count(config@, targets_view(cmake_targets@)) as int),
            "Release"@,
        ),
        crate::build::laws::all_exact_cwd(
            zed_tasks_view(r@).take(crate::build::laws::profile_task_count(config@, targets_view(cmake_targets@)) as int),
            "Debug"@,
            config@.run.cwd,
        ),
        crate::build::laws::all_exact_cwd(
            zed_tasks_view(r@).skip(crate::build::laws::profile_task_count(config@, targets_view(cmake_targets@)) as int),
            "Release"@,
            config@.run.cwd,
        ),
{
    let mut tasks: Vec<ZedTask> = Vec::new();
    assert(zed_tasks_view(tasks@) =~= seq![]);
    let profiles = task_profiles();
    push_profile_tasks(&mut tasks, config, shell, cmake_targets, profiles[0]);
    push_profile_tasks(&mut tasks, config, shell, cmake_targets, profiles[1]);
    proof {
        let d = profile_tasks_spec(config@, shell, targets_view(cmake_targets@), "Debug"@, "debug"@);
        assert(Seq::<ZedTaskView>::empty() + d =~= d);
        crate::build::laws::law_generated_tasks(config@, shell, targets_view(cmake_targets@));
    }
    tasks
}

/// The model of the task file text for a configuration: the pretty JSON of
/// `cpp_tasks_spec`.
pub open spec fn tasks_json_spec(
    config: EffectiveConfigView,
    shell: ShellKind,
    targets: Seq<CmakeTargetView>,
) -> Seq<char> {
    pretty_tasks_json(cpp_tasks_spec(config, shell, targets))
}

/// The `.zed/tasks.json` text for a configuration: the tasks of
/// `cpp_tasks` as pretty-printed JSON. Rendering always succeeds.
pub fn generate_cpp_tasks_json(
    config: &EffectiveConfig,
    shell: ShellKind,
    cmake_targets: &[CmakeTarget],
) -> (r: ToolkitResult<String>)
    ensures
        r matches Ok(text) && text@ == tasks_json_spec(config@, shell, targets_view(cmake_targets@)),
{
    let tasks = cpp_tasks(config, shell, cmake_targets);
    match render_zed_tasks(&tasks) {
        Ok(text) => Ok(text),
        Err(error) => Err(ToolkitError::IoMessage(json_error_message(&error))),
    }
}

} // verus!
