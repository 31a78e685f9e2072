//! What every generated task list satisfies.
use crate::build::shell::{wrap_command_spec, ShellKind};
use crate::build::tasks::{
    build_target_tasks_spec, cpp_tasks_spec, label_spec, law_run_tasks_only_for_executables, opt_task_spec,
    profile_tasks_spec, profiled_build_spec, run_target_tasks_spec, runnable_targets, target_label_spec, task_spec,
    ProfiledBuildView, ZedTaskView, ends_with_segment, profile_base_dir, profile_build_dir_spec,
    replace_last_segment_spec, run_command_spec,
};
use crate::cmake::tasks::CmakeTargetView;
use crate::config::merge::{is_ascii_text, lowercase_spec, or_else};
use crate::text::{ascii_lower_seq, ends_with, is_sep, replace_char, trim_end_by};
use crate::config::schema::EffectiveConfigView;
use vstd::prelude::*;

verus! {

/// The directory a task runs in unless it is the configured run command.
pub open spec fn worktree_root() -> Seq<char> {
    "$ZED_WORKTREE_ROOT"@
}

/// A task as the generator makes them: it runs some command string through
/// the shell, with no environment of its own, from the worktree root or
/// from the configured run directory.
pub open spec fn is_shell_task(t: ZedTaskView, shell: ShellKind, run_cwd: Seq<char>) -> bool {
    &&& t.env.len() == 0
    &&& t.cwd == worktree_root() || t.cwd == run_cwd
    &&& exists|command: Seq<char>| #[trigger] wrap_command_spec(shell, command) == (t.command, t.args)
}

/// Every task of a list is a shell task.
pub open spec fn all_shell_tasks(ts: Seq<ZedTaskView>, shell: ShellKind, run_cwd: Seq<char>) -> bool {
    forall|i: int| 0 <= i < ts.len() ==> is_shell_task(#[trigger] ts[i], shell, run_cwd)
}

/// A task labelled for a build type: its label is some base, then
/// ` (<build type>)`, then possibly more.
pub open spec fn is_labelled_for(t: ZedTaskView, build_type: Seq<char>) -> bool {
    exists|base: Seq<char>, rest: Seq<char>| t.label == #[trigger] (base + " ("@ + build_type + ")"@ + rest)
}

/// Every task of a list is labelled for the build type.
pub open spec fn all_labelled_for(ts: Seq<ZedTaskView>, build_type: Seq<char>) -> bool {
    forall|i: int| 0 <= i < ts.len() ==> is_labelled_for(#[trigger] ts[i], build_type)
}

/// The label of a profile's configured Run task.
pub open spec fn run_label(build_type: Seq<char>) -> Seq<char> {
    label_spec("C++: Run"@, build_type)
}

/// A task runs from the configured run directory when it is the profile's
/// configured Run task, and from the worktree root otherwise.
pub open spec fn has_exact_cwd(t: ZedTaskView, build_type: Seq<char>, run_cwd: Seq<char>) -> bool {
    if t.label == run_label(build_type) {
        t.cwd == run_cwd
    } else {
        t.cwd == worktree_root()
    }
}

/// Every task of a list runs from the directory `has_exact_cwd` gives.
pub open spec fn all_exact_cwd(ts: Seq<ZedTaskView>, build_type: Seq<char>, run_cwd: Seq<char>) -> bool {
    forall|i: int| 0 <= i < ts.len() ==> has_exact_cwd(#[trigger] ts[i], build_type, run_cwd)
}

/// 1 for a command that is there, 0 otherwise.
pub open spec fn count_of(c: Option<Seq<char>>) -> nat {
    if c is Some {
        1
    } else {
        0
    }
}

/// How many tasks one profile gets: one per configured Configure, Build and
/// Clean command (its template or its command); one Build Target task per
/// target for a CMake build; the Run task when a run command is configured,
/// else one per executable target with an artifact.
pub open spec fn profile_task_count(config: EffectiveConfigView, targets: Seq<CmakeTargetView>) -> nat {
    count_of(or_else(config.build.configure_template, config.build.configure)) + count_of(
        or_else(config.build.build_template, config.build.build),
    ) + count_of(or_else(config.build.clean_template, config.build.clean)) + (if config.build.system == "cmake"@ {
        targets.len()
    } else {
        0
    }) + if or_else(config.run.command_template, config.run.command) is Some {
        1
    } else {
        runnable_targets(targets).len()
    }
}

proof fn lemma_opt_task(c: Option<Seq<char>>, label: Seq<char>, cwd: Seq<char>, shell: ShellKind, run_cwd: Seq<char>)
    requires
        cwd == worktree_root() || cwd == run_cwd,
    ensures
        all_shell_tasks(opt_task_spec(c, label, cwd, shell), shell, run_cwd),
        opt_task_spec(c, label, cwd, shell).len() == count_of(c),
{
    if let Some(command) = c {
        let t = task_spec(label, command, cwd, shell);
        assert(wrap_command_spec(shell, command) == (t.command, t.args));
        assert(is_shell_task(t, shell, run_cwd));
    }
}

proof fn lemma_opt_task_labelled(c: Option<Seq<char>>, base: Seq<char>, build_type: Seq<char>, cwd: Seq<char>, shell: ShellKind)
    ensures
        all_labelled_for(opt_task_spec(c, label_spec(base, build_type), cwd, shell), build_type),
{
    if let Some(command) = c {
        let t = task_spec(label_spec(base, build_type), command, cwd, shell);
        assert(t.label =~= base + " ("@ + build_type + ")"@ + Seq::<char>::empty());
    }
}

proof fn lemma_concat(a: Seq<ZedTaskView>, b: Seq<ZedTaskView>, shell: ShellKind, run_cwd: Seq<char>, build_type: Seq<char>)
    ensures
        all_shell_tasks(a, shell, run_cwd) && all_shell_tasks(b, shell, run_cwd) ==> all_shell_tasks(
            a + b,
            shell,
            run_cwd,
        ),
        all_labelled_for(a, build_type) && all_labelled_for(b, build_type) ==> all_labelled_for(a + b, build_type),
{
    if all_shell_tasks(a, shell, run_cwd) && all_shell_tasks(b, shell, run_cwd) {
        assert forall|i: int| 0 <= i < (a + b).len() implies is_shell_task(#[trigger] (a + b)[i], shell, run_cwd) by {
            if i < a.len() {
                assert((a + b)[i] == a[i]);
            } else {
                assert((a + b)[i] == b[i - a.len()]);
            }
        }
    }
    if all_labelled_for(a, build_type) && all_labelled_for(b, build_type) {
        assert forall|i: int| 0 <= i < (a + b).len() implies is_labelled_for(#[trigger] (a + b)[i], build_type) by {
            if i < a.len() {
                assert((a + b)[i] == a[i]);
            } else {
                assert((a + b)[i] == b[i - a.len()]);
            }
        }
    }
}

proof fn lemma_target_label(base: Seq<char>, build_type: Seq<char>, name: Seq<char>)
    ensures
        target_label_spec(base, build_type, name) == base + " ("@ + build_type + ")"@ + (": "@ + name),
{
    reveal_strlit("): ");
    reveal_strlit(")");
    reveal_strlit(": ");
    assert(target_label_spec(base, build_type, name) =~= base + " ("@ + build_type + ")"@ + (": "@ + name));
}

proof fn lemma_target_tasks(targets: Seq<CmakeTargetView>, p: ProfiledBuildView, shell: ShellKind, run_cwd: Seq<char>)
    ensures
        all_shell_tasks(build_target_tasks_spec(targets, p, shell), shell, run_cwd),
        all_shell_tasks(run_target_tasks_spec(targets, p, shell), shell, run_cwd),
        all_labelled_for(build_target_tasks_spec(targets, p, shell), p.build_type),
        all_labelled_for(run_target_tasks_spec(targets, p, shell), p.build_type),
    decreases targets.len(),
{
    if targets.len() > 0 {
        let d = targets.drop_last();
        let t = targets.last();
        lemma_target_tasks(d, p, shell, run_cwd);
        let b = task_spec(
            target_label_spec("C++: Build Target"@, p.build_type, t.name),
            crate::build::tasks::build_command_spec(p, t.name),
            worktree_root(),
            shell,
        );
        assert(wrap_command_spec(shell, crate::build::tasks::build_command_spec(p, t.name)) == (b.command, b.args));
        lemma_target_label("C++: Build Target"@, p.build_type, t.name);
        let single = seq![b];
        assert(is_shell_task(single[0], shell, run_cwd));
        assert(is_labelled_for(single[0], p.build_type));
        assert(build_target_tasks_spec(targets, p, shell) == build_target_tasks_spec(d, p, shell) + single);
        lemma_concat(build_target_tasks_spec(d, p, shell), single, shell, run_cwd, p.build_type);
        if t.executable && t.output is Some {
            let command = crate::build::tasks::run_command_spec(p.build_dir, t.output->0, shell);
            let r = task_spec(target_label_spec("C++: Run"@, p.build_type, t.name), command, worktree_root(), shell);
            assert(wrap_command_spec(shell, command) == (r.command, r.args));
            lemma_target_label("C++: Run"@, p.build_type, t.name);
            let one = seq![r];
            assert(is_shell_task(one[0], shell, run_cwd));
            assert(is_labelled_for(one[0], p.build_type));
            assert(run_target_tasks_spec(targets, p, shell) == run_target_tasks_spec(d, p, shell) + one);
            lemma_concat(run_target_tasks_spec(d, p, shell), one, shell, run_cwd, p.build_type);
        }
    }
}

proof fn lemma_profile(
    config: EffectiveConfigView,
    shell: ShellKind,
    targets: Seq<CmakeTargetView>,
    build_type: Seq<char>,
    suffix: Seq<char>,
)
    ensures
        all_shell_tasks(profile_tasks_spec(config, shell, targets, build_type, suffix), shell, config.run.cwd),
        all_labelled_for(profile_tasks_spec(config, shell, targets, build_type, suffix), build_type),
        profile_tasks_spec(config, shell, targets, build_type, suffix).len() == profile_task_count(config, targets),
{
    let p = profiled_build_spec(config, build_type, suffix);
    let root = worktree_root();
    let run_cwd = config.run.cwd;
    let c = opt_task_spec(p.configure, label_spec("C++: Configure"@, build_type), root, shell);
    let b = opt_task_spec(p.build, label_spec("C++: Build"@, build_type), root, shell);
    let k = opt_task_spec(p.clean, label_spec("C++: Clean"@, build_type), root, shell);
    let t = if config.build.system == "cmake"@ {
        build_target_tasks_spec(targets, p, shell)
    } else {
        seq![]
    };
    let r = opt_task_spec(p.run, label_spec("C++: Run"@, build_type), run_cwd, shell);
    let rt = if p.run is None {
        run_target_tasks_spec(targets, p, shell)
    } else {
        seq![]
    };
    lemma_opt_task(p.configure, label_spec("C++: Configure"@, build_type), root, shell, run_cwd);
    lemma_opt_task(p.build, label_spec("C++: Build"@, build_type), root, shell, run_cwd);
    lemma_opt_task(p.clean, label_spec("C++: Clean"@, build_type), root, shell, run_cwd);
    lemma_opt_task(p.run, label_spec("C++: Run"@, build_type), run_cwd, shell, run_cwd);
    lemma_opt_task_labelled(p.configure, "C++: Configure"@, build_type, root, shell);
    lemma_opt_task_labelled(p.build, "C++: Build"@, build_type, root, shell);
    lemma_opt_task_labelled(p.clean, "C++: Clean"@, build_type, root, shell);
    lemma_opt_task_labelled(p.run, "C++: Run"@, build_type, run_cwd, shell);
    lemma_target_tasks(targets, p, shell, run_cwd);
    law_run_tasks_only_for_executables(targets, p, shell);
    assert(p.build_type == build_type);
    lemma_concat(c, b, shell, run_cwd, build_type);
    lemma_concat(c + b, k, shell, run_cwd, build_type);
    lemma_concat(c + b + k, t, shell, run_cwd, build_type);
    lemma_concat(c + b + k + t, r, shell, run_cwd, build_type);
    lemma_concat(c + b + k + t + r, rt, shell, run_cwd, build_type);
    assert(profile_tasks_spec(config, shell, targets, build_type, suffix) == c + b + k + t + r + rt);
}

proof fn lemma_concat_cwd(a: Seq<ZedTaskView>, b: Seq<ZedTaskView>, build_type: Seq<char>, run_cwd: Seq<char>)
    requires
        all_exact_cwd(a, build_type, run_cwd),
        all_exact_cwd(b, build_type, run_cwd),
    ensures
        all_exact_cwd(a + b, build_type, run_cwd),
{
    assert forall|i: int| 0 <= i < (a + b).len() implies has_exact_cwd(#[trigger] (a + b)[i], build_type, run_cwd) by {
        if i < a.len() {
            assert((a + b)[i] == a[i]);
        } else {
            assert((a + b)[i] == b[i - a.len()]);
        }
    }
}

proof fn lemma_label_is_run_label(base: Seq<char>, build_type: Seq<char>)
    ensures
        label_spec(base, build_type) == run_label(build_type) <==> base == "C++: Run"@,
{
    reveal_strlit("C++: Run");
    reveal_strlit(" (");
    reveal_strlit(")");
    let l = label_spec(base, build_type);
    let r = run_label(build_type);
    if l == r {
        assert(l.len() == r.len());
        assert(l.len() == base.len() + " ("@.len() + build_type.len() + ")"@.len());
        assert(r.len() == "C++: Run"@.len() + " ("@.len() + build_type.len() + ")"@.len());
        assert(base.len() == "C++: Run"@.len());
        assert(l.take(base.len() as int) =~= base);
        assert(r.take(base.len() as int) =~= "C++: Run"@);
    }
}

proof fn lemma_target_label_is_not_run_label(base: Seq<char>, build_type: Seq<char>, name: Seq<char>)
    requires
        base.len() >= "C++: Run"@.len(),
    ensures
        target_label_spec(base, build_type, name) != run_label(build_type),
{
    reveal_strlit("C++: Run");
    reveal_strlit(" (");
    reveal_strlit(")");
    reveal_strlit("): ");
    assert(target_label_spec(base, build_type, name).len() != run_label(build_type).len());
}

proof fn lemma_opt_task_cwd(
    c: Option<Seq<char>>,
    base: Seq<char>,
    build_type: Seq<char>,
    cwd: Seq<char>,
    shell: ShellKind,
    run_cwd: Seq<char>,
)
    requires
        base == "C++: Run"@ ==> cwd == run_cwd,
        base != "C++: Run"@ ==> cwd == worktree_root(),
    ensures
        all_exact_cwd(opt_task_spec(c, label_spec(base, build_type), cwd, shell), build_type, run_cwd),
{
    lemma_label_is_run_label(base, build_type);
    if let Some(command) = c {
        let t = task_spec(label_spec(base, build_type), command, cwd, shell);
        assert(has_exact_cwd(t, build_type, run_cwd));
        assert(opt_task_spec(c, label_spec(base, build_type), cwd, shell)[0] == t);
    }
}

proof fn lemma_target_tasks_cwd(targets: Seq<CmakeTargetView>, p: ProfiledBuildView, shell: ShellKind, run_cwd: Seq<char>)
    ensures
        all_exact_cwd(build_target_tasks_spec(targets, p, shell), p.build_type, run_cwd),
        all_exact_cwd(run_target_tasks_spec(targets, p, shell), p.build_type, run_cwd),
    decreases targets.len(),
{
    reveal_strlit("C++: Run");
    reveal_strlit("C++: Build Target");
    if targets.len() > 0 {
        let d = targets.drop_last();
        let t = targets.last();
        lemma_target_tasks_cwd(d, p, shell, run_cwd);
        let b = task_spec(
            target_label_spec("C++: Build Target"@, p.build_type, t.name),
            crate::build::tasks::build_command_spec(p, t.name),
            worktree_root(),
            shell,
        );
        lemma_target_label_is_not_run_label("C++: Build Target"@, p.build_type, t.name);
        let single = seq![b];
        assert(has_exact_cwd(single[0], p.build_type, run_cwd));
        assert(build_target_tasks_spec(targets, p, shell) == build_target_tasks_spec(d, p, shell) + single);
        lemma_concat_cwd(build_target_tasks_spec(d, p, shell), single, p.build_type, run_cwd);
        if t.executable && t.output is Some {
            let command = crate::build::tasks::run_command_spec(p.build_dir, t.output->0, shell);
            let r = task_spec(target_label_spec("C++: Run"@, p.build_type, t.name), command, worktree_root(), shell);
            lemma_target_label_is_not_run_label("C++: Run"@, p.build_type, t.name);
            let one = seq![r];
            assert(has_exact_cwd(one[0], p.build_type, run_cwd));
            assert(run_target_tasks_spec(targets, p, shell) == run_target_tasks_spec(d, p, shell) + one);
            lemma_concat_cwd(run_target_tasks_spec(d, p, shell), one, p.build_type, run_cwd);
        }
    }
}

proof fn lemma_profile_cwd(
    config: EffectiveConfigView,
    shell: ShellKind,
    targets: Seq<CmakeTargetView>,
    build_type: Seq<char>,
    suffix: Seq<char>,
)
    ensures
        all_exact_cwd(profile_tasks_spec(config, shell, targets, build_type, suffix), build_type, config.run.cwd),
{
    reveal_strlit("C++: Run");
    reveal_strlit("C++: Configure");
    reveal_strlit("C++: Build");
    reveal_strlit("C++: Clean");
    let p = profiled_build_spec(config, build_type, suffix);
    let root = worktree_root();
    let run_cwd = config.run.cwd;
    let c = opt_task_spec(p.configure, label_spec("C++: Configure"@, build_type), root, shell);
    let b = opt_task_spec(p.build, label_spec("C++: Build"@, build_type), root, shell);
    let k = opt_task_spec(p.clean, label_spec("C++: Clean"@, build_type), root, shell);
    let t = if config.build.system == "cmake"@ {
        build_target_tasks_spec(targets, p, shell)
    } else {
        seq![]
    };
    let r = opt_task_spec(p.run, label_spec("C++: Run"@, build_type), run_cwd, shell);
    let rt = if p.run is None {
        run_target_tasks_spec(targets, p, shell)
    } else {
        seq![]
    };
    assert("C++: Configure"@ != "C++: Run"@);
    assert("C++: Build"@ != "C++: Run"@);
    assert("C++: Clean"@ != "C++: Run"@);
    lemma_opt_task_cwd(p.configure, "C++: Configure"@, build_type, root, shell, run_cwd);
    lemma_opt_task_cwd(p.build, "C++: Build"@, build_type, root, shell, run_cwd);
    lemma_opt_task_cwd(p.clean, "C++: Clean"@, build_type, root, shell, run_cwd);
    lemma_opt_task_cwd(p.run, "C++: Run"@, build_type, run_cwd, shell, run_cwd);
    lemma_target_tasks_cwd(targets, p, shell, run_cwd);
    assert(p.build_type == build_type);
    assert(all_exact_cwd(t, build_type, run_cwd));
    assert(all_exact_cwd(rt, build_type, run_cwd));
    lemma_concat_cwd(c, b, build_type, run_cwd);
    lemma_concat_cwd(c + b, k, build_type, run_cwd);
    lemma_concat_cwd(c + b + k, t, build_type, run_cwd);
    lemma_concat_cwd(c + b + k + t, r, build_type, run_cwd);
    lemma_concat_cwd(c + b + k + t + r, rt, build_type, run_cwd);
    assert(profile_tasks_spec(config, shell, targets, build_type, suffix) == c + b + k + t + r + rt);
}

/// Every generated task runs some command string through the shell and has
/// no environment of its own; the configured Run task of each profile runs
/// from the configured run directory and every other task from the
/// worktree root; the Debug profile's tasks, all labelled `(Debug)`, come
/// before the Release profile's, all labelled `(Release)`; and each profile
/// has as many tasks as `profile_task_count` says.
pub proof fn law_generated_tasks(config: EffectiveConfigView, shell: ShellKind, targets: Seq<CmakeTargetView>)
    ensures
        all_shell_tasks(cpp_tasks_spec(config, shell, targets), shell, config.run.cwd),
        cpp_tasks_spec(config, shell, targets).len() == 2 * profile_task_count(config, targets),
        all_labelled_for(
            cpp_tasks_spec(config, shell, targets).take(profile_task_count(config, targets) as int),
            "Debug"@,
        ),
        all_labelled_for(
            cpp_tasks_spec(config, shell, targets).skip(profile_task_count(config, targets) as int),
            "Release"@,
        ),
        all_exact_cwd(
            cpp_tasks_spec(config, shell, targets).take(profile_task_count(config, targets) as int),
            "Debug"@,
            config.run.cwd,
        ),
        all_exact_cwd(
            cpp_tasks_spec(config, shell, targets).skip(profile_task_count(config, targets) as int),
            "Release"@,
            config.run.cwd,
        ),
{
    let d = profile_tasks_spec(config, shell, targets, "Debug"@, "debug"@);
    let r = profile_tasks_spec(config, shell, targets, "Release"@, "release"@);
    lemma_profile(config, shell, targets, "Debug"@, "debug"@);
    lemma_profile(config, shell, targets, "Release"@, "release"@);
    lemma_profile_cwd(config, shell, targets, "Debug"@, "debug"@);
    lemma_profile_cwd(config, shell, targets, "Release"@, "release"@);
    lemma_concat(d, r, shell, config.run.cwd, "Debug"@);
    assert((d + r).take(d.len() as int) =~= d);
    assert((d + r).skip(d.len() as int) =~= r);
}

/// The configured build directory without trailing separators.
pub open spec fn trimmed_base_dir(config: EffectiveConfigView) -> Seq<char> {
    trim_end_by(profile_base_dir(config), |c: char| is_sep(c))
}

proof fn lemma_ends_with_concat(a: Seq<char>, b: Seq<char>)
    ensures
        ends_with(a + b, b),
{
    assert((a + b).subrange(a.len() as int, (a + b).len() as int) =~= b);
}

proof fn lemma_ends_with_last(s: Seq<char>, p: Seq<char>)
    requires
        ends_with(s, p),
        p.len() > 0,
    ensures
        s.last() == p.last(),
{
    let k = s.len() - p.len();
    assert(s.subrange(k, s.len() as int)[p.len() - 1] == s[s.len() - 1]);
}

proof fn lemma_segment_last(s: Seq<char>, name: Seq<char>)
    requires
        ends_with_segment(s, name),
        name.len() > 0,
    ensures
        s.len() > 0,
        s.last() == name.last(),
{
    reveal_strlit("-");
    reveal_strlit("/");
    reveal_strlit("\\");
    if ends_with(s, "-"@ + name) {
        lemma_ends_with_last(s, "-"@ + name);
    } else if ends_with(s, "/"@ + name) {
        lemma_ends_with_last(s, "/"@ + name);
    } else {
        lemma_ends_with_last(s, "\\"@ + name);
    }
}

proof fn lemma_switched_segment(d: Seq<char>, from: Seq<char>, to: Seq<char>)
    requires
        ends_with_segment(d, from),
        from == "debug"@ || from == "release"@,
        to == "debug"@ || to == "release"@,
        from != to,
    ensures
        ends_with_segment(replace_last_segment_spec(d, to), to),
{
    reveal_strlit("debug");
    reveal_strlit("release");
    reveal_strlit("-debug");
    reveal_strlit("-release");
    reveal_strlit("/debug");
    reveal_strlit("/release");
    reveal_strlit("\\debug");
    reveal_strlit("\\release");
    reveal_strlit("-");
    reveal_strlit("/");
    reveal_strlit("\\");
    lemma_segment_last(d, from);
    let other = if from == "debug"@ { "release"@ } else { "debug"@ };
    if ends_with(d, "-"@ + other) {
        lemma_ends_with_last(d, "-"@ + other);
    }
    if ends_with(d, "/"@ + other) {
        lemma_ends_with_last(d, "/"@ + other);
    }
    if ends_with(d, "\\"@ + other) {
        lemma_ends_with_last(d, "\\"@ + other);
    }
    assert("-debug"@ =~= "-"@ + "debug"@);
    assert("-release"@ =~= "-"@ + "release"@);
    assert("/debug"@ =~= "/"@ + "debug"@);
    assert("/release"@ =~= "/"@ + "release"@);
    assert("\\debug"@ =~= "\\"@ + "debug"@);
    assert("\\release"@ =~= "\\"@ + "release"@);
    let r = replace_last_segment_spec(d, to);
    if ends_with(d, "-debug"@) || ends_with(d, "-release"@) {
        let a = d.take(d.len() - 8 + (if ends_with(d, "-debug"@) { 2int } else { 0int }));
        assert(r == a + "-"@ + to);
        assert(a + "-"@ + to =~= a + ("-"@ + to));
        lemma_ends_with_concat(a, "-"@ + to);
    } else if ends_with(d, "/debug"@) || ends_with(d, "/release"@) {
        let a = d.take(d.len() - 8 + (if ends_with(d, "/debug"@) { 2int } else { 0int }));
        assert(r == a + "/"@ + to);
        assert(a + "/"@ + to =~= a + ("/"@ + to));
        lemma_ends_with_concat(a, "/"@ + to);
    } else {
        let a = d.take(d.len() - 8 + (if ends_with(d, "\\debug"@) { 2int } else { 0int }));
        assert(r == a + "\\"@ + to);
        assert(a + "\\"@ + to =~= a + ("\\"@ + to));
        lemma_ends_with_concat(a, "\\"@ + to);
    }
}

proof fn lemma_profile_dir_segment(config: EffectiveConfigView, suffix: Seq<char>)
    requires
        suffix == "debug"@ || suffix == "release"@,
        is_ascii_text(trimmed_base_dir(config)),
        ends_with_segment(ascii_lower_seq(trimmed_base_dir(config)), "debug"@) ==> ends_with_segment(
            trimmed_base_dir(config),
            "debug"@,
        ),
        ends_with_segment(ascii_lower_seq(trimmed_base_dir(config)), "release"@) ==> ends_with_segment(
            trimmed_base_dir(config),
            "release"@,
        ),
    ensures
        ends_with_segment(profile_build_dir_spec(config, suffix), suffix),
{
    reveal_strlit("debug");
    reveal_strlit("release");
    reveal_strlit("/");
    let d = trimmed_base_dir(config);
    let lower = ascii_lower_seq(d);
    assert(lowercase_spec(d) == lower);
    if ends_with_segment(lower, suffix) {
    } else if suffix == "debug"@ && ends_with_segment(lower, "release"@) {
        lemma_switched_segment(d, "release"@, "debug"@);
    } else if suffix == "release"@ && ends_with_segment(lower, "debug"@) {
        lemma_switched_segment(d, "debug"@, "release"@);
    } else {
        assert(d + "/"@ + suffix =~= d + ("/"@ + suffix));
        lemma_ends_with_concat(d, "/"@ + suffix);
    }
}

/// The Debug and Release profiles never share a build directory: the
/// Release profile's directory ends with a `release` segment and the Debug
/// profile's with a `debug` segment (after `-`, `/` or `\\`), for every
/// configured directory whose text is ASCII and whose last segment, when
/// it names a profile, is written in lower case (`cmake-build-DEBUG` is
/// left alone by the segment switch, and both profiles would use it).
pub proof fn law_profiles_have_their_own_dirs(config: EffectiveConfigView)
    requires
        is_ascii_text(trimmed_base_dir(config)),
        ends_with_segment(ascii_lower_seq(trimmed_base_dir(config)), "debug"@) ==> ends_with_segment(
            trimmed_base_dir(config),
            "debug"@,
        ),
        ends_with_segment(ascii_lower_seq(trimmed_base_dir(config)), "release"@) ==> ends_with_segment(
            trimmed_base_dir(config),
            "release"@,
        ),
    ensures
        ends_with_segment(profile_build_dir_spec(config, "release"@), "release"@),
        ends_with_segment(profile_build_dir_spec(config, "debug"@), "debug"@),
        profile_build_dir_spec(config, "release"@) != profile_build_dir_spec(config, "debug"@),
{
    reveal_strlit("debug");
    reveal_strlit("release");
    lemma_profile_dir_segment(config, "release"@);
    lemma_profile_dir_segment(config, "debug"@);
    lemma_segment_last(profile_build_dir_spec(config, "release"@), "release"@);
    lemma_segment_last(profile_build_dir_spec(config, "debug"@), "debug"@);
}

/// A text ends with whatever was appended last.
proof fn lemma_ends_with_suffix(front: Seq<char>, back: Seq<char>)
    ensures
        ends_with(front + back, back),
{
    assert((front + back).subrange(front.len() as int, (front + back).len() as int) =~= back);
}

/// Every Run task's command names the artifact under the profile's build
/// directory below the worktree root: for PowerShell the quoted path is
/// `$ZED_WORKTREE_ROOT\<build dir>\<artifact>` with the artifact's `/`
/// turned into `\`, and for `sh` it is `$ZED_WORKTREE_ROOT/<build dir>/<artifact>`
/// with the artifact's `\` turned into `/`; the command ends with that path
/// and its closing quote.
pub proof fn law_run_command_names_artifact_under_build_dir(build_dir: Seq<char>, output: Seq<char>)
    ensures
        ends_with(
            run_command_spec(build_dir, output, ShellKind::Powershell),
            worktree_root() + "\\"@ + build_dir + "\\"@ + replace_char(output, '/', '\\') + "\""@,
        ),
        ends_with(
            run_command_spec(build_dir, output, ShellKind::Sh),
            worktree_root() + "/"@ + build_dir + "/"@ + replace_char(output, '\\', '/') + "\""@,
        ),
{
    reveal_strlit("Start-Process -FilePath \"$ZED_WORKTREE_ROOT\\");
    reveal_strlit("\"$ZED_WORKTREE_ROOT/");
    reveal_strlit("$ZED_WORKTREE_ROOT");
    reveal_strlit("\\");
    reveal_strlit("/");
    reveal_strlit("\"");
    reveal_strlit("Start-Process -FilePath \"");
    let o = replace_char(output, '/', '\\');
    let ps_path = worktree_root() + "\\"@ + build_dir + "\\"@ + o + "\""@;
    assert(run_command_spec(build_dir, output, ShellKind::Powershell) =~= "Start-Process -FilePath \""@
        + ps_path);
    lemma_ends_with_suffix("Start-Process -FilePath \""@, ps_path);
    assert(replace_char(o, '\\', '/') =~= replace_char(output, '\\', '/'));
    let sh_path = worktree_root() + "/"@ + build_dir + "/"@ + replace_char(output, '\\', '/') + "\""@;
    assert(run_command_spec(build_dir, output, ShellKind::Sh) =~= "\""@ + sh_path);
    lemma_ends_with_suffix("\""@, sh_path);
}

} // verus!
