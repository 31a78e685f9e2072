//! CMake target discovery: which targets a build directory offers, read
//! from `build.ninja` or from CMake file-api replies.
use crate::cmake::tasks::{targets_view, CmakeTarget, CmakeTargetView};
use crate::text::{
    before_char, before_char_exec, chars_eq, chars_of,
    contains, ends_with, first_word, first_word_exec, has_char, has_char_exec, has_prefix,
    has_substring, has_suffix, opt_view, split_on, split_on_exec, starts_with, string_of,
    sub_chars, trim_ws, trim_ws_exec, first_index_of, lemma_first_index_of_unique,
};
use vstd::prelude::*;

verus! {

// ---------------------------------------------------------------------------
// Names
// ---------------------------------------------------------------------------

/// A target name a user would build: not empty, not namespaced (`::`), not
/// a path, and not one of CMake's internal autogen or ordering targets.
pub open spec fn is_user_buildable_spec(name: Seq<char>) -> bool {
    &&& name.len() > 0
    &&& !contains(name, "::"@)
    &&& !has_char(name, '/')
    &&& !has_char(name, '\\')
    &&& !ends_with(name, "_autogen"@)
    &&& !ends_with(name, "_autogen_timestamp_deps"@)
    &&& !ends_with(name, "_automoc_json_extraction"@)
    &&& !starts_with(name, "cmake_object_order_depends_target_"@)
}

/// Whether a target name is one a user would build.
pub fn is_user_buildable_cmake_target_name(name: &str) -> (r: bool)
    ensures
        r == is_user_buildable_spec(name@),
{
    let v = chars_of(name);
    v.len() > 0 && !has_substring(&v, &chars_of("::")) && !has_char_exec(&v, '/') && !has_char_exec(
        &v,
        '\\',
    ) && !has_suffix(&v, &chars_of("_autogen")) && !has_suffix(&v, &chars_of("_autogen_timestamp_deps"))
        && !has_suffix(&v, &chars_of("_automoc_json_extraction")) && !has_prefix(
        &v,
        &chars_of("cmake_object_order_depends_target_"),
    )
}

/// Lexicographic order of texts by character (the order of `String`).
pub open spec fn text_lt(a: Seq<char>, b: Seq<char>) -> bool
    decreases a.len(),
{
    if b.len() == 0 {
        false
    } else if a.len() == 0 {
        true
    } else if a[0] < b[0] {
        true
    } else if a[0] > b[0] {
        false
    } else {
        text_lt(a.drop_first(), b.drop_first())
    }
}

pub proof fn lemma_text_lt_irreflexive(a: Seq<char>)
    ensures
        !text_lt(a, a),
    decreases a.len(),
{
    if a.len() > 0 {
        lemma_text_lt_irreflexive(a.drop_first());
    }
}

pub proof fn lemma_text_lt_trans(a: Seq<char>, b: Seq<char>, c: Seq<char>)
    requires
        text_lt(a, b),
        text_lt(b, c),
    ensures
        text_lt(a, c),
    decreases a.len(),
{
    if a.len() > 0 && b.len() > 0 && c.len() > 0 && a[0] == b[0] && b[0] == c[0] {
        lemma_text_lt_trans(a.drop_first(), b.drop_first(), c.drop_first());
    }
}

pub proof fn lemma_text_lt_total(a: Seq<char>, b: Seq<char>)
    ensures
        a == b || text_lt(a, b) || text_lt(b, a),
    decreases a.len(),
{
    if a.len() > 0 && b.len() > 0 {
        if a[0] == b[0] {
            lemma_text_lt_total(a.drop_first(), b.drop_first());
            if a.drop_first() == b.drop_first() {
                assert(a =~= seq![a[0]] + a.drop_first());
                assert(b =~= seq![b[0]] + b.drop_first());
            }
        }
    } else if a.len() == 0 && b.len() == 0 {
        assert(a =~= b);
    }
}

proof fn lemma_text_lt_asym(a: Seq<char>, b: Seq<char>)
    requires
        text_lt(a, b),
    ensures
        !text_lt(b, a),
{
    if text_lt(b, a) {
        lemma_text_lt_trans(a, b, a);
        lemma_text_lt_irreflexive(a);
    }
}

/// `a < b` on texts.
pub fn text_lt_exec(a: &str, b: &str) -> (r: bool)
    ensures
        r == text_lt(a@, b@),
{
    let av = chars_of(a);
    let bv = chars_of(b);
    let mut i: usize = 0;
    assert(av@.skip(0) =~= av@);
    assert(bv@.skip(0) =~= bv@);
    while i < av.len() && i < bv.len()
        invariant
            av@ == a@,
            bv@ == b@,
            i <= av.len(),
            i <= bv.len(),
            text_lt(av@, bv@) == text_lt(av@.skip(i as int), bv@.skip(i as int)),
        decreases av.len() - i,
    {
        let ghost sa = av@.skip(i as int);
        let ghost sb = bv@.skip(i as int);
        assert(sa[0] == av@[i as int]);
        assert(sb[0] == bv@[i as int]);
        if av[i] < bv[i] {
            return true;
        }
        if av[i] > bv[i] {
            return false;
        }
        assert(sa.drop_first() =~= av@.skip(i + 1));
        assert(sb.drop_first() =~= bv@.skip(i + 1));
        i = i + 1;
    }
    i == av.len() && i < bv.len()
}

// ---------------------------------------------------------------------------
// Deduplication
// ---------------------------------------------------------------------------

/// How informative an artifact path is: none, a file name, a path with a
/// directory.
pub open spec fn output_score_spec(output: Option<Seq<char>>) -> int {
    match output {
        None => 0,
        Some(o) => if has_char(o, '/') || has_char(o, '\\') {
            2
        } else {
            1
        },
    }
}

/// A candidate replaces the target of the same name that was found before
/// when it is an executable and that one is not, or when both are of the
/// same kind and its artifact path is more informative.
pub open spec fn should_replace_spec(existing: CmakeTargetView, candidate: CmakeTargetView) -> bool {
    if candidate.executable && !existing.executable {
        true
    } else if candidate.executable == existing.executable {
        output_score_spec(candidate.output) > output_score_spec(existing.output)
    } else {
        false
    }
}

/// The target kept for a name after `targets` are seen in order.
pub open spec fn best_for(targets: Seq<CmakeTargetView>, name: Seq<char>) -> Option<CmakeTargetView>
    decreases targets.len(),
{
    if targets.len() == 0 {
        None
    } else {
        let prev = best_for(targets.drop_last(), name);
        let t = targets.last();
        if t.name != name {
            prev
        } else {
            match prev {
                None => Some(t),
                Some(p) => if should_replace_spec(p, t) {
                    Some(t)
                } else {
                    Some(p)
                },
            }
        }
    }
}

/// Some target of `ts` has the name.
pub open spec fn has_target_named(ts: Seq<CmakeTargetView>, name: Seq<char>) -> bool {
    exists|i: int| 0 <= i < ts.len() && (#[trigger] ts[i]).name == name
}

/// The names strictly increase.
pub open spec fn names_sorted(ts: Seq<CmakeTargetView>) -> bool {
    forall|i: int, j: int| 0 <= i < j < ts.len() ==> text_lt(ts[i].name, ts[j].name)
}

/// `out` is `input` deduplicated: one target per name, in name order, each
/// the one kept for its name.
pub open spec fn is_dedupe_of(out: Seq<CmakeTargetView>, input: Seq<CmakeTargetView>) -> bool {
    &&& names_sorted(out)
    &&& forall|n: Seq<char>| has_target_named(out, n) <==> has_target_named(input, n)
    &&& forall|i: int| 0 <= i < out.len() ==> best_for(input, (#[trigger] out[i]).name) == Some(out[i])
}

proof fn lemma_best_for_some(targets: Seq<CmakeTargetView>, name: Seq<char>)
    ensures
        best_for(targets, name) is Some <==> has_target_named(targets, name),
        best_for(targets, name) matches Some(b) ==> b.name == name,
    decreases targets.len(),
{
    if targets.len() > 0 {
        let d = targets.drop_last();
        lemma_best_for_some(d, name);
        if has_target_named(d, name) {
            let i = choose|i: int| 0 <= i < d.len() && (#[trigger] d[i]).name == name;
            assert(targets[i] == d[i]);
        }
        if has_target_named(targets, name) {
            let i = choose|i: int| 0 <= i < targets.len() && (#[trigger] targets[i]).name == name;
            if i < targets.len() - 1 {
                assert(d[i] == targets[i]);
            }
        }
    }
}

/// Deduplication is determined: two deduplications of the same targets
/// are equal.
pub proof fn law_dedupe_is_determined(a: Seq<CmakeTargetView>, b: Seq<CmakeTargetView>, input: Seq<CmakeTargetView>)
    requires
        is_dedupe_of(a, input),
        is_dedupe_of(b, input),
    ensures
        a == b,
    decreases a.len(),
{
    if a.len() == 0 {
        if b.len() > 0 {
            assert(has_target_named(b, b[0].name));
            assert(!has_target_named(a, b[0].name));
        }
        assert(a =~= b);
    } else if b.len() == 0 {
        assert(has_target_named(a, a[0].name));
    } else {
        // Both first elements are the smallest name.
        assert(has_target_named(a, a[0].name));
        assert(has_target_named(b, a[0].name));
        assert(has_target_named(a, b[0].name));
        let i = choose|i: int| 0 <= i < b.len() && (#[trigger] b[i]).name == a[0].name;
        let k = choose|k: int| 0 <= k < a.len() && (#[trigger] a[k]).name == b[0].name;
        if i > 0 {
            assert(text_lt(b[0].name, b[i].name));
            if k > 0 {
                assert(text_lt(a[0].name, a[k].name));
                lemma_text_lt_asym(b[0].name, a[0].name);
            } else {
                lemma_text_lt_irreflexive(a[0].name);
            }
        }
        assert(a[0].name == b[0].name);
        assert(best_for(input, a[0].name) == Some(a[0]));
        assert(best_for(input, b[0].name) == Some(b[0]));
        let a1 = a.drop_first();
        let b1 = b.drop_first();
        // The tails deduplicate the input without the first name.
        assert forall|n: Seq<char>| has_target_named(a1, n) <==> has_target_named(b1, n) by {
            if has_target_named(a1, n) {
                let x = choose|x: int| 0 <= x < a1.len() && (#[trigger] a1[x]).name == n;
                assert(a[x + 1].name == n);
                assert(has_target_named(b, n));
                let y = choose|y: int| 0 <= y < b.len() && (#[trigger] b[y]).name == n;
                assert(text_lt(a[0].name, a[x + 1].name));
                if y == 0 {
                    lemma_text_lt_irreflexive(n);
                }
                assert(b1[y - 1].name == n);
            }
            if has_target_named(b1, n) {
                let x = choose|x: int| 0 <= x < b1.len() && (#[trigger] b1[x]).name == n;
                assert(b[x + 1].name == n);
                assert(has_target_named(a, n));
                let y = choose|y: int| 0 <= y < a.len() && (#[trigger] a[y]).name == n;
                assert(text_lt(b[0].name, b[x + 1].name));
                if y == 0 {
                    lemma_text_lt_irreflexive(n);
                }
                assert(a1[y - 1].name == n);
            }
        }
        lemma_tails_equal(a1, b1, input);
        assert(a =~= seq![a[0]] + a1);
        assert(b =~= seq![b[0]] + b1);
    }
}

/// A deduplication holds each target name once.
pub proof fn law_dedupe_names_unique(out: Seq<CmakeTargetView>, input: Seq<CmakeTargetView>, i: int, j: int)
    requires
        is_dedupe_of(out, input),
        0 <= i < j < out.len(),
    ensures
        out[i].name != out[j].name,
{
    if out[i].name == out[j].name {
        lemma_text_lt_irreflexive(out[i].name);
    }
}

/// The target kept for a name is one of the targets seen.
proof fn lemma_best_for_member(targets: Seq<CmakeTargetView>, name: Seq<char>)
    ensures
        best_for(targets, name) matches Some(b) ==> targets.contains(b),
    decreases targets.len(),
{
    if targets.len() > 0 {
        let d = targets.drop_last();
        lemma_best_for_member(d, name);
        if let Some(b) = best_for(d, name) {
            let k = choose|k: int| 0 <= k < d.len() && d[k] == b;
            assert(targets[k] == b);
        }
        assert(targets[targets.len() - 1] == targets.last());
    }
}

/// Some target of `targets` has the name and is an executable.
pub open spec fn has_executable_named(targets: Seq<CmakeTargetView>, name: Seq<char>) -> bool {
    exists|i: int| 0 <= i < targets.len() && (#[trigger] targets[i]).name == name && targets[i].executable
}

/// `b` has an artifact path at least as informative as every target of
/// `targets` with its name and kind.
pub open spec fn has_top_score(targets: Seq<CmakeTargetView>, b: CmakeTargetView) -> bool {
    forall|i: int|
        0 <= i < targets.len() && (#[trigger] targets[i]).name == b.name && targets[i].executable == b.executable
            ==> output_score_spec(targets[i].output) <= output_score_spec(b.output)
}

proof fn lemma_best_for_executable(targets: Seq<CmakeTargetView>, name: Seq<char>)
    ensures
        best_for(targets, name) matches Some(b) ==> (b.executable <==> has_executable_named(targets, name)),
    decreases targets.len(),
{
    if targets.len() > 0 {
        let d = targets.drop_last();
        lemma_best_for_executable(d, name);
        lemma_best_for_some(d, name);
        if has_executable_named(targets, name) {
            let i = choose|i: int| 0 <= i < targets.len() && (#[trigger] targets[i]).name == name && targets[i].executable;
            if i < targets.len() - 1 {
                assert(d[i] == targets[i]);
            }
        }
        if has_executable_named(d, name) {
            let i = choose|i: int| 0 <= i < d.len() && (#[trigger] d[i]).name == name && d[i].executable;
            assert(targets[i] == d[i]);
        }
    }
}

proof fn lemma_best_for_top_score(targets: Seq<CmakeTargetView>, name: Seq<char>)
    ensures
        best_for(targets, name) matches Some(b) ==> has_top_score(targets, b),
    decreases targets.len(),
{
    if targets.len() > 0 {
        let d = targets.drop_last();
        let t = targets.last();
        lemma_best_for_top_score(d, name);
        lemma_best_for_executable(d, name);
        lemma_best_for_some(d, name);
        lemma_best_for_some(targets, name);
        if let Some(b) = best_for(targets, name) {
            assert forall|i: int|
                0 <= i < targets.len() && (#[trigger] targets[i]).name == b.name && targets[i].executable
                    == b.executable implies output_score_spec(targets[i].output) <= output_score_spec(b.output) by {
                if i < targets.len() - 1 {
                    assert(targets[i] == d[i]);
                    if d[i].executable {
                        assert(has_executable_named(d, name));
                    }
                }
            }
        }
    }
}

/// `b` is the target at `k`, and every earlier target of its name and kind
/// has a less informative artifact path.
pub open spec fn is_first_best_at(targets: Seq<CmakeTargetView>, b: CmakeTargetView, k: int) -> bool {
    &&& 0 <= k < targets.len()
    &&& targets[k] == b
    &&& forall|j: int|
        0 <= j < k && (#[trigger] targets[j]).name == b.name && targets[j].executable == b.executable
            ==> output_score_spec(targets[j].output) < output_score_spec(b.output)
}

proof fn lemma_best_for_first(targets: Seq<CmakeTargetView>, name: Seq<char>)
    ensures
        best_for(targets, name) matches Some(b) ==> exists|k: int| #[trigger] is_first_best_at(targets, b, k),
    decreases targets.len(),
{
    if targets.len() > 0 {
        let d = targets.drop_last();
        let t = targets.last();
        let n = targets.len() - 1;
        lemma_best_for_first(d, name);
        lemma_best_for_executable(d, name);
        lemma_best_for_top_score(d, name);
        lemma_best_for_some(d, name);
        lemma_best_for_some(targets, name);
        if let Some(b) = best_for(targets, name) {
            if best_for(d, name) == Some(b) {
                let k = choose|k: int| #[trigger] is_first_best_at(d, b, k);
                assert forall|j: int|
                    0 <= j < k && (#[trigger] targets[j]).name == b.name && targets[j].executable == b.executable
                        implies output_score_spec(targets[j].output) < output_score_spec(b.output) by {
                    assert(targets[j] == d[j]);
                }
                assert(targets[k] == d[k]);
                assert(is_first_best_at(targets, b, k));
            } else {
                assert(b == t);
                assert forall|j: int|
                    0 <= j < n && (#[trigger] targets[j]).name == b.name && targets[j].executable == b.executable
                        implies output_score_spec(targets[j].output) < output_score_spec(b.output) by {
                    assert(targets[j] == d[j]);
                    if b.executable {
                        assert(has_executable_named(d, name));
                    }
                }
                assert(targets[n as int] == t);
                assert(is_first_best_at(targets, b, n as int));
            }
        }
    }
}

/// Deduplication is sorted by name and keeps the input's names; for each
/// name it keeps the best target of that name: one
/// of the input targets, an executable exactly when some target of the
/// name is one, with the most informative artifact path among the targets
/// of its name and kind, the first of them on ties; and no other target of
/// the result has its name.
pub proof fn law_dedupe_keeps_best(out: Seq<CmakeTargetView>, input: Seq<CmakeTargetView>, i: int)
    requires
        is_dedupe_of(out, input),
        0 <= i < out.len(),
    ensures
        names_sorted(out),
        forall|n: Seq<char>| has_target_named(out, n) <==> has_target_named(input, n),
        input.contains(out[i]),
        out[i].executable <==> has_executable_named(input, out[i].name),
        has_top_score(input, out[i]),
        exists|k: int| #[trigger] is_first_best_at(input, out[i], k),
        forall|j: int| 0 <= j < out.len() && j != i ==> out[j].name != out[i].name,
{
    assert(best_for(input, out[i].name) == Some(out[i]));
    lemma_best_for_executable(input, out[i].name);
    lemma_best_for_top_score(input, out[i].name);
    lemma_best_for_first(input, out[i].name);
    lemma_dedupe_members(out, input, i);
    assert forall|j: int| 0 <= j < out.len() && j != i implies out[j].name != out[i].name by {
        if j < i {
            law_dedupe_names_unique(out, input, j, i);
        } else {
            law_dedupe_names_unique(out, input, i, j);
        }
    }
}

/// Every target of a deduplication is one of the targets it was made from.
pub proof fn lemma_dedupe_members(out: Seq<CmakeTargetView>, input: Seq<CmakeTargetView>, i: int)
    requires
        is_dedupe_of(out, input),
        0 <= i < out.len(),
    ensures
        input.contains(out[i]),
{
    assert(best_for(input, out[i].name) == Some(out[i]));
    lemma_best_for_member(input, out[i].name);
}

/// Every target a `build.ninja` line declares is one to offer: a user
/// buildable name, never `all`, `clean`, `edit_cache` or `rebuild_cache`
/// as a phony target, and no output under `CMakeFiles`.
pub proof fn law_ninja_targets_are_offered(lines: Seq<Seq<char>>, i: int)
    requires
        0 <= i < ninja_targets(lines).len(),
    ensures
        is_user_buildable_spec(ninja_targets(lines)[i].name),
        !ninja_targets(lines)[i].executable ==> ninja_targets(lines)[i].name != "all"@
            && ninja_targets(lines)[i].name != "clean"@ && ninja_targets(lines)[i].name != "edit_cache"@
            && ninja_targets(lines)[i].name != "rebuild_cache"@,
    decreases lines.len(),
{
    let rest = ninja_targets(lines.drop_last());
    if i < rest.len() {
        law_ninja_targets_are_offered(lines.drop_last(), i);
        match ninja_line_target(lines.last()) {
            Some(t) => assert(ninja_targets(lines)[i] == rest[i]),
            None => {},
        }
    }
}

/// Every target discovered from a `build.ninja` text is one to offer (see
/// `law_ninja_targets_are_offered`).
pub proof fn law_discovered_ninja_targets_are_offered(out: Seq<CmakeTargetView>, text: Seq<char>, i: int)
    requires
        is_dedupe_of(out, ninja_targets(split_on(text, '\n'))),
        0 <= i < out.len(),
    ensures
        is_user_buildable_spec(out[i].name),
{
    let input = ninja_targets(split_on(text, '\n'));
    lemma_dedupe_members(out, input, i);
    let k = choose|k: int| 0 <= k < input.len() && input[k] == out[i];
    law_ninja_targets_are_offered(split_on(text, '\n'), k);
}

proof fn lemma_tails_equal(a: Seq<CmakeTargetView>, b: Seq<CmakeTargetView>, input: Seq<CmakeTargetView>)
    requires
        names_sorted(a),
        names_sorted(b),
        forall|n: Seq<char>| has_target_named(a, n) <==> has_target_named(b, n),
        forall|i: int| 0 <= i < a.len() ==> best_for(input, (#[trigger] a[i]).name) == Some(a[i]),
        forall|i: int| 0 <= i < b.len() ==> best_for(input, (#[trigger] b[i]).name) == Some(b[i]),
    ensures
        a == b,
    decreases a.len(),
{
    if a.len() == 0 {
        if b.len() > 0 {
            assert(has_target_named(b, b[0].name));
        }
        assert(a =~= b);
    } else if b.len() == 0 {
        assert(has_target_named(a, a[0].name));
    } else {
        assert(has_target_named(a, a[0].name));
        assert(has_target_named(a, b[0].name));
        let i = choose|i: int| 0 <= i < b.len() && (#[trigger] b[i]).name == a[0].name;
        let k = choose|k: int| 0 <= k < a.len() && (#[trigger] a[k]).name == b[0].name;
        if i > 0 {
            assert(text_lt(b[0].name, b[i].name));
            if k > 0 {
                assert(text_lt(a[0].name, a[k].name));
                lemma_text_lt_asym(b[0].name, a[0].name);
            } else {
                lemma_text_lt_irreflexive(a[0].name);
            }
        }
        let a1 = a.drop_first();
        let b1 = b.drop_first();
        assert forall|n: Seq<char>| has_target_named(a1, n) <==> has_target_named(b1, n) by {
            if has_target_named(a1, n) {
                let x = choose|x: int| 0 <= x < a1.len() && (#[trigger] a1[x]).name == n;
                assert(a[x + 1].name == n);
                assert(has_target_named(b, n));
                let y = choose|y: int| 0 <= y < b.len() && (#[trigger] b[y]).name == n;
                assert(text_lt(a[0].name, a[x + 1].name));
                if y == 0 {
                    lemma_text_lt_irreflexive(n);
                }
                assert(b1[y - 1].name == n);
            }
            if has_target_named(b1, n) {
                let x = choose|x: int| 0 <= x < b1.len() && (#[trigger] b1[x]).name == n;
                assert(b[x + 1].name == n);
                assert(has_target_named(a, n));
                let y = choose|y: int| 0 <= y < a.len() && (#[trigger] a[y]).name == n;
                assert(text_lt(b[0].name, b[x + 1].name));
                if y == 0 {
                    lemma_text_lt_irreflexive(n);
                }
                assert(a1[y - 1].name == n);
            }
        }
        assert forall|x: int| 0 <= x < a1.len() implies best_for(input, (#[trigger] a1[x]).name) == Some(
            a1[x],
        ) by {
            assert(a1[x] == a[x + 1]);
        }
        assert forall|x: int| 0 <= x < b1.len() implies best_for(input, (#[trigger] b1[x]).name) == Some(
            b1[x],
        ) by {
            assert(b1[x] == b[x + 1]);
        }
        lemma_tails_equal(a1, b1, input);
        assert(a =~= seq![a[0]] + a1);
        assert(b =~= seq![b[0]] + b1);
    }
}

/// How informative an artifact path is.
pub fn output_path_score(output: &Option<String>) -> (r: usize)
    ensures
        r as int == output_score_spec(opt_view(*output)),
{
    match output {
        None => 0,
        Some(o) => {
            let v = chars_of(o.as_str());
            if has_char_exec(&v, '/') || has_char_exec(&v, '\\') {
                2
            } else {
                1
            }
        },
    }
}

/// Whether a newly found target replaces the one of the same name.
pub fn should_replace_cmake_target(existing: &CmakeTarget, candidate: &CmakeTarget) -> (r: bool)
    ensures
        r == should_replace_spec(existing@, candidate@),
{
    if candidate.executable && !existing.executable {
        return true;
    }
    if candidate.executable == existing.executable {
        return output_path_score(&candidate.output) > output_path_score(&existing.output);
    }
    false
}

fn copy_target(t: &CmakeTarget) -> (r: CmakeTarget)
    ensures
        r@ == t@,
{
    CmakeTarget { name: t.name.clone(), output: crate::text::copy_opt(&t.output), executable: t.executable }
}

/// One target per name, sorted by name; of several targets with one name,
/// an executable is preferred to a library, and then the one whose artifact
/// path says the most (see `should_replace_spec`), the first found on a tie.
pub fn dedupe_cmake_targets(targets: Vec<CmakeTarget>) -> (r: Vec<CmakeTarget>)
    ensures
        is_dedupe_of(targets_view(r@), targets_view(targets@)),
{
    let ghost input = targets_view(targets@);
    let mut out: Vec<CmakeTarget> = Vec::new();
    let mut k: usize = 0;
    proof {
        assert(input.take(0) =~= Seq::<CmakeTargetView>::empty());
        assert forall|n: Seq<char>| has_target_named(targets_view(out@), n) <==> has_target_named(
            input.take(0),
            n,
        ) by {}
    }
    while k < targets.len()
        invariant
            input == targets_view(targets@),
            k <= targets.len(),
            is_dedupe_of(targets_view(out@), input.take(k as int)),
        decreases targets.len() - k,
    {
        let t = &targets[k];
        let ghost tv = t@;
        let ghost prev = input.take(k as int);
        let ghost next = input.take(k + 1);
        proof {
            assert(next.drop_last() =~= prev);
            assert(next.last() == tv);
            assert forall|n: Seq<char>| n != tv.name implies best_for(next, n) == best_for(prev, n) by {}
            lemma_best_for_some(prev, tv.name);
        }
        // Find the first position whose name is not below the new name.
        let mut p: usize = 0;
        while p < out.len() && text_lt_exec(out[p].name.as_str(), t.name.as_str())
            invariant
                p <= out.len(),
                forall|j: int| 0 <= j < p ==> text_lt(targets_view(out@)[j].name, tv.name),
                t@ == tv,
            decreases out.len() - p,
        {
            assert(targets_view(out@)[p as int] == out@[p as int]@);
            p = p + 1;
        }
        let ghost ov = targets_view(out@);
        let same = p < out.len() && chars_eq(&chars_of(out[p].name.as_str()), &chars_of(t.name.as_str()));
        if same {
            assert(ov[p as int] == out@[p as int]@);
            let replace = should_replace_cmake_target(&out[p], t);
            if replace {
                let c = copy_target(t);
                out.set(p, c);
                proof {
                    let nv = targets_view(out@);
                    assert(nv =~= ov.update(p as int, tv));
                    assert(best_for(prev, tv.name) == Some(ov[p as int]));
                    assert(best_for(next, tv.name) == Some(tv));
                    assert forall|n: Seq<char>| has_target_named(nv, n) <==> has_target_named(next, n) by {
                        if has_target_named(nv, n) {
                            let i = choose|i: int| 0 <= i < nv.len() && (#[trigger] nv[i]).name == n;
                            assert(ov[i].name == n);
                            if n != tv.name {
                                lemma_best_for_some(next, n);
                                lemma_best_for_some(prev, n);
                            }
                            lemma_best_for_some(next, n);
                        }
                        if has_target_named(next, n) {
                            lemma_best_for_some(next, n);
                            lemma_best_for_some(prev, n);
                            if n != tv.name {
                                let i = choose|i: int| 0 <= i < ov.len() && (#[trigger] ov[i]).name == n;
                                assert(nv[i].name == n);
                            } else {
                                assert(nv[p as int].name == n);
                            }
                        }
                    }
                    assert forall|i: int| 0 <= i < nv.len() implies best_for(next, (#[trigger] nv[i]).name)
                        == Some(nv[i]) by {
                        if i != p {
                            assert(nv[i] == ov[i]);
                            if ov[i].name == tv.name {
                                lemma_text_lt_irreflexive(tv.name);
                                if i < p {
                                    assert(text_lt(ov[i].name, tv.name));
                                } else {
                                    assert(text_lt(ov[p as int].name, ov[i].name));
                                }
                            }
                        }
                    }
                }
            } else {
                proof {
                    assert(best_for(next, tv.name) == Some(ov[p as int]));
                    assert forall|n: Seq<char>| has_target_named(ov, n) <==> has_target_named(next, n) by {
                        lemma_best_for_some(next, n);
                        lemma_best_for_some(prev, n);
                    }
                    assert forall|i: int| 0 <= i < ov.len() implies best_for(next, (#[trigger] ov[i]).name)
                        == Some(ov[i]) by {
                        if ov[i].name != tv.name {
                        } else {
                            if i != p {
                                lemma_text_lt_irreflexive(tv.name);
                                if i < p {
                                    assert(text_lt(ov[i].name, tv.name));
                                } else {
                                    assert(text_lt(ov[p as int].name, ov[i].name));
                                }
                            }
                        }
                    }
                }
            }
        } else {
            let c = copy_target(t);
            out.insert(p, c);
            proof {
                let nv = targets_view(out@);
                assert(nv =~= ov.insert(p as int, tv));
                // The new name was not present.
                if has_target_named(ov, tv.name) {
                    let i = choose|i: int| 0 <= i < ov.len() && (#[trigger] ov[i]).name == tv.name;
                    if i < p {
                        lemma_text_lt_irreflexive(tv.name);
                    } else {
                        assert(!text_lt(ov[p as int].name, tv.name));
                        if i > p {
                            assert(text_lt(ov[p as int].name, ov[i].name));
                        }
                    }
                    assert(false);
                }
                assert(best_for(prev, tv.name) is None);
                assert(best_for(next, tv.name) == Some(tv));
                if p < ov.len() {
                    lemma_text_lt_total(ov[p as int].name, tv.name);
                }
                assert forall|i: int, j: int| 0 <= i < j < nv.len() implies text_lt(nv[i].name, nv[j].name) by {
                    if j < p {
                        assert(nv[i] == ov[i] && nv[j] == ov[j]);
                    } else if j == p {
                        assert(nv[i] == ov[i]);
                    } else if i < p {
                        assert(nv[i] == ov[i] && nv[j] == ov[j - 1]);
                        assert(text_lt(ov[i].name, tv.name));
                        if j - 1 > p {
                            assert(text_lt(ov[p as int].name, ov[j - 1].name));
                            lemma_text_lt_trans(tv.name, ov[p as int].name, ov[j - 1].name);
                        }
                        lemma_text_lt_trans(ov[i].name, tv.name, ov[j - 1].name);
                    } else if i == p {
                        assert(nv[j] == ov[j - 1]);
                        if j - 1 > p {
                            assert(text_lt(ov[p as int].name, ov[j - 1].name));
                            lemma_text_lt_trans(tv.name, ov[p as int].name, ov[j - 1].name);
                        }
                    } else {
                        assert(nv[i] == ov[i - 1] && nv[j] == ov[j - 1]);
                    }
                }
                assert forall|n: Seq<char>| has_target_named(nv, n) <==> has_target_named(next, n) by {
                    lemma_best_for_some(next, n);
                    lemma_best_for_some(prev, n);
                    if has_target_named(nv, n) {
                        let i = choose|i: int| 0 <= i < nv.len() && (#[trigger] nv[i]).name == n;
                        if i < p {
                            assert(ov[i].name == n);
                        } else if i > p {
                            assert(ov[i - 1].name == n);
                        }
                    }
                    if has_target_named(next, n) {
                        if n == tv.name {
                            assert(nv[p as int].name == n);
                        } else {
                            let i = choose|i: int| 0 <= i < ov.len() && (#[trigger] ov[i]).name == n;
                            if i < p {
                                assert(nv[i].name == n);
                            } else {
                                assert(nv[i + 1].name == n);
                            }
                        }
                    }
                }
                assert forall|i: int| 0 <= i < nv.len() implies best_for(next, (#[trigger] nv[i]).name)
                    == Some(nv[i]) by {
                    if i < p {
                        assert(nv[i] == ov[i]);
                        lemma_text_lt_irreflexive(tv.name);
                    } else if i > p {
                        assert(nv[i] == ov[i - 1]);
                        if ov[i - 1].name == tv.name {
                            assert(has_target_named(ov, tv.name));
                        }
                    }
                }
            }
        }
        k = k + 1;
    }
    proof {
        assert(input.take(targets.len() as int) =~= input);
    }
    out
}

// ---------------------------------------------------------------------------
// build.ninja
// ---------------------------------------------------------------------------

/// The first explicit output of a ninja `build` statement: the first word
/// before any `|`.
pub open spec fn primary_ninja_output_spec(outputs: Seq<char>) -> Option<Seq<char>> {
    first_word(before_char(outputs, '|'))
}

/// The file name of a path (after its last `/` or `\`), without `.exe`.
pub open spec fn target_name_from_output_spec(output: Seq<char>) -> Seq<char> {
    let file_name = last_component(output);
    if ends_with(file_name, ".exe"@) {
        file_name.take(file_name.len() - ".exe"@.len())
    } else {
        file_name
    }
}

/// The part of a path after its last `/` or `\`.
pub open spec fn last_component(path: Seq<char>) -> Seq<char>
    decreases path.len(),
{
    if path.len() == 0 {
        path
    } else if path.last() == '/' || path.last() == '\\' {
        Seq::empty()
    } else {
        last_component(path.drop_last()).push(path.last())
    }
}

/// A target declared by one line of `build.ninja`: an executable linked by
/// an `*EXECUTABLE_LINKER*` rule (named after its output file), or a
/// `phony` target that is not a path, not internal and not one of `all`,
/// `clean`, `edit_cache` and `rebuild_cache`. Outputs under `CMakeFiles`
/// are never targets.
pub open spec fn ninja_line_target(line: Seq<char>) -> Option<CmakeTargetView> {
    let l = trim_ws(line);
    if !starts_with(l, "build "@) {
        None
    } else {
        let rest = l.skip("build "@.len() as int);
        match first_index_of(rest, ':') {
            None => None,
            Some(colon) => {
                let outputs = rest.take(colon);
                let rule_and_inputs = rest.skip(colon + 1);
                match primary_ninja_output_spec(outputs) {
                    None => None,
                    Some(output) => {
                        if output.len() == 0 || contains(output, "CMakeFiles/"@) || contains(
                            output,
                            "CMakeFiles\\"@,
                        ) {
                            None
                        } else {
                            let rule = match first_word(rule_and_inputs) {
                                Some(w) => w,
                                None => Seq::empty(),
                            };
                            if contains(rule, "EXECUTABLE_LINKER"@) {
                                let name = target_name_from_output_spec(output);
                                if !is_user_buildable_spec(name) {
                                    None
                                } else {
                                    Some(CmakeTargetView { name: name, output: Some(output), executable: true })
                                }
                            } else if rule == "phony"@ {
                                if !is_user_buildable_spec(output) || output == "all"@ || output == "clean"@
                                    || output == "edit_cache"@ || output == "rebuild_cache"@ {
                                    None
                                } else {
                                    Some(CmakeTargetView { name: output, output: None, executable: false })
                                }
                            } else {
                                None
                            }
                        }
                    },
                }
            },
        }
    }
}

/// The first explicit output and the rule of a `build` statement.
pub open spec fn ninja_build_parts(line: Seq<char>) -> Option<(Seq<char>, Seq<char>)> {
    let l = trim_ws(line);
    if !starts_with(l, "build "@) {
        None
    } else {
        let rest = l.skip("build "@.len() as int);
        match first_index_of(rest, ':') {
            None => None,
            Some(colon) => match primary_ninja_output_spec(rest.take(colon)) {
                None => None,
                Some(output) => Some(
                    (
                        output,
                        match first_word(rest.skip(colon + 1)) {
                            Some(w) => w,
                            None => Seq::empty(),
                        },
                    ),
                ),
            },
        }
    }
}

/// How a statement's output and rule make a target: the output is not
/// empty and not under `CMakeFiles`; the target is an executable exactly
/// when the rule contains `EXECUTABLE_LINKER`, and then it carries the
/// output and is named after its file name without `.exe`; otherwise the
/// rule is `phony`, and the target is the output itself, with no artifact.
pub open spec fn ninja_line_yields(output: Seq<char>, rule: Seq<char>, t: CmakeTargetView) -> bool {
    &&& output.len() > 0
    &&& !contains(output, "CMakeFiles/"@)
    &&& !contains(output, "CMakeFiles\\"@)
    &&& t.executable <==> contains(rule, "EXECUTABLE_LINKER"@)
    &&& t.executable ==> t.output == Some(output) && t.name == target_name_from_output_spec(output)
    &&& !t.executable ==> rule == "phony"@ && t.name == output && t.output is None
}

/// Every target a `build.ninja` line declares comes from a `build`
/// statement whose rule is `phony` or an `EXECUTABLE_LINKER` rule, and whose
/// first output is not empty and not under `CMakeFiles`; it has a name a
/// user would build (not empty, not namespaced, not a path, not internal);
/// it is an executable exactly for the linker rule, carrying the output and
/// named after its file name without `.exe`; a phony target is the output
/// itself, with no artifact, and never `all`, `clean`, `edit_cache` or
/// `rebuild_cache`.
pub proof fn law_ninja_line_targets(line: Seq<char>)
    ensures
        (ninja_line_target(line) matches Some(t) ==> {
            &&& is_user_buildable_spec(t.name)
            &&& (ninja_build_parts(line) matches Some(parts) && ninja_line_yields(parts.0, parts.1, t))
            &&& !t.executable ==> t.name != "all"@ && t.name != "clean"@ && t.name != "edit_cache"@ && t.name
                != "rebuild_cache"@
        }),
{
}

/// Every `build` statement that names a target is offered: when the rule
/// contains `EXECUTABLE_LINKER` (whatever the language: `C_`, `CXX_`, ...)
/// and the first output is not empty, not under `CMakeFiles` and has a file
/// name (without `.exe`) a user would build, the line gives that
/// executable, with that output; when the rule is `phony` and the output
/// is a name a user would build other than `all`, `clean`, `edit_cache`
/// and `rebuild_cache`, the line gives that phony target.
pub proof fn law_ninja_lines_offer_their_targets(line: Seq<char>)
    ensures
        (ninja_build_parts(line) matches Some(parts) ==> {
            &&& parts.0.len() > 0 && !contains(parts.0, "CMakeFiles/"@) && !contains(parts.0, "CMakeFiles\\"@)
                && contains(parts.1, "EXECUTABLE_LINKER"@) && is_user_buildable_spec(
                target_name_from_output_spec(parts.0),
            ) ==> ninja_line_target(line) == Some(
                (CmakeTargetView {
                    name: target_name_from_output_spec(parts.0),
                    output: Some(parts.0),
                    executable: true,
                }),
            )
            &&& parts.0.len() > 0 && !contains(parts.0, "CMakeFiles/"@) && !contains(parts.0, "CMakeFiles\\"@)
                && parts.1 == "phony"@ && is_user_buildable_spec(parts.0) && parts.0 != "all"@ && parts.0 != "clean"@
                && parts.0 != "edit_cache"@ && parts.0 != "rebuild_cache"@ ==> ninja_line_target(line) == Some(
                (CmakeTargetView { name: parts.0, output: None, executable: false }),
            )
        }),
{
    reveal_strlit("phony");
    reveal_strlit("EXECUTABLE_LINKER");
    if "phony"@ == "phony"@ && contains("phony"@, "EXECUTABLE_LINKER"@) {
        let i = choose|i: int| crate::text::occurs_at("phony"@, "EXECUTABLE_LINKER"@, i);
        assert(false);
    }
}

/// The first explicit output of a ninja `build` statement.
pub fn primary_ninja_output(outputs: &[char]) -> (r: Option<Vec<char>>)
    ensures
        match r {
            Some(o) => primary_ninja_output_spec(outputs@) == Some(o@),
            None => primary_ninja_output_spec(outputs@) is None,
        },
{
    let explicit = before_char_exec(outputs, '|');
    first_word_exec(&explicit)
}

/// The part of a path after its last separator.
pub fn last_component_exec(path: &[char]) -> (r: Vec<char>)
    ensures
        r@ == last_component(path@),
{
    let mut k: usize = path.len();
    assert(path@.take(k as int) =~= path@);
    assert(path@.skip(k as int) =~= Seq::<char>::empty());
    assert(last_component(path@) + Seq::<char>::empty() =~= last_component(path@));
    while k > 0 && path[k - 1] != '/' && path[k - 1] != '\\'
        invariant
            k <= path.len(),
            forall|j: int| k <= j < path.len() ==> path@[j] != '/' && path@[j] != '\\',
            last_component(path@) == last_component(path@.take(k as int)) + path@.skip(k as int),
        decreases k,
    {
        proof {
            let t = path@.take(k as int);
            assert(t.drop_last() =~= path@.take(k - 1));
            assert(t.last() == path@[k - 1]);
            assert(path@.skip(k - 1) =~= seq![path@[k - 1]] + path@.skip(k as int));
            assert(last_component(t) == last_component(path@.take(k - 1)).push(path@[k - 1]));
            assert(last_component(path@.take(k - 1)).push(path@[k - 1]) + path@.skip(k as int) =~= last_component(
                path@.take(k - 1),
            ) + path@.skip(k - 1));
        }
        k = k - 1;
    }
    proof {
        let t = path@.take(k as int);
        if k > 0 {
            assert(t.last() == path@[k - 1]);
        }
        assert(last_component(t) =~= Seq::<char>::empty());
        assert(Seq::<char>::empty() + path@.skip(k as int) =~= path@.skip(k as int));
    }
    let r = sub_chars(path, k, path.len());
    assert(r@ =~= path@.skip(k as int));
    r
}

/// The target name of an executable's output file.
pub fn target_name_from_output(output: &[char]) -> (r: Vec<char>)
    ensures
        r@ == target_name_from_output_spec(output@),
{
    let file_name = last_component_exec(output);
    let exe = chars_of(".exe");
    if has_suffix(&file_name, &exe) {
        sub_chars(&file_name, 0, file_name.len() - exe.len())
    } else {
        file_name
    }
}

fn is_one_of(s: &[char], a: &str, b: &str, c: &str, d: &str) -> (r: bool)
    ensures
        r == (s@ == a@ || s@ == b@ || s@ == c@ || s@ == d@),
{
    chars_eq(s, &chars_of(a)) || chars_eq(s, &chars_of(b)) || chars_eq(s, &chars_of(c)) || chars_eq(
        s,
        &chars_of(d),
    )
}

/// The target one line of `build.ninja` declares, if any.
pub fn parse_cmake_ninja_build_line(line: &[char]) -> (r: Option<CmakeTarget>)
    ensures
        match r {
            Some(t) => ninja_line_target(line@) == Some(t@),
            None => ninja_line_target(line@) is None,
        },
{
    let l = trim_ws_exec(line);
    let prefix = chars_of("build ");
    if !has_prefix(&l, &prefix) {
        return None;
    }
    let rest = sub_chars(&l, prefix.len(), l.len());
    assert(rest@ =~= l@.skip(prefix@.len() as int));
    let mut colon: usize = 0;
    while colon < rest.len() && rest[colon] != ':'
        invariant
            colon <= rest.len(),
            forall|j: int| 0 <= j < colon ==> rest@[j] != ':',
        decreases rest.len() - colon,
    {
        colon = colon + 1;
    }
    proof {
        lemma_first_index_of_unique(rest@, ':', colon as int);
    }
    if colon == rest.len() {
        return None;
    }
    let outputs = sub_chars(&rest, 0, colon);
    let rule_and_inputs = sub_chars(&rest, colon + 1, rest.len());
    assert(outputs@ =~= rest@.take(colon as int));
    assert(rule_and_inputs@ =~= rest@.skip(colon + 1));
    let output = match primary_ninja_output(&outputs) {
        Some(o) => o,
        None => return None,
    };
    if output.len() == 0 || has_substring(&output, &chars_of("CMakeFiles/")) || has_substring(
        &output,
        &chars_of("CMakeFiles\\"),
    ) {
        return None;
    }
    let rule = match first_word_exec(&rule_and_inputs) {
        Some(w) => w,
        None => Vec::new(),
    };
    assert(rule@ == (match first_word(rule_and_inputs@) {
        Some(w) => w,
        None => Seq::<char>::empty(),
    }));
    if has_substring(&rule, &chars_of("EXECUTABLE_LINKER")) {
        let name = target_name_from_output(&output);
        let name_s = string_of(&name);
        if !is_user_buildable_cmake_target_name(name_s.as_str()) {
            return None;
        }
        return Some(CmakeTarget { name: name_s, output: Some(string_of(&output)), executable: true });
    }
    if chars_eq(&rule, &chars_of("phony")) {
        let name_s = string_of(&output);
        if !is_user_buildable_cmake_target_name(name_s.as_str()) || is_one_of(
            &output,
            "all",
            "clean",
            "edit_cache",
            "rebuild_cache",
        ) {
            return None;
        }
        return Some(CmakeTarget { name: name_s, output: None, executable: false });
    }
    None
}

/// The targets declared line by line in a `build.ninja` text, in order.
pub open spec fn ninja_targets(lines: Seq<Seq<char>>) -> Seq<CmakeTargetView>
    decreases lines.len(),
{
    if lines.len() == 0 {
        seq![]
    } else {
        let rest = ninja_targets(lines.drop_last());
        match ninja_line_target(lines.last()) {
            Some(t) => rest.push(t),
            None => rest,
        }
    }
}

/// The targets of a `build.ninja` text: those its lines declare (see
/// `ninja_line_target`), deduplicated. Lines are split at `\n`; a `\r`
/// before it is trimmed with the rest of the line.
pub fn parse_cmake_targets_from_ninja(contents: &str) -> (r: Vec<CmakeTarget>)
    ensures
        is_dedupe_of(targets_view(r@), ninja_targets(split_on(contents@, '\n'))),
{
    let cv = chars_of(contents);
    let lines = split_on_exec(&cv, '\n');
    let ghost ls = lines@.map_values(|v: Vec<char>| v@);
    let mut found: Vec<CmakeTarget> = Vec::new();
    let mut i: usize = 0;
    assert(ls.take(0) =~= Seq::<Seq<char>>::empty());
    assert(targets_view(found@) =~= seq![]);
    while i < lines.len()
        invariant
            ls == lines@.map_values(|v: Vec<char>| v@),
            i <= lines.len(),
            targets_view(found@) == ninja_targets(ls.take(i as int)),
        decreases lines.len() - i,
    {
        proof {
            assert(ls.take(i + 1).drop_last() =~= ls.take(i as int));
            assert(ls.take(i + 1).last() == lines@[i as int]@);
        }
        match parse_cmake_ninja_build_line(&lines[i]) {
            Some(t) => {
                let ghost before = targets_view(found@);
                found.push(t);
                assert(targets_view(found@) =~= before.push(t@));
            },
            None => {},
        }
        i = i + 1;
    }
    assert(ls.take(lines.len() as int) =~= ls);
    dedupe_cmake_targets(found)
}

} // verus!
