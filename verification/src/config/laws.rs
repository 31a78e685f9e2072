//! What holds of configuration merging and resolution as a whole.
use crate::config::merge::{
    build_type_suffix_spec, chosen_preset, custom_style_message, default_preset_spec, explicit_build_dir_spec,
    infer_build_dir_spec, is_ascii_text, merge_spec, resolve_spec, resolved_build_dir, unwrap_or, HostPlatform,
};
use crate::text::{ascii_lower, ascii_lower_seq};
use crate::config::presets::preset_spec;
use crate::config::schema::{empty_user_config, BuildDirStyle, UserConfigView};
use crate::error::ToolkitErrorView;
use crate::text::all_ws;
use vstd::prelude::*;

verus! {

/// A configuration that sets nothing changes nothing: laying it over a
/// preset gives the preset.
pub proof fn law_merge_empty_is_identity(base: UserConfigView)
    ensures
        merge_spec(base, empty_user_config()) == base,
{
}

/// Laying a configuration over itself changes nothing.
pub proof fn law_merge_idempotent(config: UserConfigView)
    ensures
        merge_spec(config, config) == config,
{
}

/// Layering is associative: laying `b` and then `c` over `a` is laying
/// `c`-over-`b` over `a`.
pub proof fn law_merge_associative(a: UserConfigView, b: UserConfigView, c: UserConfigView)
    ensures
        merge_spec(merge_spec(a, b), c) == merge_spec(a, merge_spec(b, c)),
{
}

/// Without a user configuration the workspace gets its platform's default
/// preset — MSVC on Windows, Clang on macOS, GCC elsewhere — and it always
/// resolves.
pub proof fn law_default_preset_by_platform(host: HostPlatform)
    ensures
        resolve_spec(None, host) matches Ok(c) && c.preset == default_preset_spec(host),
        host == HostPlatform::Windows ==> default_preset_spec(host) == "msvc-cmake-ninja"@,
        host == HostPlatform::Linux ==> default_preset_spec(host) == "gcc-cmake-ninja"@,
        host == HostPlatform::Macos ==> default_preset_spec(host) == "clang-cmake-ninja"@,
{
    crate::config::merge::lemma_default_preset_resolves(host);
}

/// An explicit, non-blank `build_dir` is the build directory, whatever the
/// directory style says.
pub proof fn law_explicit_build_dir_wins(user: UserConfigView, host: HostPlatform, dir: Seq<char>)
    requires
        user.build.build_dir == Some(dir),
        !all_ws(dir),
        resolve_spec(Some(user), host) is Ok,
    ensures
        resolve_spec(Some(user), host) matches Ok(c) && c.build.build_dir == dir,
{
}

/// The custom directory style with no explicit build directory is refused
/// with its own message, for every built-in preset.
pub proof fn law_custom_style_requires_build_dir(user: UserConfigView, host: HostPlatform)
    requires
        preset_spec(chosen_preset(Some(user), host)) is Some,
        user.build.build_dir_style == Some(BuildDirStyle::Custom),
        user.build.build_dir is None,
    ensures
        resolve_spec(Some(user), host) == Err::<crate::config::schema::EffectiveConfigView, ToolkitErrorView>(
            ToolkitErrorView::IoMessage(custom_style_message()),
        ),
{
    let name = chosen_preset(Some(user), host);
    let preset = preset_spec(name)->0;
    assert(preset.build.build_dir is None);
    let merged = merge_spec(preset, user);
    assert(explicit_build_dir_spec(merged) is None);
}

/// A list the user sets (even an empty one) replaces the preset's
/// `extra_flags` and `query_driver`.
pub proof fn law_user_lists_replace_preset_lists(user: UserConfigView, host: HostPlatform)
    requires
        resolve_spec(Some(user), host) is Ok,
    ensures
        user.clangd.extra_flags matches Some(f) ==> resolve_spec(Some(user), host)->Ok_0.clangd.extra_flags == f,
        user.clangd.query_driver matches Some(q) ==> resolve_spec(Some(user), host)->Ok_0.clangd.query_driver == q,
{
}

proof fn lemma_literal_lower(upper: Seq<char>, lower: Seq<char>)
    requires
        upper.len() == lower.len(),
        forall|i: int| 0 <= i < upper.len() ==> ascii_lower(#[trigger] upper[i]) == lower[i],
    ensures
        ascii_lower_seq(upper) == lower,
{
    assert(ascii_lower_seq(upper) =~= lower);
}

/// For the CLion style the inferred build directory is `cmake-build-`
/// followed by the build type in lower case (for ASCII build types, as
/// `Debug`, `Release`, `RelWithDebInfo` and `MinSizeRel` are), so build
/// types that differ other than in letter case never share a directory;
/// resolving without an explicit directory uses exactly that directory.
pub proof fn law_clion_build_dir_is_lowercased_type(
    build_type: Seq<char>,
    other: Seq<char>,
    merged: UserConfigView,
)
    requires
        is_ascii_text(build_type),
        is_ascii_text(other),
    ensures
        infer_build_dir_spec(BuildDirStyle::Clion, build_type) == "cmake-build-"@ + ascii_lower_seq(build_type),
        ascii_lower_seq(build_type) != ascii_lower_seq(other) ==> infer_build_dir_spec(BuildDirStyle::Clion, build_type)
            != infer_build_dir_spec(BuildDirStyle::Clion, other),
        explicit_build_dir_spec(merged) is None && merged.build.build_dir_style == Some(BuildDirStyle::Clion)
            && is_ascii_text(unwrap_or(merged.build.build_type, "Debug"@)) ==> resolved_build_dir(merged)
            == "cmake-build-"@ + ascii_lower_seq(unwrap_or(merged.build.build_type, "Debug"@)),
{
    lemma_clion_suffix(build_type);
    lemma_clion_suffix(other);
    lemma_clion_suffix(unwrap_or(merged.build.build_type, "Debug"@));
    let a = infer_build_dir_spec(BuildDirStyle::Clion, build_type);
    let b = infer_build_dir_spec(BuildDirStyle::Clion, other);
    if ascii_lower_seq(build_type) != ascii_lower_seq(other) && a == b {
        let p = "cmake-build-"@;
        assert(a.skip(p.len() as int) =~= ascii_lower_seq(build_type));
        assert(b.skip(p.len() as int) =~= ascii_lower_seq(other));
    }
}

proof fn lemma_clion_suffix(build_type: Seq<char>)
    ensures
        is_ascii_text(build_type) ==> build_type_suffix_spec(build_type) == ascii_lower_seq(build_type),
{
    reveal_strlit("Debug");
    reveal_strlit("debug");
    reveal_strlit("Release");
    reveal_strlit("release");
    reveal_strlit("RelWithDebInfo");
    reveal_strlit("relwithdebinfo");
    reveal_strlit("MinSizeRel");
    reveal_strlit("minsizerel");
    if build_type == "Debug"@ {
        lemma_literal_lower("Debug"@, "debug"@);
    } else if build_type == "Release"@ {
        lemma_literal_lower("Release"@, "release"@);
    } else if build_type == "RelWithDebInfo"@ {
        lemma_literal_lower("RelWithDebInfo"@, "relwithdebinfo"@);
    } else if build_type == "MinSizeRel"@ {
        lemma_literal_lower("MinSizeRel"@, "minsizerel"@);
    }
}

} // verus!
