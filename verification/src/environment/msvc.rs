//! The MSVC toolset include directory.
use crate::paths::{highest_version_dir, is_highest_version_at, strs_of, trim_backslashes, trim_end_backslashes};
use crate::text::append_str;
use vstd::prelude::*;

verus! {

/// The include directory of a toolset version under a Visual Studio root.
pub open spec fn msvc_include_spec(vs_root: Seq<char>, version: Seq<char>) -> Seq<char> {
    trim_backslashes(vs_root) + "\\VC\\Tools\\MSVC\\"@ + version + "\\include"@
}

/// The include directory of the highest toolset version among `versions`
/// (directory names under `VC\Tools\MSVC`), the last one listed when several
/// are equally high; `None` when none of them is a version.
pub fn select_msvc_include(versions: &[&str], vs_root: &str) -> (r: Option<String>)
    ensures
        match r {
            Some(p) => exists|i: int|
                #![trigger strs_of(versions@)[i]]
                is_highest_version_at(strs_of(versions@), i) && p@ == msvc_include_spec(
                    vs_root@,
                    strs_of(versions@)[i],
                ) && forall|j: int|
                    i < j < versions@.len() && crate::paths::version_key(strs_of(versions@)[j]) is Some
                        ==> !crate::paths::lex_le(
                        crate::paths::version_key(strs_of(versions@)[i])->0,
                        crate::paths::version_key(#[trigger] strs_of(versions@)[j])->0,
                    ),
            None => forall|j: int|
                0 <= j < versions@.len() ==> crate::paths::version_key(#[trigger] versions@[j]@) is None,
        },
{
    match highest_version_dir(versions) {
        Some(version) => {
            let mut p = trim_end_backslashes(vs_root);
            append_str(&mut p, "\\VC\\Tools\\MSVC\\");
            append_str(&mut p, version);
            append_str(&mut p, "\\include");
            Some(p)
        },
        None => None,
    }
}

} // verus!
