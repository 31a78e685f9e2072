//! Windows SDK include directories.
use crate::environment::tools::{
    extends, is_listing_call, listed_names, powershell_list_directory_names, CommandRunner, RunnerCall,
};
use crate::error::ToolkitErrorView;
use crate::paths::{
    highest_version_dir, is_highest_version_at, strs_of, trim_backslashes, trim_end_backslashes,
};
use crate::text::{
    append_str, ascii_lower_exec, ascii_lower_seq, chars_eq, chars_of, copy_string, owned,
    strs_view,
};
use crate::environment::tools::TranscribedRunner;
use vstd::prelude::*;

verus! {

/// The include directories of one SDK version: `ucrt`, `um` and `shared`.
pub open spec fn sdk_includes_spec(root: Seq<char>, version: Seq<char>) -> Seq<Seq<char>> {
    let base = trim_backslashes(root) + "\\"@ + version + "\\"@;
    seq![base + "ucrt"@, base + "um"@, base + "shared"@]
}

/// Where the Windows 10/11 SDK headers live.
pub const KITS_INCLUDE_ROOT: &'static str = "C:\\Program Files (x86)\\Windows Kits\\10\\Include";

/// The include directories of the highest SDK version among `versions`
/// (directory names under the kits include root); none when no name is a
/// version.
pub fn select_windows_sdk_includes(versions: &[&str], kits_include_root: &str) -> (r: Vec<String>)
    ensures
        r@.len() == 0 ==> forall|j: int|
            0 <= j < versions@.len() ==> crate::paths::version_key(#[trigger] versions@[j]@) is None,
        r@.len() != 0 ==> exists|i: int|
            #![trigger strs_of(versions@)[i]]
            is_highest_version_at(strs_of(versions@), i) && strs_view(r@) == sdk_includes_spec(
                kits_include_root@,
                strs_of(versions@)[i],
            ),
{
    match highest_version_dir(versions) {
        Some(version) => {
            let mut base = trim_end_backslashes(kits_include_root);
            append_str(&mut base, "\\");
            append_str(&mut base, version);
            append_str(&mut base, "\\");
            let mut ucrt = copy_string(&base);
            append_str(&mut ucrt, "ucrt");
            let mut um = copy_string(&base);
            append_str(&mut um, "um");
            let mut shared = base;
            append_str(&mut shared, "shared");
            let r = vec![ucrt, um, shared];
            assert(strs_view(r@) =~= sdk_includes_spec(kits_include_root@, version@));
            r
        },
        None => Vec::new(),
    }
}

/// `a.eq_ignore_ascii_case(b)`.
pub fn eq_ignore_ascii_case(a: &str, b: &str) -> (r: bool)
    ensures
        r == (ascii_lower_seq(a@) == ascii_lower_seq(b@)),
{
    let la = ascii_lower_exec(&chars_of(a));
    let lb = ascii_lower_exec(&chars_of(b));
    chars_eq(&la, &lb)
}

/// Some name of `names` equals `kind`, ignoring ASCII case.
pub open spec fn has_name_ignoring_case(names: Seq<Seq<char>>, kind: Seq<char>) -> bool {
    exists|i: int| 0 <= i < names.len() && ascii_lower_seq(#[trigger] names[i]) == ascii_lower_seq(kind)
}

fn has_kind(children: &Vec<String>, kind: &str) -> (r: bool)
    ensures
        r == has_name_ignoring_case(strs_view(children@), kind@),
{
    let mut i: usize = 0;
    while i < children.len()
        invariant
            i <= children.len(),
            forall|j: int|
                0 <= j < i ==> ascii_lower_seq(#[trigger] strs_view(children@)[j]) != ascii_lower_seq(kind@),
        decreases children.len() - i,
    {
        if eq_ignore_ascii_case(children[i].as_str(), kind) {
            assert(strs_view(children@)[i as int] == children@[i as int]@);
            return true;
        }
        i = i + 1;
    }
    false
}

pub(crate) fn as_strs(v: &Vec<String>) -> (r: Vec<&str>)
    ensures
        strs_of(r@) == strs_view(v@),
{
    let mut r: Vec<&str> = Vec::new();
    let mut i: usize = 0;
    while i < v.len()
        invariant
            i <= v.len(),
            strs_of(r@) == strs_view(v@.take(i as int)),
        decreases v.len() - i,
    {
        let ghost before = r@;
        let s = v[i].as_str();
        r.push(s);
        assert(r@ == before.push(s));
        assert(v@.take(i + 1) == v@.take(i as int).push(v@[i as int]));
        assert(strs_of(before).len() == before.len());
        assert(strs_view(v@.take(i as int)).len() == i);
        assert(before.len() == i);
        assert forall|j: int| 0 <= j < i + 1 implies #[trigger] strs_of(r@)[j] == strs_view(
            v@.take(i + 1),
        )[j] by {
            if j < i {
                assert(strs_of(before)[j] == strs_view(v@.take(i as int))[j]);
            }
        }
        assert(strs_of(r@) =~= strs_view(v@.take(i + 1)));
        i = i + 1;
    }
    assert(v@.take(v.len() as int) =~= v@);
    r
}

/// Whether a version directory has all of `ucrt`, `um` and `shared`
/// (ignoring ASCII case).
pub open spec fn is_complete_sdk(children: Seq<Seq<char>>) -> bool {
    has_name_ignoring_case(children, "ucrt"@) && has_name_ignoring_case(children, "um"@)
        && has_name_ignoring_case(children, "shared"@)
}

/// The include directories of an SDK version whose directory holds
/// `children`: all three when it is complete and the name is a version, none
/// otherwise.
pub fn complete_sdk_includes(version: &str, children: &Vec<String>, kits_include_root: &str) -> (r: Vec<String>)
    ensures
        is_complete_sdk(strs_view(children@)) && crate::paths::version_key(version@) is Some ==> strs_view(r@)
            == sdk_includes_spec(kits_include_root@, version@),
        !(is_complete_sdk(strs_view(children@)) && crate::paths::version_key(version@) is Some) ==> r@.len() == 0,
{
    if has_kind(children, "ucrt") && has_kind(children, "um") && has_kind(children, "shared") {
        let single = vec![version];
        let r = select_windows_sdk_includes(single.as_slice(), kits_include_root);
        proof {
            let vs = strs_of(single@);
            assert(vs[0] == version@);
            if r@.len() != 0 {
                let i = choose|i: int|
                    #![trigger strs_of(single@)[i]]
                    is_highest_version_at(strs_of(single@), i) && strs_view(r@) == sdk_includes_spec(
                        kits_include_root@,
                        strs_of(single@)[i],
                    );
                assert(i == 0);
            } else {
                assert(single@[0]@ == version@);
            }
        }
        r
    } else {
        Vec::new()
    }
}

/// Some name is a version.
pub open spec fn has_highest_version(names: Seq<Seq<char>>) -> bool {
    exists|i: int| #[trigger] is_highest_version_at(names, i)
}

/// The transcript of the SDK lookup: the kits root is listed; when that
/// worked and some name is a version, the highest version's directory is
/// listed, and its three include directories are the result when it has
/// `ucrt`, `um` and `shared`. Anything else gives no directories.
pub open spec fn sdk_lookup(before: Seq<RunnerCall>, after: Seq<RunnerCall>, includes: Seq<Seq<char>>) -> bool {
    let n = before.len() as int;
    &&& extends(before, after)
    &&& after.len() > n
    &&& is_listing_call(after[n], KITS_INCLUDE_ROOT@)
    &&& match listed_names(after[n]) {
        Err(_) => after.len() == n + 1 && includes.len() == 0,
        Ok(versions) => if has_highest_version(versions) {
            exists|i: int|
                #[trigger] is_highest_version_at(versions, i) && {
                    &&& after.len() == n + 2
                    &&& is_listing_call(after[n + 1], KITS_INCLUDE_ROOT@ + "\\"@ + versions[i])
                    &&& match listed_names(after[n + 1]) {
                        Ok(children) => if is_complete_sdk(children) {
                            includes == sdk_includes_spec(KITS_INCLUDE_ROOT@, versions[i])
                        } else {
                            includes.len() == 0
                        },
                        Err(_) => includes.len() == 0,
                    }
                }
        } else {
            after.len() == n + 1 && includes.len() == 0
        },
    }
}

/// Finds the include directories of the highest complete Windows SDK: the
/// highest version directory under the kits root, when it has `ucrt`, `um`
/// and `shared`. Any failure gives no directories.
pub fn discover_windows_sdk_includes<R: CommandRunner>(runner: &mut TranscribedRunner<R>) -> (r: Vec<String>)
    ensures
        extends(old(runner).transcript(), final(runner).transcript()),
        sdk_lookup(old(runner).transcript(), final(runner).transcript(), strs_view(r@)),
        r@.len() == 0 || exists|v: Seq<char>| strs_view(r@) == sdk_includes_spec(KITS_INCLUDE_ROOT@, v),
{
    let kits_include_root = KITS_INCLUDE_ROOT;
    let ghost n = old(runner).transcript().len() as int;
    let versions = match powershell_list_directory_names(runner, kits_include_root) {
        Ok(v) => v,
        Err(_) => return Vec::new(),
    };
    let ghost listed = runner.transcript();
    let ghost names = strs_view(versions@);
    assert(listed_names(listed[n]) == Ok::<Seq<Seq<char>>, ToolkitErrorView>(names));
    let version_strs = as_strs(&versions);
    let ghost mut highest: int = 0;
    let version = match highest_version_dir(version_strs.as_slice()) {
        Some(v) => {
            proof {
                highest = choose|i: int|
                    #![trigger strs_of(version_strs@)[i]]
                    is_highest_version_at(strs_of(version_strs@), i) && v@ == strs_of(version_strs@)[i];
            }
            owned(v)
        },
        None => {
            proof {
                if has_highest_version(names) {
                    let i = choose|i: int| #[trigger] is_highest_version_at(names, i);
                    assert(crate::paths::version_key(version_strs@[i]@) is None);
                }
            }
            return Vec::new();
        },
    };
    assert(is_highest_version_at(names, highest) && version@ == names[highest]);
    let mut version_root = owned(kits_include_root);
    append_str(&mut version_root, "\\");
    append_str(&mut version_root, version.as_str());
    let children = match powershell_list_directory_names(runner, version_root.as_str()) {
        Ok(c) => c,
        Err(_) => {
            assert(runner.transcript()[n] == listed[n]);
            return Vec::new();
        },
    };
    let r = complete_sdk_includes(version.as_str(), &children, kits_include_root);
    assert(runner.transcript()[n] == listed[n]);
    r
}

} // verus!
