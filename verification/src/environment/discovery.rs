//! The MSVC environment as a whole.
use crate::environment::msvc::{msvc_include_spec, select_msvc_include};
use crate::environment::vswhere::installation_path_spec;
use crate::environment::windows_sdk::{sdk_includes_spec, KITS_INCLUDE_ROOT};
use crate::paths::{is_highest_version_at, strs_of};
use crate::environment::tools::{
    answer_stdout, extends, is_listing_call, listed_names, powershell_list_directory_names, CommandRunner,
    RunnerCall,
};
use crate::environment::vswhere::{visual_studio_from_answer, vswhere_args_spec, VSWHERE_PATH};
use crate::environment::windows_sdk::{as_strs, has_highest_version, sdk_lookup};
use crate::error::ToolkitErrorView;
use crate::environment::vswhere::discover_visual_studio;
use crate::environment::windows_sdk::discover_windows_sdk_includes;
use crate::error::{ToolkitError, ToolkitResult};
use crate::paths::{trim_backslashes, trim_end_backslashes};
use crate::text::{append_str, strs_view};
use crate::environment::tools::TranscribedRunner;
use vstd::prelude::*;

verus! {

/// Where the MSVC headers of a Visual Studio installation live.
#[derive(Debug, Clone, PartialEq, Eq)]
pub struct MsvcEnvironment {
    pub visual_studio_root: String,
    pub msvc_include: String,
    pub sdk_includes: Vec<String>,
}

/// What a discovered environment is made of: the Visual Studio root is
/// the path `vswhere` printed, the MSVC include is that of the highest
/// toolset version listed, and the SDK includes are either none or the
/// three of one SDK version.
pub open spec fn is_discovered_environment(env: MsvcEnvironment) -> bool {
    &&& exists|stdout: Seq<char>| #[trigger] installation_path_spec(stdout) == Some(env.visual_studio_root@)
    &&& exists|versions: Seq<Seq<char>>, i: int|
        #![trigger is_highest_version_at(versions, i)]
        is_highest_version_at(versions, i) && env.msvc_include@ == msvc_include_spec(
            env.visual_studio_root@,
            versions[i],
        )
    &&& env.sdk_includes@.len() == 0 || exists|v: Seq<char>|
        strs_view(env.sdk_includes@) == #[trigger] sdk_includes_spec(KITS_INCLUDE_ROOT@, v)
}

/// What a discovery found, as its model: the Visual Studio root, the MSVC
/// include directory and the SDK include directories.
pub open spec fn found_view(r: ToolkitResult<MsvcEnvironment>) -> Option<(Seq<char>, Seq<char>, Seq<Seq<char>>)> {
    match r {
        Ok(env) => Some((env.visual_studio_root@, env.msvc_include@, strs_view(env.sdk_includes@))),
        Err(_) => None,
    }
}

/// The transcript of discovering the MSVC environment: the `vswhere`
/// query; when it found an installation, the listing of its
/// `VC\Tools\MSVC`; when some name there is a version, the SDK lookup.
/// What is found is the installation, the include directory of its
/// highest toolset version, and what the SDK lookup gave; anything else
/// finds nothing.
pub open spec fn msvc_discovery(
    before: Seq<RunnerCall>,
    after: Seq<RunnerCall>,
    found: Option<(Seq<char>, Seq<char>, Seq<Seq<char>>)>,
) -> bool {
    let n = before.len() as int;
    &&& extends(before, after)
    &&& after.len() > n
    &&& after[n].program == VSWHERE_PATH@
    &&& after[n].args == vswhere_args_spec()
    &&& match visual_studio_from_answer(answer_stdout(VSWHERE_PATH@, after[n].answer)) {
        Err(_) => after.len() == n + 1 && found is None,
        Ok(vs_root) => {
            &&& after.len() > n + 1
            &&& is_listing_call(after[n + 1], trim_backslashes(vs_root) + "\\VC\\Tools\\MSVC"@)
            &&& match listed_names(after[n + 1]) {
                Err(_) => after.len() == n + 2 && found is None,
                Ok(versions) => if has_highest_version(versions) {
                    exists|i: int, sdks: Seq<Seq<char>>|
                        #![trigger is_highest_version_at(versions, i), sdk_lookup(after.take(n + 2), after, sdks)]
                        {
                            &&& is_highest_version_at(versions, i)
                            &&& sdk_lookup(after.take(n + 2), after, sdks)
                            &&& found == Some((vs_root, msvc_include_spec(vs_root, versions[i]), sdks))
                        }
                } else {
                    after.len() == n + 2 && found is None
                },
            }
        },
    }
}

/// Discovers Visual Studio, the include directory of its highest MSVC
/// toolset, and the Windows SDK includes. Fails when Visual Studio or a
/// toolset cannot be found; a missing SDK only leaves `sdk_includes` empty.
pub fn discover_msvc_environment<R: CommandRunner>(runner: &mut TranscribedRunner<R>) -> (r: ToolkitResult<MsvcEnvironment>)
    ensures
        extends(old(runner).transcript(), final(runner).transcript()),
        msvc_discovery(old(runner).transcript(), final(runner).transcript(), found_view(r)),
        r matches Ok(env) ==> is_discovered_environment(env),
{
    let ghost n = old(runner).transcript().len() as int;
    let visual_studio_root = match discover_visual_studio(runner) {
        Ok(v) => v,
        Err(e) => return Err(e),
    };
    let ghost asked = runner.transcript();
    let mut toolsets_root = trim_end_backslashes(visual_studio_root.as_str());
    append_str(&mut toolsets_root, "\\VC\\Tools\\MSVC");
    let versions = match powershell_list_directory_names(runner, toolsets_root.as_str()) {
        Ok(v) => v,
        Err(e) => {
            assert(runner.transcript()[n] == asked[n]);
            return Err(e);
        },
    };
    let ghost listed = runner.transcript();
    let ghost names = strs_view(versions@);
    assert(runner.transcript()[n] == asked[n]);
    assert(listed_names(listed[n + 1]) == Ok::<Seq<Seq<char>>, ToolkitErrorView>(names));
    let version_strs = as_strs(&versions);
    let msvc_include = match select_msvc_include(version_strs.as_slice(), visual_studio_root.as_str()) {
        Some(p) => p,
        None => {
            proof {
                if has_highest_version(names) {
                    let i = choose|i: int| #[trigger] is_highest_version_at(names, i);
                    assert(crate::paths::version_key(version_strs@[i]@) is None);
                }
            }
            return Err(ToolkitError::MissingMsvcToolset);
        },
    };
    let ghost highest = choose|i: int|
        #![trigger strs_of(version_strs@)[i]]
        is_highest_version_at(strs_of(version_strs@), i) && msvc_include@ == msvc_include_spec(
            visual_studio_root@,
            strs_of(version_strs@)[i],
        );
    assert(is_highest_version_at(names, highest));
    let sdk_includes = discover_windows_sdk_includes(runner);
    proof {
        assert(runner.transcript()[n] == asked[n]);
        assert(runner.transcript()[n + 1] == listed[n + 1]);
        assert(runner.transcript().take(n + 2) =~= listed);
        assert(is_highest_version_at(strs_of(version_strs@), highest));
    }
    Ok(MsvcEnvironment { visual_studio_root, msvc_include, sdk_includes })
}

} // verus!
