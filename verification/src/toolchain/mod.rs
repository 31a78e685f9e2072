//! Per-toolchain adjustments of the configuration used for tasks.
pub mod clang;
pub mod custom;
pub mod gcc;
pub mod msvc;

use crate::config::schema::EffectiveConfig;
use crate::environment::tools::CommandRunner;
use crate::error::ToolkitResult;
use crate::text::str_eq;
use crate::environment::tools::TranscribedRunner;
use vstd::prelude::*;

verus! {

/// The configuration tasks are generated from: for the `msvc` toolchain the
/// commands run inside the Visual Studio developer environment (a failure
/// to find Visual Studio is passed on); every other toolchain uses the
/// configuration as it is.
pub fn prepare_task_config<R: CommandRunner>(config: &EffectiveConfig, runner: &mut TranscribedRunner<R>) -> (r: ToolkitResult<
    EffectiveConfig,
>)
    ensures
        config.toolchain.name@ != "msvc"@ ==> (r matches Ok(c) && c@ == config@),
        config.toolchain.name@ != "msvc"@ ==> final(runner).transcript() == old(runner).transcript(),
        config.toolchain.name@ == "msvc"@ ==> crate::environment::tools::one_more_call(
            old(runner).transcript(),
            final(runner).transcript(),
            crate::environment::vswhere::VSWHERE_PATH@,
            crate::environment::vswhere::vswhere_args_spec(),
        ),
        config.toolchain.name@ == "msvc"@ ==> match msvc::prepared_for_answer(
            config@,
            final(runner).transcript().last().answer,
        ) {
            Ok(c) => r matches Ok(p) && p@ == c,
            Err(e) => r matches Err(x) && x@ == e,
        },
{
    proof {
        reveal_strlit("msvc");
        reveal_strlit("gcc");
        reveal_strlit("clang");
    }
    if str_eq(config.toolchain.name.as_str(), "msvc") {
        msvc::prepare_task_config(config, runner)
    } else if str_eq(config.toolchain.name.as_str(), "gcc") {
        Ok(gcc::prepare_task_config(config))
    } else if str_eq(config.toolchain.name.as_str(), "clang") {
        Ok(clang::prepare_task_config(config))
    } else {
        Ok(custom::prepare_task_config(config))
    }
}

} // verus!
