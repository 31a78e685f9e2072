//! Tasks for a custom toolchain.
use crate::config::schema::EffectiveConfig;
use vstd::prelude::*;

verus! {

/// a custom toolchain needs no environment of its own: tasks use the configuration as it
/// is.
pub fn prepare_task_config(config: &EffectiveConfig) -> (r: EffectiveConfig)
    ensures
        r@ == config@,
{
    config.duplicate()
}

} // verus!
