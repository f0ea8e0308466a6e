//! Process-wide configuration of the native library, held as a value.
use vstd::prelude::*;

verus! {

/// The native library's global settings: today only the logging verbosity.
pub struct GlobalConfig {
    verbosity: i32,
}

impl GlobalConfig {
    /// The verbosity level that this configuration holds.
    pub closed spec fn level(&self) -> i32 {
        self.verbosity
    }

    /// This configuration with its verbosity level replaced.
    pub closed spec fn with_verbosity(self, verbosity: i32) -> GlobalConfig {
        GlobalConfig { verbosity, ..self }
    }

    /// A configuration with the given verbosity level.
    pub fn new(verbosity: i32) -> (r: GlobalConfig)
        ensures
            r.level() == verbosity,
    {
        GlobalConfig { verbosity }
    }
}

/// Sets the logging verbosity; every other setting is left as it was.
pub fn set_verbosity(config: &mut GlobalConfig, verbosity: i32)
    ensures
        *final(config) == old(config).with_verbosity(verbosity),
        final(config).level() == verbosity,
{
    config.verbosity = verbosity;
}

/// The current logging verbosity.
pub fn verbosity(config: &GlobalConfig) -> (r: i32)
    ensures
        r == config.level(),
{
    config.verbosity
}

/// Reading the verbosity right after setting it gives back the level that was set,
/// whatever the configuration held before.
pub proof fn set_then_get(config: GlobalConfig, verbosity: i32)
    ensures
        config.with_verbosity(verbosity).level() == verbosity,
{
}

} // verus!
