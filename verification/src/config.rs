use vstd::prelude::*;

verus! {

/// Tunable settings of the application.
#[derive(Clone, Debug)]
pub struct ShuiqiOptions {
    /// Quiet time, in milliseconds, that must pass after the last resize
    /// notification before the resize is applied.
    pub resize_interval: u128,
}

impl Default for ShuiqiOptions {
    fn default() -> (options: Self)
        ensures
            options.resize_interval == 250,
    {
        ShuiqiOptions { resize_interval: 250 }
    }
}

} // verus!
