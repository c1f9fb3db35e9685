use crate::decimal::Decimal;
use vstd::prelude::*;

verus! {

/// Parameters unique to a stableswap backend pool.
#[derive(Clone, Copy, Debug, PartialEq, Eq, Structural)]
pub struct StablePoolParams {
    /// The current amplification.
    pub amp: Decimal,
}

/// Starting and stopping a change of a stableswap backend pool's amplification.
#[derive(Clone, Copy, Debug, PartialEq, Eq, Structural)]
pub enum StablePoolConfigUpdates {
    StartChangingAmp { next_amp: u64, next_amp_time: u64 },
    StopChangingAmp {},
}

} // verus!
