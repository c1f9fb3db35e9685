use vstd::prelude::*;

verus! {

/// Parameters unique to a constant-product backend pool.
#[derive(Clone, Copy, Debug, PartialEq, Eq, Structural)]
pub struct XYKPoolParams {
    /// Whether asset balances are tracked over blocks.
    pub track_asset_balances: bool,
}

/// The configuration update that a constant-product backend pool accepts.
#[derive(Clone, Copy, Debug, PartialEq, Eq, Structural)]
pub enum XYKPoolConfigUpdates {
    /// Start tracking asset balances over blocks.
    EnableAssetBalancesTracking,
}

} // verus!
