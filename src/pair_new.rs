use crate::asset::{assets_view, Asset, AssetInfo, AssetView};
use crate::decimal::Decimal;
use vstd::prelude::*;

verus! {

/// The pool's assets with their amounts, and the LP tokens in issue.
#[derive(Clone, Debug, PartialEq, Eq)]
pub struct PoolResponse {
    pub assets: Vec<Asset>,
    pub total_share: u128,
}

pub struct PoolResponseView {
    pub assets: Seq<AssetView>,
    pub total_share: u128,
}

impl View for PoolResponse {
    type V = PoolResponseView;

    open spec fn view(&self) -> PoolResponseView {
        PoolResponseView { assets: assets_view(self.assets@), total_share: self.total_share }
    }
}

/// The outcome of a simulated swap of a given offer.
#[derive(Clone, Copy, Debug, PartialEq, Eq, Structural)]
pub struct SimulationResponse {
    pub return_amount: u128,
    pub spread_amount: u128,
    pub commission_amount: u128,
}

/// The outcome of a simulated swap for a given return.
#[derive(Clone, Copy, Debug, PartialEq, Eq, Structural)]
pub struct ReverseSimulationResponse {
    pub offer_amount: u128,
    pub spread_amount: u128,
    pub commission_amount: u128,
}

/// The pair's configuration as the legacy interface reports it.
#[derive(Clone, Debug, PartialEq, Eq)]
pub struct ConfigResponse {
    pub block_time_last: u64,
    pub params: Option<Vec<u8>>,
    pub owner: String,
    pub factory_addr: String,
}

/// Fee sharing: `bps` of each swap's fee go to `recipient`.
#[derive(Clone, Debug, PartialEq, Eq)]
pub struct FeeShareConfig {
    pub bps: u16,
    pub recipient: String,
}

/// The cumulative prices of a pool.
#[derive(Clone, Debug, PartialEq, Eq)]
pub struct CumulativePricesResponse {
    pub assets: Vec<Asset>,
    pub total_share: u128,
    pub cumulative_prices: Vec<(AssetInfo, AssetInfo, u128)>,
}

/// A migration takes no arguments.
#[derive(Clone, Copy, Debug, PartialEq, Eq, Structural)]
pub struct MigrateMsg {}

/// Parameters of a constant-product pool.
#[derive(Clone, Copy, Debug, PartialEq, Eq, Structural)]
pub struct XYKPoolParams {
    /// Whether asset balances are tracked over blocks; off when absent.
    pub track_asset_balances: Option<bool>,
}

/// Configuration of a constant-product pool.
#[derive(Clone, Debug, PartialEq, Eq)]
pub struct XYKPoolConfig {
    pub track_asset_balances: bool,
    pub fee_share: Option<FeeShareConfig>,
}

/// Updates to a constant-product pool's parameters.
#[derive(Clone, Debug, PartialEq, Eq)]
pub enum XYKPoolUpdateParams {
    EnableAssetBalancesTracking,
    EnableFeeShare { fee_share_bps: u16, fee_share_address: String },
    DisableFeeShare,
}

/// Parameters of a stableswap pool.
#[derive(Clone, Debug, PartialEq, Eq)]
pub struct StablePoolParams {
    pub amp: u64,
    pub owner: Option<String>,
}

/// Configuration of a stableswap pool.
#[derive(Clone, Debug, PartialEq, Eq)]
pub struct StablePoolConfig {
    pub amp: Decimal,
    pub fee_share: Option<FeeShareConfig>,
}

/// Updates to a stableswap pool's parameters.
#[derive(Clone, Debug, PartialEq, Eq)]
pub enum StablePoolUpdateParams {
    StartChangingAmp { next_amp: u64, next_amp_time: u64 },
    StopChangingAmp {},
    EnableFeeShare { fee_share_bps: u16, fee_share_address: String },
    DisableFeeShare,
}

/// What a token contract's send hook may ask of the pair.
#[derive(Clone, Debug, PartialEq, Eq)]
pub enum Cw20HookMsg {
    /// Swap the tokens sent.
    Swap {
        ask_asset_info: Option<AssetInfo>,
        belief_price: Option<Decimal>,
        max_spread: Option<Decimal>,
        to: Option<String>,
    },
    /// Redeem the LP tokens sent; `assets` must be empty.
    WithdrawLiquidity { assets: Vec<Asset> },
}

/// The parameters of a legacy pair.
#[derive(Clone, Debug, PartialEq, Eq)]
pub struct InstantiateMsg {
    pub asset_infos: Vec<AssetInfo>,
    pub token_code_id: u64,
    pub factory_addr: String,
    pub init_params: Option<Vec<u8>>,
}

/// The queries of the legacy interface.
#[derive(Clone, Debug, PartialEq, Eq)]
pub enum QueryMsg {
    Pair {},
    Pool {},
    Config {},
    Share { amount: u128 },
    Simulation { offer_asset: Asset, ask_asset_info: Option<AssetInfo> },
    ReverseSimulation { offer_asset_info: Option<AssetInfo>, ask_asset: Asset },
    CumulativePrices {},
    QueryComputeD {},
    AssetBalanceAt { asset_info: AssetInfo, block_height: u64 },
    Observe { seconds_ago: u64 },
}

} // verus!
