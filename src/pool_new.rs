use crate::asset::{coins_view, Coin, CoinView};
use crate::decimal::Decimal;
use vstd::prelude::*;

verus! {

/// A price of `base_asset` quoted in `quote_asset`.
#[derive(Clone, Debug, PartialEq, Eq)]
pub struct Price {
    pub base_asset: String,
    pub quote_asset: String,
    pub price: Decimal,
}

pub struct PriceView {
    pub base_asset: Seq<char>,
    pub quote_asset: Seq<char>,
    pub price: Decimal,
}

impl View for Price {
    type V = PriceView;

    open spec fn view(&self) -> PriceView {
        PriceView {
            base_asset: self.base_asset@,
            quote_asset: self.quote_asset@,
            price: self.price,
        }
    }
}

/// Reverts a backend action whose price strays too far from `belief_price`.
#[derive(Clone, Debug, PartialEq, Eq)]
pub struct SlippageControl {
    pub belief_price: Price,
    pub slippage_tolerance: Decimal,
}

pub struct SlippageControlView {
    pub belief_price: PriceView,
    pub slippage_tolerance: Decimal,
}

impl View for SlippageControl {
    type V = SlippageControlView;

    open spec fn view(&self) -> SlippageControlView {
        SlippageControlView {
            belief_price: self.belief_price@,
            slippage_tolerance: self.slippage_tolerance,
        }
    }
}

/// The kinds of backend pool.
#[derive(Clone, Debug, PartialEq, Eq)]
#[non_exhaustive]
pub enum PoolType {
    Xyk {},
    Stable {},
    Pcl {},
    Custom(String),
}

/// What the backend reports of its reserves and LP supply.
#[derive(Clone, Debug, PartialEq, Eq)]
pub struct PoolSateResponse {
    pub pool_reserves: Vec<Coin>,
    pub lp_token_supply: Coin,
}

/// What the backend reports of a simulated swap.
#[derive(Clone, Debug, PartialEq, Eq)]
pub struct SimulateSwapResponse {
    pub offer_assets: Vec<Coin>,
    pub return_asset: Coin,
    pub price_impact: Decimal,
    pub commission: Coin,
    pub slippage: Decimal,
    pub reserves_after: Vec<Coin>,
}

pub struct SimulateSwapResponseView {
    pub offer_assets: Seq<CoinView>,
    pub return_asset: CoinView,
    pub commission: CoinView,
    pub slippage: Decimal,
}

impl View for SimulateSwapResponse {
    type V = SimulateSwapResponseView;

    open spec fn view(&self) -> SimulateSwapResponseView {
        SimulateSwapResponseView {
            offer_assets: coins_view(self.offer_assets@),
            return_asset: self.return_asset@,
            commission: self.commission@,
            slippage: self.slippage,
        }
    }
}

/// A backend migration takes no arguments.
#[derive(Clone, Copy, Debug, PartialEq, Eq, Structural)]
pub struct MigrateMsg {}

/// The parameters of a new backend pool.
#[derive(Clone, Debug, PartialEq, Eq)]
pub struct InstantiateMsg {
    /// The denoms of the pool's assets.
    pub reserve_denoms: Vec<String>,
    pub factory_addr: String,
    /// Serialised parameters of the pool type.
    pub init_params: Option<Vec<u8>>,
}

/// What a flash loan's borrower is sent along with the loan.
#[derive(Clone, Debug, PartialEq, Eq)]
pub struct FlashLoanHookMsg {
    /// Each coin is one way of paying the loan back.
    pub required_payment: Vec<Coin>,
    pub msg: Option<Vec<u8>>,
}

/// Fee sharing: `bps` of each swap's fee go to `recipient`.
#[derive(Clone, Debug, PartialEq, Eq)]
pub struct FeeShareConfig {
    pub bps: u16,
    pub recipient: String,
}

/// Changes to a backend pool's configuration; absent fields stay.
#[derive(Clone, Debug, PartialEq, Eq)]
pub struct ConfigUpdates {
    pub owner: Option<String>,
    pub factory_addr: Option<String>,
    pub fee_share: Option<FeeShareConfig>,
    /// Serialised parameters of the pool type.
    pub params: Option<Vec<u8>>,
}

/// The actions of a backend pool.
#[derive(Clone, Debug, PartialEq, Eq)]
pub enum ExecuteMsg {
    ProvideLiquidity {
        auto_stake: Option<bool>,
        recipient: Option<String>,
        min_out: Option<u128>,
        slippage_control: Option<SlippageControl>,
    },
    WithdrawLiquidity { min_out: Vec<Coin>, slippage_control: Option<SlippageControl> },
    SwapExactIn {
        ask_denom: String,
        recipient: Option<String>,
        min_out: Option<u128>,
        slippage_control: Option<SlippageControl>,
    },
    SwapExactOut {
        ask: Coin,
        recipient: Option<String>,
        max_in: Option<Vec<Coin>>,
        slippage_control: Option<SlippageControl>,
    },
    FlashLoan { receive: Coin, recipient_contract: Option<String>, msg: Option<Vec<u8>> },
    UpdateConfig { updates: ConfigUpdates },
}

/// The queries of a backend pool.
#[derive(Clone, Debug, PartialEq, Eq)]
pub enum QueryMsg {
    PoolInfo {},
    PoolState {},
    Config {},
    SimulateProvideLiquidity { assets: Vec<Coin>, reserves: Option<Vec<Coin>> },
    SimulateWithdrawLiquidity { amount: u128, reserves: Option<Vec<Coin>> },
    SimulateSwapExactIn { ask_denom: String, offer_assets: Vec<Coin>, reserves: Option<Vec<Coin>> },
    SimulateSwapExactOut { ask: Coin, offer_denom: String, reserves: Option<Vec<Coin>> },
    TwapPrice { base_denom: String, quote_denom: String, start_time: u64, end_time: u64 },
    OracleObservations { limit: Option<u32>, start_after: Option<u64> },
    PoolReservesAtHeight { block_height: u64 },
}

/// What a backend pool is: its denoms, address, LP denom and kind.
#[derive(Clone, Debug, PartialEq, Eq)]
pub struct PoolInfoResponse {
    pub reserve_denoms: Vec<String>,
    pub contract_addr: String,
    pub liquidity_token_denom: String,
    pub pool_type: PoolType,
}

/// A backend pool's configuration.
#[derive(Clone, Debug, PartialEq, Eq)]
pub struct ConfigResponse {
    pub owner: String,
    pub factory_addr: String,
    pub fee_share: Option<FeeShareConfig>,
    /// Serialised parameters of the pool type.
    pub params: Vec<u8>,
}

} // verus!
