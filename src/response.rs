use crate::asset::{coins_view, infos_view, AssetInfo, AssetInfoView, Coin, CoinView};
use crate::pool_new::{SlippageControl, SlippageControlView};
use crate::state::{PairType, PairTypeView};
use vstd::prelude::*;

verus! {

/// Reply id of the LP token's instantiation.
pub const INSTANTIATE_TOKEN_REPLY_ID: u64 = 1;

/// Reply id of the factory's creation of the backend pool.
pub const CREATE_UNDERLYING_POOL_REPLY_ID: u64 = 2;

/// One effect that an operation asks the host to carry out, in order.
#[derive(Clone, Debug, PartialEq, Eq)]
pub enum Msg {
    /// Instantiate the LP token contract with this contract as minter; the
    /// host replies with `INSTANTIATE_TOKEN_REPLY_ID` on success.
    InstantiateLpToken { code_id: u64, name: String, minter: String },
    /// Ask the factory to create the backend pool; the host replies with
    /// `CREATE_UNDERLYING_POOL_REPLY_ID` on success.
    CreatePool {
        factory: String,
        pair_type: PairType,
        asset_infos: Vec<AssetInfo>,
        init_params: Option<Vec<u8>>,
    },
    /// Pull `amount` of `token` from `owner` to `recipient` under an allowance.
    TransferFrom { token: String, owner: String, recipient: String, amount: u128 },
    /// Send `amount` of `token` to the denom adapter `adapter`, which wraps it.
    Wrap { token: String, adapter: String, amount: u128 },
    /// Mint `amount` LP tokens of `token` to `recipient`.
    Mint { token: String, recipient: String, amount: u128 },
    /// Send `amount` LP tokens of `token` to `generator` to stake for `beneficiary`.
    DepositFor { token: String, generator: String, beneficiary: String, amount: u128 },
    /// Burn `amount` of `token` held by this contract.
    Burn { token: String, amount: u128 },
    /// Provide `funds` as liquidity to the backend pool.
    ProvideLiquidity { pool: String, funds: Vec<Coin> },
    /// Return the LP shares in `funds` to the backend pool for its assets.
    WithdrawLiquidity { pool: String, funds: Vec<Coin> },
    /// Swap all of `funds` for `ask_denom` in the backend pool.
    SwapExactIn {
        pool: String,
        ask_denom: String,
        recipient: Option<String>,
        slippage_control: Option<SlippageControl>,
        funds: Vec<Coin>,
    },
    /// Hand wrapped coins to the adapter, which unwraps them and sends the
    /// tokens to `recipient` (to this contract when absent).
    RedeemAndTransfer { adapter: String, recipient: Option<String>, funds: Vec<Coin> },
    /// Send native coins.
    BankSend { to: String, amount: Vec<Coin> },
}

pub enum MsgView {
    InstantiateLpToken { code_id: u64, name: Seq<char>, minter: Seq<char> },
    CreatePool {
        factory: Seq<char>,
        pair_type: PairTypeView,
        asset_infos: Seq<AssetInfoView>,
        init_params: Option<Seq<u8>>,
    },
    TransferFrom { token: Seq<char>, owner: Seq<char>, recipient: Seq<char>, amount: u128 },
    Wrap { token: Seq<char>, adapter: Seq<char>, amount: u128 },
    Mint { token: Seq<char>, recipient: Seq<char>, amount: u128 },
    DepositFor { token: Seq<char>, generator: Seq<char>, beneficiary: Seq<char>, amount: u128 },
    Burn { token: Seq<char>, amount: u128 },
    ProvideLiquidity { pool: Seq<char>, funds: Seq<CoinView> },
    WithdrawLiquidity { pool: Seq<char>, funds: Seq<CoinView> },
    SwapExactIn {
        pool: Seq<char>,
        ask_denom: Seq<char>,
        recipient: Option<Seq<char>>,
        slippage_control: Option<SlippageControlView>,
        funds: Seq<CoinView>,
    },
    RedeemAndTransfer { adapter: Seq<char>, recipient: Option<Seq<char>>, funds: Seq<CoinView> },
    BankSend { to: Seq<char>, amount: Seq<CoinView> },
}

impl View for Msg {
    type V = MsgView;

    open spec fn view(&self) -> MsgView {
        match self {
            Msg::InstantiateLpToken { code_id, name, minter } => MsgView::InstantiateLpToken {
                code_id: *code_id,
                name: name@,
                minter: minter@,
            },
            Msg::CreatePool { factory, pair_type, asset_infos, init_params } => MsgView::CreatePool {
                factory: factory@,
                pair_type: pair_type@,
                asset_infos: infos_view(asset_infos@),
                init_params: match init_params {
                    Some(p) => Some(p@),
                    None => None,
                },
            },
            Msg::TransferFrom { token, owner, recipient, amount } => MsgView::TransferFrom {
                token: token@,
                owner: owner@,
                recipient: recipient@,
                amount: *amount,
            },
            Msg::Wrap { token, adapter, amount } => MsgView::Wrap {
                token: token@,
                adapter: adapter@,
                amount: *amount,
            },
            Msg::Mint { token, recipient, amount } => MsgView::Mint {
                token: token@,
                recipient: recipient@,
                amount: *amount,
            },
            Msg::DepositFor { token, generator, beneficiary, amount } => MsgView::DepositFor {
                token: token@,
                generator: generator@,
                beneficiary: beneficiary@,
                amount: *amount,
            },
            Msg::Burn { token, amount } => MsgView::Burn { token: token@, amount: *amount },
            Msg::ProvideLiquidity { pool, funds } => MsgView::ProvideLiquidity {
                pool: pool@,
                funds: coins_view(funds@),
            },
            Msg::WithdrawLiquidity { pool, funds } => MsgView::WithdrawLiquidity {
                pool: pool@,
                funds: coins_view(funds@),
            },
            Msg::SwapExactIn { pool, ask_denom, recipient, slippage_control, funds } =>
                MsgView::SwapExactIn {
                pool: pool@,
                ask_denom: ask_denom@,
                recipient: recipient.deep_view(),
                slippage_control: match slippage_control {
                    Some(s) => Some(s@),
                    None => None,
                },
                funds: coins_view(funds@),
            },
            Msg::RedeemAndTransfer { adapter, recipient, funds } => MsgView::RedeemAndTransfer {
                adapter: adapter@,
                recipient: recipient.deep_view(),
                funds: coins_view(funds@),
            },
            Msg::BankSend { to, amount } => MsgView::BankSend {
                to: to@,
                amount: coins_view(amount@),
            },
        }
    }
}

pub open spec fn msgs_view(v: Seq<Msg>) -> Seq<MsgView> {
    v.map_values(|m: Msg| m@)
}

/// A key and a value that describe what an operation did.
#[derive(Clone, Debug, PartialEq, Eq)]
pub struct Attribute {
    pub key: String,
    pub value: String,
}

impl View for Attribute {
    type V = (Seq<char>, Seq<char>);

    open spec fn view(&self) -> (Seq<char>, Seq<char>) {
        (self.key@, self.value@)
    }
}

pub open spec fn attrs_view(v: Seq<Attribute>) -> Seq<(Seq<char>, Seq<char>)> {
    v.map_values(|a: Attribute| a@)
}

/// The effects of an operation, in the order the host is to carry them out,
/// and the attributes that describe it.
#[derive(Clone, Debug, PartialEq, Eq)]
pub struct Response {
    pub messages: Vec<Msg>,
    pub attributes: Vec<Attribute>,
}

pub struct ResponseView {
    pub messages: Seq<MsgView>,
    pub attributes: Seq<(Seq<char>, Seq<char>)>,
}

impl View for Response {
    type V = ResponseView;

    open spec fn view(&self) -> ResponseView {
        ResponseView {
            messages: msgs_view(self.messages@),
            attributes: attrs_view(self.attributes@),
        }
    }
}

pub fn attr(key: &str, value: String) -> (r: Attribute)
    ensures
        r@ == (key@, value@),
{
    Attribute { key: String::from_str(key), value }
}

} // verus!
