use crate::asset::{assets_view, coins_view, Asset, AssetInfo, AssetInfoView, AssetView, Coin, CoinView};
use crate::contract::{
    backend_coins, check_execute_swap, check_provide_liquidity, check_receive_swap,
    check_withdraw_liquidity, execute_swap, is_pair_token, provide_check_spec,
    provide_liquidity, provide_liquidity_spec, receive_swap, result_view, swap_check_spec,
    swap_request_spec, swap_simulation_request, swap_spec, withdraw_check_spec,
    withdraw_liquidity, withdraw_liquidity_spec, backend_funds,
};
use crate::decimal::Decimal;
use crate::error::ContractError;
use crate::pair_new::Cw20HookMsg;
use crate::response::{Response, ResponseView};
use crate::state::{State, StateView};
use vstd::prelude::*;

verus! {

/// Tokens that a token contract has sent to the pair, with the hook
/// message that says what to do with them.
#[derive(Clone, Debug, PartialEq, Eq)]
pub struct Cw20ReceiveMsg {
    /// Who sent the tokens.
    pub sender: String,
    pub amount: u128,
    pub msg: Cw20HookMsg,
}

/// The legacy verbs that the pair is asked to perform.
#[derive(Clone, Debug, PartialEq, Eq)]
pub enum ExecuteMsg {
    /// A token contract's send hook.
    Receive(Cw20ReceiveMsg),
    ProvideLiquidity {
        assets: Vec<Asset>,
        slippage_tolerance: Option<Decimal>,
        auto_stake: Option<bool>,
        receiver: Option<String>,
    },
    Swap {
        offer_asset: Asset,
        ask_asset_info: Option<AssetInfo>,
        belief_price: Option<Decimal>,
        max_spread: Option<Decimal>,
        to: Option<String>,
    },
    UpdateConfig { params: Vec<u8> },
}

/// The backend simulation that a call needs before it can be answered.
#[derive(Clone, Debug, PartialEq, Eq)]
pub enum BackendRequest {
    /// The LP shares that depositing `assets` would mint; with
    /// `generator_needed`, the factory's generator too.
    SimulateProvideLiquidity { pool: String, assets: Vec<Coin>, generator_needed: bool },
    /// The coins that returning `amount` LP shares would pay out.
    SimulateWithdrawLiquidity { pool: String, amount: u128 },
    /// What swapping `offer` for `ask_denom` would return.
    SimulateSwapExactIn { pool: String, ask_denom: String, offer: Coin },
}

pub enum BackendRequestView {
    SimulateProvideLiquidity { pool: Seq<char>, assets: Seq<CoinView>, generator_needed: bool },
    SimulateWithdrawLiquidity { pool: Seq<char>, amount: u128 },
    SimulateSwapExactIn { pool: Seq<char>, ask_denom: Seq<char>, offer: CoinView },
}

impl View for BackendRequest {
    type V = BackendRequestView;

    open spec fn view(&self) -> BackendRequestView {
        match self {
            BackendRequest::SimulateProvideLiquidity { pool, assets, generator_needed } =>
                BackendRequestView::SimulateProvideLiquidity {
                pool: pool@,
                assets: coins_view(assets@),
                generator_needed: *generator_needed,
            },
            BackendRequest::SimulateWithdrawLiquidity { pool, amount } =>
                BackendRequestView::SimulateWithdrawLiquidity { pool: pool@, amount: *amount },
            BackendRequest::SimulateSwapExactIn { pool, ask_denom, offer } =>
                BackendRequestView::SimulateSwapExactIn {
                pool: pool@,
                ask_denom: ask_denom@,
                offer: offer@,
            },
        }
    }
}

/// The backend's answer to a [`BackendRequest`].
#[derive(Clone, Debug, PartialEq, Eq)]
pub enum BackendAnswer {
    /// The LP shares minted, and the generator when it was asked for.
    ProvideLiquidity { minted_lp: u128, generator: Option<String> },
    /// The coins paid out.
    WithdrawLiquidity { withdrawn: Vec<Coin> },
    /// The coin returned by the swap.
    SwapExactIn { returned: Coin },
}

pub open spec fn request_result_view(r: Result<BackendRequest, ContractError>) -> Result<
    BackendRequestView,
    ContractError,
> {
    match r {
        Ok(q) => Ok(q@),
        Err(e) => Err(e),
    }
}

/// The swap request for `offer`, once its checks have passed.
pub open spec fn swap_backend_request(s: StateView, offer: AssetView) -> BackendRequestView {
    let (ask_denom, coin) = swap_request_spec(s, offer)->Ok_0;
    BackendRequestView::SimulateSwapExactIn {
        pool: s.underlying->0.pool_addr,
        ask_denom,
        offer: coin,
    }
}

pub open spec fn receive_request_spec(
    s: StateView,
    caller: Seq<char>,
    funds: Seq<CoinView>,
    msg: Cw20ReceiveMsg,
) -> Result<BackendRequestView, ContractError> {
    match msg.msg {
        Cw20HookMsg::Swap { .. } => {
            let offer = AssetView { info: AssetInfoView::Token(caller), amount: msg.amount };
            if !is_pair_token(s, caller) {
                Err(ContractError::Unauthorized)
            } else if swap_check_spec(s, funds, offer) is Err {
                Err(swap_check_spec(s, funds, offer)->Err_0)
            } else {
                Ok(swap_backend_request(s, offer))
            }
        },
        Cw20HookMsg::WithdrawLiquidity { assets } => {
            if withdraw_check_spec(s, caller, assets@.len()) is Err {
                Err(withdraw_check_spec(s, caller, assets@.len())->Err_0)
            } else {
                Ok(
                    BackendRequestView::SimulateWithdrawLiquidity {
                        pool: s.underlying->0.pool_addr,
                        amount: msg.amount,
                    },
                )
            }
        },
    }
}

pub open spec fn execute_request_spec(
    s: StateView,
    sender: Seq<char>,
    funds: Seq<CoinView>,
    msg: ExecuteMsg,
) -> Result<BackendRequestView, ContractError> {
    match msg {
        ExecuteMsg::Receive(m) => receive_request_spec(s, sender, funds, m),
        ExecuteMsg::ProvideLiquidity { assets, auto_stake, .. } => {
            let av = assets_view(assets@);
            if provide_check_spec(s, funds, av) is Err {
                Err(provide_check_spec(s, funds, av)->Err_0)
            } else {
                Ok(
                    BackendRequestView::SimulateProvideLiquidity {
                        pool: s.underlying->0.pool_addr,
                        assets: backend_coins(s.config.cw20_adapter_addr, av),
                        generator_needed: auto_stake == Some(true),
                    },
                )
            }
        },
        ExecuteMsg::Swap { offer_asset, .. } => {
            if !offer_asset@.info.is_native() {
                Err(ContractError::Cw20DirectSwap)
            } else if swap_check_spec(s, funds, offer_asset@) is Err {
                Err(swap_check_spec(s, funds, offer_asset@)->Err_0)
            } else {
                Ok(swap_backend_request(s, offer_asset@))
            }
        },
        ExecuteMsg::UpdateConfig { .. } => Err(ContractError::NonSupported),
    }
}

fn swap_request(state: &State, offer: &Asset) -> (r: BackendRequest)
    requires
        state@.wf(),
        state@.underlying is Some,
        swap_request_spec(state@, offer@) is Ok,
    ensures
        r@ == swap_backend_request(state@, offer@),
{
    let (ask_denom, coin) = swap_simulation_request(state, offer).unwrap();
    BackendRequest::SimulateSwapExactIn { pool: pool_addr(state), ask_denom, offer: coin }
}

fn pool_addr(state: &State) -> (r: String)
    requires
        state@.underlying is Some,
    ensures
        r@ == state@.underlying->0.pool_addr,
{
    state.underlying.as_ref().unwrap().pool_addr.clone()
}

fn copy_text(o: &Option<String>) -> (r: Option<String>)
    ensures
        r.deep_view() == o.deep_view(),
{
    match o {
        Some(t) => Some(t.clone()),
        None => None,
    }
}

/// The backend simulation that a token's send hook needs, once every
/// refusal that comes before it has been ruled out.
pub fn receive_cw20_request(
    state: &State,
    caller: &String,
    funds: &Vec<Coin>,
    msg: &Cw20ReceiveMsg,
) -> (r: Result<BackendRequest, ContractError>)
    requires
        state@.wf(),
    ensures
        request_result_view(r) == receive_request_spec(state@, caller@, coins_view(funds@), *msg),
{
    match &msg.msg {
        Cw20HookMsg::Swap { .. } => {
            if let Err(e) = check_receive_swap(state, caller, funds, msg.amount) {
                return Err(e);
            }
            let offer = Asset { info: AssetInfo::Token { contract_addr: caller.clone() }, amount: msg.amount };
            Ok(swap_request(state, &offer))
        },
        Cw20HookMsg::WithdrawLiquidity { assets } => {
            if let Err(e) = check_withdraw_liquidity(state, caller, assets) {
                return Err(e);
            }
            Ok(BackendRequest::SimulateWithdrawLiquidity { pool: pool_addr(state), amount: msg.amount })
        },
    }
}

/// The backend simulation that a call from `sender` with `funds` needs,
/// once every refusal that comes before it has been ruled out.
pub fn execute_request(state: &State, sender: &String, funds: &Vec<Coin>, msg: &ExecuteMsg) -> (r: Result<
    BackendRequest,
    ContractError,
>)
    requires
        state@.wf(),
    ensures
        request_result_view(r) == execute_request_spec(state@, sender@, coins_view(funds@), *msg),
{
    match msg {
        ExecuteMsg::Receive(m) => receive_cw20_request(state, sender, funds, m),
        ExecuteMsg::ProvideLiquidity { assets, auto_stake, .. } => {
            if let Err(e) = check_provide_liquidity(state, funds, assets) {
                return Err(e);
            }
            let generator_needed = match auto_stake {
                Some(b) => *b,
                None => false,
            };
            Ok(
                BackendRequest::SimulateProvideLiquidity {
                    pool: pool_addr(state),
                    assets: backend_funds(&state.config.cw20_adapter_addr, assets),
                    generator_needed,
                },
            )
        },
        ExecuteMsg::Swap { offer_asset, .. } => {
            if let Err(e) = check_execute_swap(state, funds, offer_asset) {
                return Err(e);
            }
            Ok(swap_request(state, offer_asset))
        },
        ExecuteMsg::UpdateConfig { .. } => Err(ContractError::NonSupported),
    }
}

pub open spec fn receive_spec(
    s: StateView,
    caller: Seq<char>,
    funds: Seq<CoinView>,
    msg: Cw20ReceiveMsg,
    answer: BackendAnswer,
) -> Result<ResponseView, ContractError> {
    match msg.msg {
        Cw20HookMsg::Swap { belief_price, max_spread, to, .. } => match answer {
            BackendAnswer::SwapExactIn { returned } => if !is_pair_token(s, caller) {
                Err(ContractError::Unauthorized)
            } else {
                swap_spec(
                    s,
                    funds,
                    msg.sender@,
                    AssetView { info: AssetInfoView::Token(caller), amount: msg.amount },
                    belief_price,
                    max_spread,
                    to.deep_view(),
                    returned@,
                )
            },
            _ => Err(ContractError::UnexpectedBackendAnswer),
        },
        Cw20HookMsg::WithdrawLiquidity { assets } => match answer {
            BackendAnswer::WithdrawLiquidity { withdrawn } => withdraw_liquidity_spec(
                s,
                caller,
                msg.sender@,
                msg.amount,
                assets@.len(),
                coins_view(withdrawn@),
            ),
            _ => Err(ContractError::UnexpectedBackendAnswer),
        },
    }
}

pub open spec fn execute_spec(
    s: StateView,
    contract: Seq<char>,
    sender: Seq<char>,
    funds: Seq<CoinView>,
    msg: ExecuteMsg,
    answer: BackendAnswer,
) -> Result<ResponseView, ContractError> {
    match msg {
        ExecuteMsg::Receive(m) => receive_spec(s, sender, funds, m, answer),
        ExecuteMsg::ProvideLiquidity { assets, auto_stake, receiver, .. } => match answer {
            BackendAnswer::ProvideLiquidity { minted_lp, generator } => provide_liquidity_spec(
                s,
                contract,
                sender,
                funds,
                assets_view(assets@),
                auto_stake,
                receiver.deep_view(),
                minted_lp,
                generator.deep_view(),
            ),
            _ => Err(ContractError::UnexpectedBackendAnswer),
        },
        ExecuteMsg::Swap { offer_asset, belief_price, max_spread, to, .. } => match answer {
            BackendAnswer::SwapExactIn { returned } => if !offer_asset@.info.is_native() {
                Err(ContractError::Cw20DirectSwap)
            } else {
                swap_spec(
                    s,
                    funds,
                    sender,
                    offer_asset@,
                    belief_price,
                    max_spread,
                    to.deep_view(),
                    returned@,
                )
            },
            _ => Err(ContractError::UnexpectedBackendAnswer),
        },
        ExecuteMsg::UpdateConfig { .. } => Err(ContractError::NonSupported),
    }
}

/// Act on a token's send hook, forwarded by the token contract `caller`:
/// a swap of the tokens sent (only a token of the pair may ask), or a
/// redemption of LP tokens. `answer` is the backend's answer to the
/// request that [`receive_cw20_request`] gave.
pub fn receive_cw20(
    state: &State,
    caller: &String,
    funds: &Vec<Coin>,
    msg: &Cw20ReceiveMsg,
    answer: &BackendAnswer,
) -> (r: Result<Response, ContractError>)
    requires
        state@.wf(),
    ensures
        result_view(r) == receive_spec(state@, caller@, coins_view(funds@), *msg, *answer),
{
    match &msg.msg {
        Cw20HookMsg::Swap { belief_price, max_spread, to, .. } => match answer {
            BackendAnswer::SwapExactIn { returned } => receive_swap(
                state,
                caller,
                funds,
                &msg.sender,
                msg.amount,
                *belief_price,
                *max_spread,
                copy_text(to),
                returned,
            ),
            _ => Err(ContractError::UnexpectedBackendAnswer),
        },
        Cw20HookMsg::WithdrawLiquidity { assets } => match answer {
            BackendAnswer::WithdrawLiquidity { withdrawn } => withdraw_liquidity(
                state,
                caller,
                &msg.sender,
                msg.amount,
                assets,
                withdrawn,
            ),
            _ => Err(ContractError::UnexpectedBackendAnswer),
        },
    }
}

/// Perform a legacy verb for `sender`, who sent `funds`, at this contract
/// (`contract_addr`). `answer` is the backend's answer to the request that
/// [`execute_request`] gave; an answer of another kind is refused.
pub fn execute(
    state: &State,
    contract_addr: &String,
    sender: &String,
    funds: &Vec<Coin>,
    msg: &ExecuteMsg,
    answer: &BackendAnswer,
) -> (r: Result<Response, ContractError>)
    requires
        state@.wf(),
    ensures
        result_view(r) == execute_spec(
            state@,
            contract_addr@,
            sender@,
            coins_view(funds@),
            *msg,
            *answer,
        ),
{
    match msg {
        ExecuteMsg::Receive(m) => receive_cw20(state, sender, funds, m, answer),
        ExecuteMsg::ProvideLiquidity { assets, auto_stake, receiver, .. } => match answer {
            BackendAnswer::ProvideLiquidity { minted_lp, generator } => provide_liquidity(
                state,
                contract_addr,
                sender,
                funds,
                assets,
                *auto_stake,
                copy_text(receiver),
                *minted_lp,
                copy_text(generator),
            ),
            _ => Err(ContractError::UnexpectedBackendAnswer),
        },
        ExecuteMsg::Swap { offer_asset, belief_price, max_spread, to, .. } => match answer {
            BackendAnswer::SwapExactIn { returned } => execute_swap(
                state,
                sender,
                funds,
                offer_asset,
                *belief_price,
                *max_spread,
                copy_text(to),
                returned,
            ),
            _ => Err(ContractError::UnexpectedBackendAnswer),
        },
        ExecuteMsg::UpdateConfig { .. } => Err(ContractError::NonSupported),
    }
}

} // verus!
