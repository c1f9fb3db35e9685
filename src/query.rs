use crate::asset::{
    asset_of_backend_coin, assets_view, backend_denom, coins_view, from_backend_coin,
    to_backend_denom, Asset, AssetView, Coin, CoinView,
};
use crate::contract::counter_asset;
use crate::decimal::{checked_mul_floor, mul_floor_spec};
use crate::error::ContractError;
use crate::pair_new::{
    ConfigResponse, PoolResponse, PoolResponseView, QueryMsg, ReverseSimulationResponse,
    SimulationResponse,
};
use crate::pool_new::{PoolSateResponse, SimulateSwapResponse, SimulateSwapResponseView};
use crate::state::{State, StateView, UnderlyingPool};
use vstd::prelude::*;

verus! {

/// Backend coins read back as legacy assets.
pub open spec fn assets_of_backend_coins(adapter: Seq<char>, coins: Seq<CoinView>) -> Seq<AssetView> {
    coins.map_values(|c: CoinView| asset_of_backend_coin(adapter, c))
}

/// The backend pool, which every operation but bootstrap needs.
pub fn backend_pool(state: &State) -> (r: Result<&UnderlyingPool, ContractError>)
    ensures
        match r {
            Ok(u) => state.underlying == Some(*u),
            Err(e) => state.underlying is None && e == ContractError::NotInitialized,
        },
{
    match &state.underlying {
        Some(u) => Ok(u),
        None => Err(ContractError::NotInitialized),
    }
}

/// Backend coins read back as legacy assets, in the same order.
pub fn assets_from_backend(adapter: &String, coins: &Vec<Coin>) -> (r: Vec<Asset>)
    ensures
        assets_view(r@) == assets_of_backend_coins(adapter@, coins_view(coins@)),
{
    let ghost cv = coins_view(coins@);
    let mut r: Vec<Asset> = Vec::new();
    let mut i: usize = 0;
    while i < coins.len()
        invariant
            i <= coins.len(),
            cv == coins_view(coins@),
            assets_view(r@) == assets_of_backend_coins(adapter@, cv.take(i as int)),
        decreases coins.len() - i,
    {
        let a = from_backend_coin(adapter, &coins[i]);
        let ghost before = r@;
        r.push(a);
        proof {
            assert(assets_view(r@) =~= assets_view(before).push(a@));
            assert(assets_of_backend_coins(adapter@, cv.take(i + 1)) =~= assets_of_backend_coins(
                adapter@,
                cv.take(i as int),
            ).push(asset_of_backend_coin(adapter@, cv[i as int])));
        }
        i = i + 1;
    }
    proof {
        assert(cv.take(coins.len() as int) =~= cv);
    }
    r
}

/// The pool's reserves and LP supply in legacy form, from the backend's
/// report of its state.
pub fn query_pool(state: &State, pool_state: &PoolSateResponse) -> (r: Result<
    PoolResponse,
    ContractError,
>)
    ensures
        state@.underlying is None ==> r == Err::<PoolResponse, ContractError>(
            ContractError::NotInitialized,
        ),
        state@.underlying is Some ==> r is Ok && r->Ok_0@ == (PoolResponseView {
            assets: assets_of_backend_coins(
                state@.config.cw20_adapter_addr,
                coins_view(pool_state.pool_reserves@),
            ),
            total_share: pool_state.lp_token_supply.amount,
        }),
{
    if let Err(e) = backend_pool(state) {
        return Err(e);
    }
    Ok(
        PoolResponse {
            assets: assets_from_backend(&state.config.cw20_adapter_addr, &pool_state.pool_reserves),
            total_share: pool_state.lp_token_supply.amount,
        },
    )
}

/// What a share of the pool would withdraw, in legacy form, from the
/// backend's simulation of that withdrawal.
pub fn query_share(state: &State, withdrawn: &Vec<Coin>) -> (r: Result<Vec<Asset>, ContractError>)
    ensures
        state@.underlying is None ==> r == Err::<Vec<Asset>, ContractError>(
            ContractError::NotInitialized,
        ),
        state@.underlying is Some ==> r is Ok && assets_view(r->Ok_0@) == assets_of_backend_coins(
            state@.config.cw20_adapter_addr,
            coins_view(withdrawn@),
        ),
{
    if let Err(e) = backend_pool(state) {
        return Err(e);
    }
    Ok(assets_from_backend(&state.config.cw20_adapter_addr, withdrawn))
}

pub open spec fn simulation_spec(
    s: StateView,
    offer: AssetView,
    sim: SimulateSwapResponseView,
) -> Result<SimulationResponse, ContractError> {
    if counter_asset(s.config.pair_info.asset_infos, offer.info) is None {
        Err(ContractError::AssetMismatch)
    } else if s.underlying is None {
        Err(ContractError::NotInitialized)
    } else if mul_floor_spec(sim.return_asset.amount, sim.slippage) > u128::MAX {
        Err(ContractError::Overflow)
    } else {
        Ok(
            SimulationResponse {
                return_amount: sim.return_asset.amount,
                spread_amount: mul_floor_spec(sim.return_asset.amount, sim.slippage) as u128,
                commission_amount: sim.commission.amount,
            },
        )
    }
}

/// A swap of `offer_asset` in legacy form, from the backend's simulation of
/// it (see [`crate::contract::swap_simulation_request`]): the spread is the
/// slippage fraction of the returned amount.
pub fn query_simulation(state: &State, offer_asset: &Asset, sim: &SimulateSwapResponse) -> (r: Result<
    SimulationResponse,
    ContractError,
>)
    requires
        state@.wf(),
    ensures
        r == simulation_spec(state@, offer_asset@, sim@),
{
    let infos = &state.config.pair_info.asset_infos;
    if !offer_asset.info.equal(&infos[0]) && !offer_asset.info.equal(&infos[1]) {
        return Err(ContractError::AssetMismatch);
    }
    if let Err(e) = backend_pool(state) {
        return Err(e);
    }
    let return_amount = sim.return_asset.amount;
    match checked_mul_floor(return_amount, sim.slippage) {
        None => Err(ContractError::Overflow),
        Some(spread_amount) => Ok(
            SimulationResponse {
                return_amount,
                spread_amount,
                commission_amount: sim.commission.amount,
            },
        ),
    }
}

/// The backend simulation that a reverse swap for `ask_asset` asks for: the
/// coin wanted and the denom offered, both as the backend names them.
pub open spec fn reverse_request_spec(s: StateView, ask: AssetView) -> Result<
    (CoinView, Seq<char>),
    ContractError,
> {
    let adapter = s.config.cw20_adapter_addr;
    match counter_asset(s.config.pair_info.asset_infos, ask.info) {
        None => Err(ContractError::AssetMismatch),
        Some(offer) => Ok(
            (
                CoinView { denom: backend_denom(adapter, ask.info), amount: ask.amount },
                backend_denom(adapter, offer),
            ),
        ),
    }
}

/// The backend simulation that a reverse swap for `ask_asset` asks for.
pub fn reverse_simulation_request(state: &State, ask_asset: &Asset) -> (r: Result<
    (Coin, String),
    ContractError,
>)
    requires
        state@.wf(),
    ensures
        match r {
            Ok((c, d)) => reverse_request_spec(state@, ask_asset@) == Ok::<
                (CoinView, Seq<char>),
                ContractError,
            >((c@, d@)),
            Err(e) => reverse_request_spec(state@, ask_asset@) == Err::<
                (CoinView, Seq<char>),
                ContractError,
            >(e),
        },
{
    let infos = &state.config.pair_info.asset_infos;
    let adapter = &state.config.cw20_adapter_addr;
    let offer = if ask_asset.info.equal(&infos[0]) {
        &infos[1]
    } else if ask_asset.info.equal(&infos[1]) {
        &infos[0]
    } else {
        return Err(ContractError::AssetMismatch);
    };
    Ok(
        (
            Coin { denom: to_backend_denom(adapter, &ask_asset.info), amount: ask_asset.amount },
            to_backend_denom(adapter, offer),
        ),
    )
}

pub open spec fn reverse_simulation_spec(
    s: StateView,
    ask: AssetView,
    sim: SimulateSwapResponseView,
) -> Result<ReverseSimulationResponse, ContractError> {
    if counter_asset(s.config.pair_info.asset_infos, ask.info) is None {
        Err(ContractError::AssetMismatch)
    } else if s.underlying is None {
        Err(ContractError::NotInitialized)
    } else if sim.offer_assets.len() == 0 {
        Err(ContractError::EmptySimulation)
    } else if mul_floor_spec(sim.offer_assets[0].amount, sim.slippage) > u128::MAX {
        Err(ContractError::Overflow)
    } else {
        Ok(
            ReverseSimulationResponse {
                offer_amount: sim.offer_assets[0].amount,
                spread_amount: mul_floor_spec(sim.offer_assets[0].amount, sim.slippage) as u128,
                commission_amount: sim.commission.amount,
            },
        )
    }
}

/// A reverse swap for `ask_asset` in legacy form, from the backend's
/// simulation of it (see [`reverse_simulation_request`]): the offer is the
/// first coin the backend would take, the spread its slippage fraction.
pub fn query_reverse_simulation(
    state: &State,
    ask_asset: &Asset,
    sim: &SimulateSwapResponse,
) -> (r: Result<ReverseSimulationResponse, ContractError>)
    requires
        state@.wf(),
    ensures
        r == reverse_simulation_spec(state@, ask_asset@, sim@),
{
    let infos = &state.config.pair_info.asset_infos;
    if !ask_asset.info.equal(&infos[0]) && !ask_asset.info.equal(&infos[1]) {
        return Err(ContractError::AssetMismatch);
    }
    if let Err(e) = backend_pool(state) {
        return Err(e);
    }
    if sim.offer_assets.len() == 0 {
        return Err(ContractError::EmptySimulation);
    }
    let offer_amount = sim.offer_assets[0].amount;
    match checked_mul_floor(offer_amount, sim.slippage) {
        None => Err(ContractError::Overflow),
        Some(spread_amount) => Ok(
            ReverseSimulationResponse {
                offer_amount,
                spread_amount,
                commission_amount: sim.commission.amount,
            },
        ),
    }
}

/// The legacy configuration: the factory's owner, the factory, no stored
/// parameters and no price history.
pub fn query_config(state: &State, owner: String) -> (r: ConfigResponse)
    ensures
        r.block_time_last == 0,
        r.params is None,
        r.owner@ == owner@,
        r.factory_addr@ == state@.config.factory_addr,
{
    ConfigResponse {
        block_time_last: 0,
        params: None,
        owner,
        factory_addr: state.config.factory_addr.clone(),
    }
}

/// Which legacy queries the adapter answers: cumulative prices and past
/// balances are refused as not implemented, rather than answered with
/// placeholder data; the invariant and price observations are not supported.
pub fn check_query(msg: &QueryMsg) -> (r: Result<(), ContractError>)
    ensures
        (msg is CumulativePrices || msg is AssetBalanceAt) ==> r == Err::<(), ContractError>(
            ContractError::NotImplemented,
        ),
        (msg is QueryComputeD || msg is Observe) ==> r == Err::<(), ContractError>(
            ContractError::NonSupported,
        ),
        (msg is Pair || msg is Pool || msg is Config || msg is Share || msg is Simulation
            || msg is ReverseSimulation) ==> r == Ok::<(), ContractError>(()),
{
    match msg {
        QueryMsg::CumulativePrices {} | QueryMsg::AssetBalanceAt { .. } => Err(
            ContractError::NotImplemented,
        ),
        QueryMsg::QueryComputeD {} | QueryMsg::Observe { .. } => Err(ContractError::NonSupported),
        _ => Ok(()),
    }
}

} // verus!
