use legacy_pair_adapter::asset::{Asset, AssetInfo, Coin};
use legacy_pair_adapter::bootstrap::{instantiate, set_liquidity_token};
use legacy_pair_adapter::decimal::Decimal;
use legacy_pair_adapter::error::ContractError;
use legacy_pair_adapter::legacy_pair_wrapper::InstantiateMsg;
use legacy_pair_adapter::pair_new::{PoolResponse, QueryMsg, ReverseSimulationResponse, SimulationResponse};
use legacy_pair_adapter::pool_new::{PoolSateResponse, SimulateSwapResponse};
use legacy_pair_adapter::query::{
    check_query, query_config, query_pool, query_reverse_simulation, query_share, query_simulation,
    reverse_simulation_request,
};
use legacy_pair_adapter::state::{PairType, State, UnderlyingPool};

fn s(x: &str) -> String {
    x.to_string()
}

fn coin(denom: &str, amount: u128) -> Coin {
    Coin { denom: s(denom), amount }
}

fn token_a() -> AssetInfo {
    AssetInfo::Token { contract_addr: s("token_a") }
}

fn uusd() -> AssetInfo {
    AssetInfo::NativeToken { denom: s("uusd") }
}

fn state_with_pool(pool: Option<UnderlyingPool>) -> State {
    let msg = InstantiateMsg {
        pair_type: PairType::Stable {},
        asset_infos: vec![token_a(), uusd()],
        token_code_id: 1,
        factory_addr: s("factory"),
        cw20_adapter_addr: s("adapter"),
        init_params: None,
    };
    let (state, _) = instantiate(&s("pair"), &msg, s("LP"), pool).unwrap();
    let (state, _) = set_liquidity_token(state, Some(s("lp_token"))).unwrap();
    state
}

fn ready() -> State {
    state_with_pool(Some(UnderlyingPool { pool_addr: s("pool"), lp_denom: s("factory/pool/lp") }))
}

fn simulation(offer: Vec<Coin>, returned: Coin, slippage: u128) -> SimulateSwapResponse {
    SimulateSwapResponse {
        offer_assets: offer,
        return_asset: returned,
        price_impact: Decimal { atomics: 0 },
        commission: coin("uusd", 3),
        slippage: Decimal { atomics: slippage },
        reserves_after: vec![],
    }
}

const TENTH: u128 = 100_000_000_000_000_000;

#[test]
fn pool_reserves_read_back_as_legacy_assets() {
    let report = PoolSateResponse {
        pool_reserves: vec![coin("factory/adapter/token_a", 11), coin("uusd", 22)],
        lp_token_supply: coin("factory/pool/lp", 33),
    };
    assert_eq!(
        query_pool(&ready(), &report),
        Ok(PoolResponse {
            assets: vec![Asset { info: token_a(), amount: 11 }, Asset { info: uusd(), amount: 22 }],
            total_share: 33,
        })
    );
    assert_eq!(query_pool(&state_with_pool(None), &report), Err(ContractError::NotInitialized));
}

#[test]
fn share_reads_back_withdrawal() {
    let withdrawn = vec![coin("uusd", 2), coin("factory/adapter/token_a", 1)];
    assert_eq!(
        query_share(&ready(), &withdrawn),
        Ok(vec![Asset { info: uusd(), amount: 2 }, Asset { info: token_a(), amount: 1 }])
    );
    assert_eq!(query_share(&state_with_pool(None), &withdrawn), Err(ContractError::NotInitialized));
}

#[test]
fn simulation_spread_is_slippage_of_return() {
    let sim = simulation(vec![coin("uusd", 1000)], coin("factory/adapter/token_a", 1000), TENTH);
    assert_eq!(
        query_simulation(&ready(), &Asset { info: uusd(), amount: 1000 }, &sim),
        Ok(SimulationResponse { return_amount: 1000, spread_amount: 100, commission_amount: 3 })
    );
    let sim = simulation(vec![], coin("uusd", 7), TENTH);
    assert_eq!(
        query_simulation(&ready(), &Asset { info: token_a(), amount: 1 }, &sim),
        Ok(SimulationResponse { return_amount: 7, spread_amount: 0, commission_amount: 3 })
    );
}

#[test]
fn simulation_refusals() {
    let sim = simulation(vec![], coin("uusd", u128::MAX), 2_000_000_000_000_000_000);
    assert_eq!(
        query_simulation(&ready(), &Asset { info: token_a(), amount: 1 }, &sim),
        Err(ContractError::Overflow)
    );
    let other = Asset { info: AssetInfo::NativeToken { denom: s("uatom") }, amount: 1 };
    assert_eq!(query_simulation(&ready(), &other, &sim), Err(ContractError::AssetMismatch));
    assert_eq!(
        query_simulation(&state_with_pool(None), &Asset { info: uusd(), amount: 1 }, &sim),
        Err(ContractError::NotInitialized)
    );
}

#[test]
fn reverse_simulation_uses_first_offer() {
    let sim = simulation(vec![coin("uusd", 500), coin("uusd", 1)], coin("factory/adapter/token_a", 40), TENTH);
    assert_eq!(
        query_reverse_simulation(&ready(), &Asset { info: token_a(), amount: 40 }, &sim),
        Ok(ReverseSimulationResponse { offer_amount: 500, spread_amount: 50, commission_amount: 3 })
    );
    let empty = simulation(vec![], coin("uusd", 1), TENTH);
    assert_eq!(
        query_reverse_simulation(&ready(), &Asset { info: token_a(), amount: 40 }, &empty),
        Err(ContractError::EmptySimulation)
    );
}

#[test]
fn reverse_simulation_request_names_backend_denoms() {
    assert_eq!(
        reverse_simulation_request(&ready(), &Asset { info: token_a(), amount: 40 }),
        Ok((coin("factory/adapter/token_a", 40), s("uusd")))
    );
    let other = Asset { info: AssetInfo::NativeToken { denom: s("uatom") }, amount: 1 };
    assert_eq!(reverse_simulation_request(&ready(), &other), Err(ContractError::AssetMismatch));
}

#[test]
fn config_reports_factory_and_owner() {
    let r = query_config(&ready(), s("owner"));
    assert_eq!(r.block_time_last, 0);
    assert_eq!(r.params, None);
    assert_eq!(r.owner, "owner");
    assert_eq!(r.factory_addr, "factory");
}

#[test]
fn unimplemented_queries_fail_loudly() {
    assert_eq!(check_query(&QueryMsg::CumulativePrices {}), Err(ContractError::NotImplemented));
    let at = QueryMsg::AssetBalanceAt { asset_info: uusd(), block_height: 5 };
    assert_eq!(check_query(&at), Err(ContractError::NotImplemented));
    assert_eq!(check_query(&QueryMsg::QueryComputeD {}), Err(ContractError::NonSupported));
    assert_eq!(check_query(&QueryMsg::Observe { seconds_ago: 1 }), Err(ContractError::NonSupported));
    assert_eq!(check_query(&QueryMsg::Share { amount: 1 }), Ok(()));
}
