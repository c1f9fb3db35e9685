use legacy_pair_adapter::asset::{from_backend_coin, to_backend_denom, Asset, AssetInfo, Coin};
use legacy_pair_adapter::bootstrap::{
    backend_asset_infos, instantiate, reply, set_liquidity_token, Reply, SubMsgResult,
};
use legacy_pair_adapter::contract::{
    backend_funds, check_execute_swap, check_provide_liquidity, check_receive_swap, check_swap,
    check_withdraw_liquidity, execute_swap, migrate, provide_liquidity, receive_swap, swap,
    swap_simulation_request, withdraw_liquidity,
};
use legacy_pair_adapter::decimal::{Decimal, DEFAULT_SLIPPAGE_ATOMICS};
use legacy_pair_adapter::error::ContractError;
use legacy_pair_adapter::execute::{
    execute, execute_request, receive_cw20, receive_cw20_request, BackendAnswer, BackendRequest,
    Cw20ReceiveMsg, ExecuteMsg,
};
use legacy_pair_adapter::pair_new::Cw20HookMsg;
use legacy_pair_adapter::legacy_pair_wrapper::InstantiateMsg;
use legacy_pair_adapter::pool_new::{Price, SlippageControl};
use legacy_pair_adapter::response::{
    Attribute, Msg, Response, CREATE_UNDERLYING_POOL_REPLY_ID, INSTANTIATE_TOKEN_REPLY_ID,
};
use legacy_pair_adapter::state::{ContractVersion, PairType, State, UnderlyingPool};
use legacy_pair_adapter::text::{decimal_string, lp_name_parts, lp_token_name};

const WRAPPED_A: &str = "factory/adapter/token_a";

fn s(x: &str) -> String {
    x.to_string()
}

fn token(addr: &str) -> AssetInfo {
    AssetInfo::Token { contract_addr: s(addr) }
}

fn native(denom: &str) -> AssetInfo {
    AssetInfo::NativeToken { denom: s(denom) }
}

fn coin(denom: &str, amount: u128) -> Coin {
    Coin { denom: s(denom), amount }
}

fn asset(info: AssetInfo, amount: u128) -> Asset {
    Asset { info, amount }
}

fn attrs(pairs: &[(&str, &str)]) -> Vec<Attribute> {
    pairs.iter().map(|(k, v)| Attribute { key: s(k), value: s(v) }).collect()
}

fn init_msg(infos: Vec<AssetInfo>) -> InstantiateMsg {
    InstantiateMsg {
        pair_type: PairType::Xyk {},
        asset_infos: infos,
        token_code_id: 7,
        factory_addr: s("factory"),
        cw20_adapter_addr: s("adapter"),
        init_params: None,
    }
}

fn pool() -> UnderlyingPool {
    UnderlyingPool { pool_addr: s("pool"), lp_denom: s("factory/pool/lp") }
}

/// Protobuf bytes of an instantiation reply naming `addr`.
fn instantiate_reply_data(addr: &str) -> Vec<u8> {
    let mut v = vec![0x0a, addr.len() as u8];
    v.extend_from_slice(addr.as_bytes());
    v
}

fn success(id: u64, data: Vec<u8>) -> Reply {
    Reply { id, result: SubMsgResult::Success { data: Some(data) } }
}

/// A pair of `token_a` and `uusd`, with its LP token and backend pool known.
fn ready_state() -> State {
    let (state, _) =
        instantiate(&s("pair"), &init_msg(vec![token("token_a"), native("uusd")]), s("A-UUSD-LP"), Some(pool()))
            .unwrap();
    let (state, _) = set_liquidity_token(state, Some(s("lp_token"))).unwrap();
    state
}

#[test]
fn instantiate_records_existing_pool() {
    let (state, res) = instantiate(
        &s("pair"),
        &init_msg(vec![token("token_a"), native("uusd")]),
        s("A-UUSD-LP"),
        Some(pool()),
    )
    .unwrap();
    assert_eq!(state.underlying, Some(pool()));
    assert_eq!(state.config.pair_info.liquidity_token, None);
    assert_eq!(state.config.pair_info.contract_addr, "pair");
    assert_eq!(
        res.messages,
        vec![Msg::InstantiateLpToken { code_id: 7, name: s("A-UUSD-LP"), minter: s("pair") }]
    );
    assert_eq!(
        res.attributes,
        attrs(&[("action", "instantiate"), ("pair_type", "xyk"), ("asset_infos", "token_a, uusd")])
    );
}

#[test]
fn instantiate_asks_factory_to_create_pool() {
    let mut msg = init_msg(vec![token("token_a"), native("uusd")]);
    msg.pair_type = PairType::Custom(s("concentrated"));
    msg.init_params = Some(vec![1, 2, 3]);
    let (state, res) = instantiate(&s("pair"), &msg, s("LP"), None).unwrap();
    assert_eq!(state.underlying, None);
    assert_eq!(res.messages.len(), 2);
    assert_eq!(
        res.messages[1],
        Msg::CreatePool {
            factory: s("factory"),
            pair_type: PairType::Custom(s("concentrated")),
            asset_infos: vec![native(WRAPPED_A), native("uusd")],
            init_params: Some(vec![1, 2, 3]),
        }
    );
    assert_eq!(res.attributes[1], Attribute { key: s("pair_type"), value: s("custom-concentrated") });
}

#[test]
fn instantiate_rejects_bad_pairs() {
    let three = init_msg(vec![native("a"), native("b"), native("c")]);
    assert_eq!(instantiate(&s("pair"), &three, s("LP"), None), Err(ContractError::WrongAssetCount));
    let same = init_msg(vec![native("uusd"), native("uusd")]);
    assert_eq!(instantiate(&s("pair"), &same, s("LP"), None), Err(ContractError::DoublingAssets));
}

#[test]
fn backend_asset_infos_wraps_tokens_only() {
    let infos = backend_asset_infos(&s("adapter"), &vec![token("token_a"), native("uusd")]);
    assert_eq!(infos, vec![native(WRAPPED_A), native("uusd")]);
}

#[test]
fn token_reply_is_consumed_once() {
    let (state, _) =
        instantiate(&s("pair"), &init_msg(vec![token("token_a"), native("uusd")]), s("LP"), None).unwrap();
    let (state, res) =
        reply(state, &success(INSTANTIATE_TOKEN_REPLY_ID, instantiate_reply_data("lp_token")), None).unwrap();
    assert_eq!(state.config.pair_info.liquidity_token, Some(s("lp_token")));
    assert_eq!(res.attributes, attrs(&[("liquidity_token_addr", "lp_token")]));
    let again = reply(state.clone(), &success(INSTANTIATE_TOKEN_REPLY_ID, instantiate_reply_data("other")), None);
    assert_eq!(again, Err(ContractError::Unauthorized));
    assert_eq!(state.config.pair_info.liquidity_token, Some(s("lp_token")));
}

#[test]
fn token_reply_with_undecodable_payload_fails() {
    let (state, _) =
        instantiate(&s("pair"), &init_msg(vec![token("token_a"), native("uusd")]), s("LP"), None).unwrap();
    let bad = vec![0x12, 0x02, b'x', b'y'];
    assert_eq!(
        reply(state, &success(INSTANTIATE_TOKEN_REPLY_ID, bad), None),
        Err(ContractError::InvalidInstantiateResponse)
    );
}

#[test]
fn unexpected_replies_fail() {
    let (state, _) =
        instantiate(&s("pair"), &init_msg(vec![token("token_a"), native("uusd")]), s("LP"), None).unwrap();
    assert_eq!(
        reply(state.clone(), &success(9, instantiate_reply_data("lp")), None),
        Err(ContractError::FailedToParseReply)
    );
    let failed = Reply { id: INSTANTIATE_TOKEN_REPLY_ID, result: SubMsgResult::Failure(s("out of gas")) };
    assert_eq!(reply(state.clone(), &failed, None), Err(ContractError::FailedToParseReply));
    let empty = Reply { id: CREATE_UNDERLYING_POOL_REPLY_ID, result: SubMsgResult::Success { data: None } };
    assert_eq!(reply(state, &empty, Some(pool())), Err(ContractError::FailedToParseReply));
}

#[test]
fn pool_reply_records_pool() {
    let (state, _) =
        instantiate(&s("pair"), &init_msg(vec![token("token_a"), native("uusd")]), s("LP"), None).unwrap();
    let created = success(CREATE_UNDERLYING_POOL_REPLY_ID, vec![1]);
    assert_eq!(reply(state.clone(), &created, None), Err(ContractError::UnderlyingPoolNotFound));
    let (state, res) = reply(state, &created, Some(pool())).unwrap();
    assert_eq!(state.underlying, Some(pool()));
    assert_eq!(res.attributes, attrs(&[("liquidity_token_addr", "")]));
}

#[test]
fn bootstrap_then_operations_succeed() {
    let (state, res) =
        instantiate(&s("pair"), &init_msg(vec![token("token_a"), native("uusd")]), s("LP"), None).unwrap();
    assert_eq!(res.messages.len(), 2);
    let (state, _) = reply(state, &success(CREATE_UNDERLYING_POOL_REPLY_ID, vec![1]), Some(pool())).unwrap();
    let (state, _) =
        reply(state, &success(INSTANTIATE_TOKEN_REPLY_ID, instantiate_reply_data("lp_token")), None).unwrap();
    assert!(state.underlying.is_some());
    assert!(state.config.pair_info.liquidity_token.is_some());
    let withdrawn = vec![coin("uusd", 3)];
    assert!(withdraw_liquidity(&state, &s("lp_token"), &s("user"), 3, &vec![], &withdrawn).is_ok());
    let offer = asset(native("uusd"), 10);
    assert!(swap(&state, &vec![coin("uusd", 10)], &s("user"), &offer, None, None, None, &coin(WRAPPED_A, 9)).is_ok());
}

#[test]
fn provide_liquidity_pulls_wraps_deposits_and_mints() {
    let state = ready_state();
    let assets = vec![asset(token("token_a"), 50), asset(native("uusd"), 100)];
    let res = provide_liquidity(
        &state,
        &s("pair"),
        &s("user"),
        &vec![coin("uusd", 100)],
        &assets,
        None,
        None,
        70,
        None,
    )
    .unwrap();
    assert_eq!(
        res.messages,
        vec![
            Msg::TransferFrom { token: s("token_a"), owner: s("user"), recipient: s("pair"), amount: 50 },
            Msg::Wrap { token: s("token_a"), adapter: s("adapter"), amount: 50 },
            Msg::ProvideLiquidity { pool: s("pool"), funds: vec![coin(WRAPPED_A, 50), coin("uusd", 100)] },
            Msg::Mint { token: s("lp_token"), recipient: s("user"), amount: 70 },
        ]
    );
    assert_eq!(
        res.attributes,
        attrs(&[
            ("action", "provide_liquidity"),
            ("sender", "user"),
            ("receiver", "user"),
            ("assets", "50token_a, 100uusd"),
        ])
    );
}

#[test]
fn provide_liquidity_skips_zero_token_deposit_and_honours_receiver() {
    let state = ready_state();
    let assets = vec![asset(native("uusd"), 100), asset(token("token_a"), 0)];
    let res = provide_liquidity(
        &state,
        &s("pair"),
        &s("user"),
        &vec![coin("uusd", 100)],
        &assets,
        Some(false),
        Some(s("friend")),
        5,
        None,
    )
    .unwrap();
    assert_eq!(
        res.messages,
        vec![
            Msg::ProvideLiquidity { pool: s("pool"), funds: vec![coin("uusd", 100)] },
            Msg::Mint { token: s("lp_token"), recipient: s("friend"), amount: 5 },
        ]
    );
}

#[test]
fn provide_liquidity_auto_stakes_at_generator() {
    let state = ready_state();
    let assets = vec![asset(native("uusd"), 100), asset(token("token_a"), 0)];
    let funds = vec![coin("uusd", 100)];
    let res = provide_liquidity(&state, &s("pair"), &s("user"), &funds, &assets, Some(true), None, 5, Some(s("gen")))
        .unwrap();
    assert_eq!(
        res.messages[1..].to_vec(),
        vec![
            Msg::Mint { token: s("lp_token"), recipient: s("pair"), amount: 5 },
            Msg::DepositFor { token: s("lp_token"), generator: s("gen"), beneficiary: s("user"), amount: 5 },
        ]
    );
    assert_eq!(
        provide_liquidity(&state, &s("pair"), &s("user"), &funds, &assets, Some(true), None, 5, None),
        Err(ContractError::AutoStakeError)
    );
}

#[test]
fn provide_liquidity_rejects_foreign_asset() {
    let state = ready_state();
    let assets = vec![asset(token("token_b"), 50), asset(native("uusd"), 100)];
    let r = provide_liquidity(&state, &s("pair"), &s("user"), &vec![coin("uusd", 100)], &assets, None, None, 1, None);
    assert_eq!(r, Err(ContractError::AssetMismatch));
}

#[test]
fn provide_liquidity_rejects_zero_deposits() {
    let state = ready_state();
    let assets = vec![asset(token("token_a"), 0), asset(native("uusd"), 0)];
    let r = provide_liquidity(&state, &s("pair"), &s("user"), &vec![], &assets, None, None, 1, None);
    assert_eq!(r, Err(ContractError::InvalidZeroAmount));
}

#[test]
fn provide_liquidity_other_refusals() {
    let state = ready_state();
    let one = vec![asset(native("uusd"), 1)];
    assert_eq!(
        provide_liquidity(&state, &s("pair"), &s("user"), &vec![], &one, None, None, 1, None),
        Err(ContractError::WrongAssetCount)
    );
    let assets = vec![asset(token("token_a"), 5), asset(native("uusd"), 100)];
    assert_eq!(
        provide_liquidity(&state, &s("pair"), &s("user"), &vec![coin("uusd", 99)], &assets, None, None, 1, None),
        Err(ContractError::NativeBalanceMismatch)
    );
    assert_eq!(
        provide_liquidity(&state, &s("pair"), &s("user"), &vec![coin("uatom", 1)], &assets, None, None, 1, None),
        Err(ContractError::NativeBalanceMismatch)
    );
    let (fresh, _) =
        instantiate(&s("pair"), &init_msg(vec![token("token_a"), native("uusd")]), s("LP"), None).unwrap();
    assert_eq!(
        provide_liquidity(&fresh, &s("pair"), &s("user"), &vec![coin("uusd", 100)], &assets, None, None, 1, None),
        Err(ContractError::NotInitialized)
    );
}

#[test]
fn backend_funds_drops_zero_amounts() {
    let assets = vec![asset(token("token_a"), 0), asset(native("uusd"), 4)];
    assert_eq!(backend_funds(&s("adapter"), &assets), vec![coin("uusd", 4)]);
}

#[test]
fn withdraw_liquidity_burns_withdraws_and_pays_out() {
    let state = ready_state();
    let withdrawn = vec![coin(WRAPPED_A, 5), coin("uusd", 7)];
    let res = withdraw_liquidity(&state, &s("lp_token"), &s("user"), 10, &vec![], &withdrawn).unwrap();
    assert_eq!(
        res.messages,
        vec![
            Msg::Burn { token: s("lp_token"), amount: 10 },
            Msg::WithdrawLiquidity { pool: s("pool"), funds: vec![coin("factory/pool/lp", 10)] },
            Msg::RedeemAndTransfer {
                adapter: s("adapter"),
                recipient: Some(s("user")),
                funds: vec![coin(WRAPPED_A, 5)],
            },
            Msg::BankSend { to: s("user"), amount: vec![coin("uusd", 7)] },
        ]
    );
    assert_eq!(
        res.attributes,
        attrs(&[("action", "withdraw_liquidity"), ("sender", "user"), ("withdrawn_share", "10")])
    );
}

#[test]
fn withdraw_liquidity_refuses_chosen_proportions() {
    let state = ready_state();
    let assets = vec![asset(native("uusd"), 1)];
    assert_eq!(
        withdraw_liquidity(&state, &s("lp_token"), &s("user"), 10, &assets, &vec![]),
        Err(ContractError::ImbalancedWithdrawDisabled)
    );
    assert_eq!(
        withdraw_liquidity(&state, &s("lp_token"), &s("other"), 0, &assets, &vec![]),
        Err(ContractError::ImbalancedWithdrawDisabled)
    );
    assert_eq!(
        withdraw_liquidity(&state, &s("user"), &s("user"), 10, &assets, &vec![]),
        Err(ContractError::Unauthorized)
    );
}

#[test]
fn withdraw_liquidity_only_from_lp_token() {
    let state = ready_state();
    assert_eq!(
        withdraw_liquidity(&state, &s("user"), &s("user"), 10, &vec![], &vec![]),
        Err(ContractError::Unauthorized)
    );
}

#[test]
fn swap_native_for_token_unwraps_to_receiver() {
    let state = ready_state();
    let offer = asset(native("uusd"), 100);
    let returned = coin(WRAPPED_A, 90);
    let res = swap(&state, &vec![coin("uusd", 100)], &s("user"), &offer, None, None, Some(s("friend")), &returned)
        .unwrap();
    assert_eq!(
        res.messages,
        vec![
            Msg::SwapExactIn {
                pool: s("pool"),
                ask_denom: s(WRAPPED_A),
                recipient: None,
                slippage_control: None,
                funds: vec![coin("uusd", 100)],
            },
            Msg::RedeemAndTransfer { adapter: s("adapter"), recipient: Some(s("friend")), funds: vec![returned] },
        ]
    );
}

#[test]
fn swap_token_for_native_pays_receiver_directly() {
    let state = ready_state();
    let belief = Decimal { atomics: 2_000_000_000_000_000_000 };
    let res = receive_swap(
        &state,
        &s("token_a"),
        &vec![],
        &s("user"),
        100,
        Some(belief),
        None,
        None,
        &coin("uusd", 190),
    )
    .unwrap();
    assert_eq!(
        res.messages,
        vec![
            Msg::Wrap { token: s("adapter"), adapter: s("adapter"), amount: 100 },
            Msg::SwapExactIn {
                pool: s("pool"),
                ask_denom: s("uusd"),
                recipient: Some(s("user")),
                slippage_control: Some(SlippageControl {
                    belief_price: Price { base_asset: s(WRAPPED_A), quote_asset: s("uusd"), price: belief },
                    slippage_tolerance: Decimal { atomics: DEFAULT_SLIPPAGE_ATOMICS },
                }),
                funds: vec![coin(WRAPPED_A, 100)],
            },
        ]
    );
    assert!(res.attributes.is_empty());
}

#[test]
fn swap_refusals() {
    let state = ready_state();
    let foreign = asset(native("uatom"), 1);
    assert_eq!(
        swap(&state, &vec![coin("uatom", 1)], &s("user"), &foreign, None, None, None, &coin("uusd", 1)),
        Err(ContractError::AssetMismatch)
    );
    let offer = asset(native("uusd"), 100);
    assert_eq!(
        swap(&state, &vec![coin("uusd", 99)], &s("user"), &offer, None, None, None, &coin("uusd", 1)),
        Err(ContractError::NativeBalanceMismatch)
    );
    let token_offer = asset(token("token_a"), 5);
    assert_eq!(
        execute_swap(&state, &s("user"), &vec![], &token_offer, None, None, None, &coin("uusd", 1)),
        Err(ContractError::Cw20DirectSwap)
    );
    assert_eq!(
        receive_swap(&state, &s("token_b"), &vec![], &s("user"), 5, None, None, None, &coin("uusd", 1)),
        Err(ContractError::Unauthorized)
    );
}

#[test]
fn execute_swap_with_native_offer() {
    let state = ready_state();
    let offer = asset(native("uusd"), 10);
    let max = Decimal { atomics: 1 };
    let belief = Decimal { atomics: 3 };
    let res = execute_swap(
        &state,
        &s("user"),
        &vec![coin("uusd", 10)],
        &offer,
        Some(belief),
        Some(max),
        None,
        &coin(WRAPPED_A, 9),
    )
    .unwrap();
    match &res.messages[0] {
        Msg::SwapExactIn { slippage_control: Some(c), .. } => assert_eq!(c.slippage_tolerance, max),
        other => panic!("unexpected first message {:?}", other),
    }
    assert_eq!(
        res.messages[1],
        Msg::RedeemAndTransfer { adapter: s("adapter"), recipient: Some(s("user")), funds: vec![coin(WRAPPED_A, 9)] }
    );
}

#[test]
fn swap_simulation_request_names_backend_denoms() {
    let state = ready_state();
    assert_eq!(
        swap_simulation_request(&state, &asset(token("token_a"), 3)),
        Ok((s("uusd"), coin(WRAPPED_A, 3)))
    );
    assert_eq!(
        swap_simulation_request(&state, &asset(native("uatom"), 3)),
        Err(ContractError::AssetMismatch)
    );
}

#[test]
fn backend_denom_round_trip() {
    let adapter = s("adapter");
    for info in [token("token_a"), native("uusd")] {
        let denom = to_backend_denom(&adapter, &info);
        let back = from_backend_coin(&adapter, &Coin { denom, amount: 42 });
        assert_eq!(back, asset(info, 42));
    }
    assert_eq!(to_backend_denom(&adapter, &token("token_a")), WRAPPED_A);
    assert_eq!(
        from_backend_coin(&adapter, &coin("factory/other/token_a", 1)),
        asset(native("factory/other/token_a"), 1)
    );
}

#[test]
fn migrate_checks_name_and_version() {
    let stored = ContractVersion { contract: s("legacy-pair-adapter"), version: s("1.0.0") };
    assert_eq!(migrate(&stored, "other", "1.1.0"), Err(ContractError::MigrationError));
    assert_eq!(migrate(&stored, "legacy-pair-adapter", "1.0.0"), Err(ContractError::MigrationError));
    let (v, res) = migrate(&stored, "legacy-pair-adapter", "1.1.0").unwrap();
    assert_eq!(v, ContractVersion { contract: s("legacy-pair-adapter"), version: s("1.1.0") });
    assert_eq!(
        res,
        Response {
            messages: vec![],
            attributes: attrs(&[
                ("previous_contract_name", "legacy-pair-adapter"),
                ("previous_contract_version", "1.0.0"),
                ("new_contract_name", "legacy-pair-adapter"),
                ("new_contract_version", "1.1.0"),
            ]),
        }
    );
}

#[test]
fn decimal_string_writes_digits() {
    assert_eq!(decimal_string(0), "0");
    assert_eq!(decimal_string(1234567890), "1234567890");
    assert_eq!(decimal_string(u128::MAX), u128::MAX.to_string());
}

#[test]
fn checks_before_simulation() {
    let state = ready_state();
    let zero = vec![asset(token("token_a"), 0), asset(native("uusd"), 0)];
    assert_eq!(check_provide_liquidity(&state, &vec![], &zero), Err(ContractError::InvalidZeroAmount));
    let good = vec![asset(token("token_a"), 1), asset(native("uusd"), 2)];
    assert_eq!(check_provide_liquidity(&state, &vec![coin("uusd", 2)], &good), Ok(()));
    let foreign = vec![asset(token("token_b"), 1), asset(native("uusd"), 2)];
    assert_eq!(
        check_provide_liquidity(&state, &vec![coin("uusd", 2)], &foreign),
        Err(ContractError::AssetMismatch)
    );

    let offer = asset(native("uusd"), 5);
    assert_eq!(check_swap(&state, &vec![coin("uusd", 5)], &offer), Ok(()));
    assert_eq!(check_swap(&state, &vec![], &offer), Err(ContractError::NativeBalanceMismatch));
    assert_eq!(check_execute_swap(&state, &vec![coin("uusd", 5)], &offer), Ok(()));
    assert_eq!(
        check_execute_swap(&state, &vec![], &asset(token("token_a"), 5)),
        Err(ContractError::Cw20DirectSwap)
    );
    assert_eq!(check_receive_swap(&state, &s("token_a"), &vec![], 5), Ok(()));
    assert_eq!(check_receive_swap(&state, &s("uusd"), &vec![], 5), Err(ContractError::Unauthorized));

    assert_eq!(check_withdraw_liquidity(&state, &s("lp_token"), &vec![]), Ok(()));
    assert_eq!(check_withdraw_liquidity(&state, &s("user"), &vec![]), Err(ContractError::Unauthorized));
    assert_eq!(
        check_withdraw_liquidity(&state, &s("lp_token"), &vec![asset(native("uusd"), 1)]),
        Err(ContractError::ImbalancedWithdrawDisabled)
    );
    let (fresh, _) =
        instantiate(&s("pair"), &init_msg(vec![token("token_a"), native("uusd")]), s("LP"), None).unwrap();
    let (fresh, _) = set_liquidity_token(fresh, Some(s("lp_token"))).unwrap();
    assert_eq!(check_withdraw_liquidity(&fresh, &s("lp_token"), &vec![]), Err(ContractError::NotInitialized));
    assert_eq!(check_swap(&fresh, &vec![coin("uusd", 5)], &offer), Err(ContractError::NotInitialized));
}

#[test]
fn lp_token_name_joins_short_symbols() {
    let symbols = vec![s("uusd"), s("astro_token")];
    assert_eq!(lp_name_parts(&symbols), "uusd-astr-LP");
    assert_eq!(lp_token_name(&symbols), "UUSD-ASTR-LP");
    assert_eq!(lp_token_name(&vec![s("ab"), s("c")]), "AB-C-LP");
}

#[test]
fn execute_provide_liquidity_asks_then_answers() {
    let state = ready_state();
    let msg = ExecuteMsg::ProvideLiquidity {
        assets: vec![asset(token("token_a"), 50), asset(native("uusd"), 100)],
        slippage_tolerance: None,
        auto_stake: Some(true),
        receiver: None,
    };
    let funds = vec![coin("uusd", 100)];
    assert_eq!(
        execute_request(&state, &s("user"), &funds, &msg),
        Ok(BackendRequest::SimulateProvideLiquidity {
            pool: s("pool"),
            assets: vec![coin(WRAPPED_A, 50), coin("uusd", 100)],
            generator_needed: true,
        })
    );
    let answer = BackendAnswer::ProvideLiquidity { minted_lp: 70, generator: Some(s("gen")) };
    let res = execute(&state, &s("pair"), &s("user"), &funds, &msg, &answer).unwrap();
    assert_eq!(res.messages.len(), 5);
    assert_eq!(
        res.messages[4],
        Msg::DepositFor { token: s("lp_token"), generator: s("gen"), beneficiary: s("user"), amount: 70 }
    );
    let wrong = BackendAnswer::SwapExactIn { returned: coin("uusd", 1) };
    assert_eq!(
        execute(&state, &s("pair"), &s("user"), &funds, &msg, &wrong),
        Err(ContractError::UnexpectedBackendAnswer)
    );
}

#[test]
fn execute_refuses_before_asking() {
    let state = ready_state();
    let update = ExecuteMsg::UpdateConfig { params: vec![] };
    assert_eq!(execute_request(&state, &s("user"), &vec![], &update), Err(ContractError::NonSupported));
    let answer = BackendAnswer::WithdrawLiquidity { withdrawn: vec![] };
    assert_eq!(
        execute(&state, &s("pair"), &s("user"), &vec![], &update, &answer),
        Err(ContractError::NonSupported)
    );
    let token_swap = ExecuteMsg::Swap {
        offer_asset: asset(token("token_a"), 5),
        ask_asset_info: None,
        belief_price: None,
        max_spread: None,
        to: None,
    };
    assert_eq!(execute_request(&state, &s("user"), &vec![], &token_swap), Err(ContractError::Cw20DirectSwap));
    let zero = ExecuteMsg::ProvideLiquidity {
        assets: vec![asset(token("token_a"), 0), asset(native("uusd"), 0)],
        slippage_tolerance: None,
        auto_stake: None,
        receiver: None,
    };
    assert_eq!(execute_request(&state, &s("user"), &vec![], &zero), Err(ContractError::InvalidZeroAmount));
}

#[test]
fn execute_native_swap() {
    let state = ready_state();
    let msg = ExecuteMsg::Swap {
        offer_asset: asset(native("uusd"), 10),
        ask_asset_info: None,
        belief_price: None,
        max_spread: None,
        to: None,
    };
    let funds = vec![coin("uusd", 10)];
    assert_eq!(
        execute_request(&state, &s("user"), &funds, &msg),
        Ok(BackendRequest::SimulateSwapExactIn { pool: s("pool"), ask_denom: s(WRAPPED_A), offer: coin("uusd", 10) })
    );
    let answer = BackendAnswer::SwapExactIn { returned: coin(WRAPPED_A, 9) };
    let res = execute(&state, &s("pair"), &s("user"), &funds, &msg, &answer).unwrap();
    assert_eq!(
        res.messages.last(),
        Some(&Msg::RedeemAndTransfer { adapter: s("adapter"), recipient: Some(s("user")), funds: vec![coin(WRAPPED_A, 9)] })
    );
}

#[test]
fn receive_cw20_swap_and_withdraw() {
    let state = ready_state();
    let swap_msg = Cw20ReceiveMsg {
        sender: s("user"),
        amount: 100,
        msg: Cw20HookMsg::Swap { ask_asset_info: None, belief_price: None, max_spread: None, to: Some(s("friend")) },
    };
    assert_eq!(
        receive_cw20_request(&state, &s("token_a"), &vec![], &swap_msg),
        Ok(BackendRequest::SimulateSwapExactIn { pool: s("pool"), ask_denom: s("uusd"), offer: coin(WRAPPED_A, 100) })
    );
    assert_eq!(receive_cw20_request(&state, &s("token_b"), &vec![], &swap_msg), Err(ContractError::Unauthorized));
    let answer = BackendAnswer::SwapExactIn { returned: coin("uusd", 95) };
    let res = receive_cw20(&state, &s("token_a"), &vec![], &swap_msg, &answer).unwrap();
    match &res.messages[1] {
        Msg::SwapExactIn { recipient, .. } => assert_eq!(recipient, &Some(s("friend"))),
        other => panic!("unexpected message {:?}", other),
    }

    let withdraw_msg = Cw20ReceiveMsg { sender: s("user"), amount: 8, msg: Cw20HookMsg::WithdrawLiquidity { assets: vec![] } };
    assert_eq!(
        receive_cw20_request(&state, &s("lp_token"), &vec![], &withdraw_msg),
        Ok(BackendRequest::SimulateWithdrawLiquidity { pool: s("pool"), amount: 8 })
    );
    let answer = BackendAnswer::WithdrawLiquidity { withdrawn: vec![coin("uusd", 4)] };
    let via_execute = execute(&state, &s("pair"), &s("lp_token"), &vec![], &ExecuteMsg::Receive(withdraw_msg), &answer)
        .unwrap();
    assert_eq!(via_execute.messages[2], Msg::BankSend { to: s("user"), amount: vec![coin("uusd", 4)] });
}
