use crate::asset::{
    backend_denom, infos_view, to_backend_denom, AssetInfo, AssetInfoView,
};
use crate::error::ContractError;
use crate::legacy_pair_wrapper::{InstantiateMsg, InstantiateMsgView};
use crate::response::{
    attr, attrs_view, msgs_view, Msg, MsgView, Response, ResponseView,
    CREATE_UNDERLYING_POOL_REPLY_ID, INSTANTIATE_TOKEN_REPLY_ID,
};
use crate::state::{
    pool_view, Config, ConfigView, PairInfo, PairInfoView, State, StateView, UnderlyingPool,
    UnderlyingPoolView,
};
use crate::text::{comma_pair, comma_pair_string, info_string, info_text, pair_type_string, pair_type_text};
use crate::asset::{AssetView, CoinView};
use crate::contract::{
    funds_match, lemma_amount_of_two, native_sent_ok, provide_liquidity_spec, swap_spec,
    withdraw_liquidity_spec,
};
use crate::decimal::Decimal;
use vstd::prelude::*;

verus! {

/// The contract address in the protobuf-encoded reply of a contract
/// instantiation, or nothing when the bytes do not decode.
pub uninterp spec fn instantiate_reply_address(data: Seq<u8>) -> Option<Seq<char>>;

/// Relies on cw_utils::parse_instantiate_response_data, which decodes the
/// reply of a contract instantiation; only its contract address is kept.
#[verifier::external_body]
fn parse_instantiate_address(data: &Vec<u8>) -> (r: Option<String>)
    ensures
        r.deep_view() == instantiate_reply_address(data@),
{
    cw_utils::parse_instantiate_response_data(data.as_slice()).ok().map(|r| r.contract_address)
}

/// The outcome of a sub-call, as the host reports it.
#[derive(Clone, Debug, PartialEq, Eq)]
pub enum SubMsgResult {
    /// The sub-call succeeded, with the payload it returned, if any.
    Success { data: Option<Vec<u8>> },
    /// The sub-call failed, with the host's error text.
    Failure(String),
}

/// The host's answer to a sub-call that asked for a reply.
#[derive(Clone, Debug, PartialEq, Eq)]
pub struct Reply {
    pub id: u64,
    pub result: SubMsgResult,
}

pub open spec fn state_result_view(r: Result<(State, Response), ContractError>) -> Result<
    (StateView, ResponseView),
    ContractError,
> {
    match r {
        Ok((s, x)) => Ok((s@, x@)),
        Err(e) => Err(e),
    }
}

/// The pair as the backend sees it: native assets stay, tokens become the
/// native denoms that the adapter issues for them.
pub open spec fn backend_infos(adapter: Seq<char>, infos: Seq<AssetInfoView>) -> Seq<AssetInfoView> {
    infos.map_values(|i: AssetInfoView| AssetInfoView::Native(backend_denom(adapter, i)))
}

pub open spec fn instantiate_spec(
    contract: Seq<char>,
    msg: InstantiateMsgView,
    token_name: Seq<char>,
    existing: Option<UnderlyingPoolView>,
) -> Result<(StateView, ResponseView), ContractError> {
    let infos = msg.asset_infos;
    if infos.len() != 2 {
        Err(ContractError::WrongAssetCount)
    } else if infos[0] == infos[1] {
        Err(ContractError::DoublingAssets)
    } else {
        let state = StateView {
            config: ConfigView {
                pair_info: PairInfoView {
                    contract_addr: contract,
                    liquidity_token: None,
                    asset_infos: infos,
                    pair_type: msg.pair_type,
                },
                factory_addr: msg.factory_addr,
                cw20_adapter_addr: msg.cw20_adapter_addr,
            },
            underlying: existing,
        };
        let create = if existing is None {
            seq![
                MsgView::CreatePool {
                    factory: msg.factory_addr,
                    pair_type: msg.pair_type,
                    asset_infos: backend_infos(msg.cw20_adapter_addr, infos),
                    init_params: msg.init_params,
                },
            ]
        } else {
            Seq::empty()
        };
        Ok(
            (
                state,
                ResponseView {
                    messages: seq![
                        MsgView::InstantiateLpToken {
                            code_id: msg.token_code_id,
                            name: token_name,
                            minter: contract,
                        },
                    ] + create,
                    attributes: seq![
                        ("action"@, "instantiate"@),
                        ("pair_type"@, pair_type_text(msg.pair_type)),
                        ("asset_infos"@, comma_pair(info_text(infos[0]), info_text(infos[1]))),
                    ],
                },
            ),
        )
    }
}

/// The pair as the backend sees it, for the factory's registry: native
/// assets stay, tokens become the native denoms that the adapter issues.
pub fn backend_asset_infos(adapter: &String, infos: &Vec<AssetInfo>) -> (r: Vec<AssetInfo>)
    ensures
        infos_view(r@) == backend_infos(adapter@, infos_view(infos@)),
{
    let ghost iv = infos_view(infos@);
    let mut r: Vec<AssetInfo> = Vec::new();
    let mut i: usize = 0;
    while i < infos.len()
        invariant
            i <= infos.len(),
            iv == infos_view(infos@),
            infos_view(r@) == backend_infos(adapter@, iv.take(i as int)),
        decreases infos.len() - i,
    {
        let d = to_backend_denom(adapter, &infos[i]);
        let ghost before = r@;
        r.push(AssetInfo::NativeToken { denom: d });
        proof {
            assert(infos_view(r@) =~= infos_view(before).push(AssetInfoView::Native(d@)));
            assert(backend_infos(adapter@, iv.take(i + 1)) =~= backend_infos(
                adapter@,
                iv.take(i as int),
            ).push(AssetInfoView::Native(backend_denom(adapter@, iv[i as int]))));
        }
        i = i + 1;
    }
    proof {
        assert(iv.take(infos.len() as int) =~= iv);
    }
    r
}

/// Set up a new adapter at `contract_addr`.
///
/// The pair must hold two different assets. The new state has no LP token
/// yet: its instantiation is the first effect, with this contract as
/// minter. `existing` is the factory's answer for the pair as the backend
/// sees it (see [`backend_asset_infos`]): a pool that exists is recorded at
/// once; otherwise the factory is asked to create it, and the reply records
/// it. `token_name` names the LP token.
pub fn instantiate(
    contract_addr: &String,
    msg: &InstantiateMsg,
    token_name: String,
    existing: Option<UnderlyingPool>,
) -> (r: Result<(State, Response), ContractError>)
    ensures
        state_result_view(r) == instantiate_spec(
            contract_addr@,
            msg@,
            token_name@,
            pool_view(existing),
        ),
{
    let infos = &msg.asset_infos;
    if infos.len() != 2 {
        return Err(ContractError::WrongAssetCount);
    }
    if infos[0].equal(&infos[1]) {
        return Err(ContractError::DoublingAssets);
    }
    let ghost existing_view = pool_view(existing);
    let mut messages = vec![
        Msg::InstantiateLpToken {
            code_id: msg.token_code_id,
            name: token_name,
            minter: contract_addr.clone(),
        },
    ];
    let ghost first = msgs_view(messages@);
    if existing.is_none() {
        let backend = backend_asset_infos(&msg.cw20_adapter_addr, infos);
        let create = Msg::CreatePool {
            factory: msg.factory_addr.clone(),
            pair_type: msg.pair_type.duplicate(),
            asset_infos: backend,
            init_params: msg.init_params.clone(),
        };
        let ghost before = messages@;
        messages.push(create);
        proof {
            assert(msgs_view(messages@) =~= msgs_view(before).push(create@));
        }
    }
    let attributes = vec![
        attr("action", String::from_str("instantiate")),
        attr("pair_type", pair_type_string(&msg.pair_type)),
        attr("asset_infos", comma_pair_string(info_string(&infos[0]), &info_string(&infos[1]))),
    ];
    let mut asset_infos: Vec<AssetInfo> = Vec::new();
    asset_infos.push(infos[0].duplicate());
    asset_infos.push(infos[1].duplicate());
    let state = State {
        config: Config {
            pair_info: PairInfo {
                contract_addr: contract_addr.clone(),
                liquidity_token: None,
                asset_infos,
                pair_type: msg.pair_type.duplicate(),
            },
            factory_addr: msg.factory_addr.clone(),
            cw20_adapter_addr: msg.cw20_adapter_addr.clone(),
        },
        underlying: existing,
    };
    let r = Response { messages, attributes };
    proof {
        let spec_r = instantiate_spec(contract_addr@, msg@, token_name@, existing_view);
        assert(infos_view(state.config.pair_info.asset_infos@) =~= msg@.asset_infos);
        assert(attrs_view(r.attributes@) =~= spec_r->Ok_0.1.attributes);
        assert(msgs_view(r.messages@) =~= spec_r->Ok_0.1.messages);
    }
    Ok((state, r))
}

pub open spec fn token_reply_spec(s: StateView, address: Option<Seq<char>>) -> Result<
    (StateView, ResponseView),
    ContractError,
> {
    if s.config.pair_info.liquidity_token is Some {
        Err(ContractError::Unauthorized)
    } else {
        match address {
            None => Err(ContractError::InvalidInstantiateResponse),
            Some(a) => Ok(
                (
                    StateView {
                        config: ConfigView {
                            pair_info: PairInfoView { liquidity_token: Some(a), ..s.config.pair_info },
                            ..s.config
                        },
                        ..s
                    },
                    ResponseView {
                        messages: Seq::empty(),
                        attributes: seq![("liquidity_token_addr"@, a)],
                    },
                ),
            ),
        }
    }
}

pub open spec fn pool_reply_spec(s: StateView, found: Option<UnderlyingPoolView>) -> Result<
    (StateView, ResponseView),
    ContractError,
> {
    match found {
        None => Err(ContractError::UnderlyingPoolNotFound),
        Some(p) => Ok(
            (
                StateView { underlying: Some(p), ..s },
                ResponseView {
                    messages: Seq::empty(),
                    attributes: seq![
                        ("liquidity_token_addr"@, s.config.pair_info.liquidity_token.unwrap_or(Seq::empty())),
                    ],
                },
            ),
        ),
    }
}

pub open spec fn reply_spec(s: StateView, msg: Reply, found: Option<UnderlyingPoolView>) -> Result<
    (StateView, ResponseView),
    ContractError,
> {
    match msg.result {
        SubMsgResult::Success { data: Some(d) } => if msg.id == INSTANTIATE_TOKEN_REPLY_ID {
            token_reply_spec(s, instantiate_reply_address(d@))
        } else if msg.id == CREATE_UNDERLYING_POOL_REPLY_ID {
            pool_reply_spec(s, found)
        } else {
            Err(ContractError::FailedToParseReply)
        },
        _ => Err(ContractError::FailedToParseReply),
    }
}

/// Record the LP token at `address`, the address decoded from its
/// instantiation reply (nothing when that did not decode). Refused when an
/// LP token is already recorded: each reply counts once.
pub fn set_liquidity_token(state: State, address: Option<String>) -> (r: Result<
    (State, Response),
    ContractError,
>)
    ensures
        state_result_view(r) == token_reply_spec(state@, address.deep_view()),
{
    if state.config.pair_info.liquidity_token.is_some() {
        return Err(ContractError::Unauthorized);
    }
    match address {
        None => Err(ContractError::InvalidInstantiateResponse),
        Some(a) => {
            let attributes = vec![attr("liquidity_token_addr", a.clone())];
            let mut s = state;
            s.config.pair_info.liquidity_token = Some(a);
            let r = Response { messages: Vec::new(), attributes };
            proof {
                let spec_r = token_reply_spec(state@, address.deep_view());
                assert(attrs_view(r.attributes@) =~= spec_r->Ok_0.1.attributes);
                assert(msgs_view(r.messages@) =~= spec_r->Ok_0.1.messages);
                assert(s@.config.pair_info.asset_infos =~= spec_r->Ok_0.0.config.pair_info.asset_infos);
            }
            Ok((s, r))
        },
    }
}

/// Record the backend pool that the factory reports for the pair (`found`,
/// its answer for the pair as the backend sees it; nothing when it knows none).
pub fn set_underlying_pool(state: State, found: Option<UnderlyingPool>) -> (r: Result<
    (State, Response),
    ContractError,
>)
    ensures
        state_result_view(r) == pool_reply_spec(state@, pool_view(found)),
{
    match found {
        None => Err(ContractError::UnderlyingPoolNotFound),
        Some(p) => {
            let lp = match &state.config.pair_info.liquidity_token {
                Some(t) => t.clone(),
                None => String::new(),
            };
            let attributes = vec![attr("liquidity_token_addr", lp)];
            let mut s = state;
            s.underlying = Some(p);
            let r = Response { messages: Vec::new(), attributes };
            proof {
                let spec_r = pool_reply_spec(state@, pool_view(found));
                assert(attrs_view(r.attributes@) =~= spec_r->Ok_0.1.attributes);
                assert(msgs_view(r.messages@) =~= spec_r->Ok_0.1.messages);
            }
            Ok((s, r))
        },
    }
}

/// Resume bootstrap on the host's reply to one of its two sub-calls.
///
/// The LP token's instantiation reply records its address; the factory's
/// pool-creation reply records the pool in `found`, the factory's answer for
/// the pair as the backend sees it (see [`backend_asset_infos`]). Any other
/// id, a failed sub-call or a reply without payload is refused.
pub fn reply(state: State, msg: &Reply, found: Option<UnderlyingPool>) -> (r: Result<
    (State, Response),
    ContractError,
>)
    ensures
        state_result_view(r) == reply_spec(state@, *msg, pool_view(found)),
{
    match &msg.result {
        SubMsgResult::Success { data: Some(d) } => {
            if msg.id == INSTANTIATE_TOKEN_REPLY_ID {
                if state.config.pair_info.liquidity_token.is_some() {
                    return Err(ContractError::Unauthorized);
                }
                let address = parse_instantiate_address(d);
                set_liquidity_token(state, address)
            } else if msg.id == CREATE_UNDERLYING_POOL_REPLY_ID {
                set_underlying_pool(state, found)
            } else {
                Err(ContractError::FailedToParseReply)
            }
        },
        _ => Err(ContractError::FailedToParseReply),
    }
}

/// A reply that a sub-call succeeded with payload `data`.
pub open spec fn success_reply(id: u64, data: Vec<u8>) -> Reply {
    Reply { id, result: SubMsgResult::Success { data: Some(data) } }
}

/// The LP token's instantiation reply is consumed once: after it has been
/// recorded, a second delivery is refused as unauthorized, whatever it
/// holds, and the recorded address is the first one.
pub proof fn lemma_token_reply_once(
    s: StateView,
    first: Vec<u8>,
    second: Vec<u8>,
    found1: Option<UnderlyingPoolView>,
    found2: Option<UnderlyingPoolView>,
)
    requires
        reply_spec(s, success_reply(INSTANTIATE_TOKEN_REPLY_ID, first), found1) is Ok,
    ensures
        ({
            let s1 = reply_spec(s, success_reply(INSTANTIATE_TOKEN_REPLY_ID, first), found1)->Ok_0.0;
            &&& s1.config.pair_info.liquidity_token == instantiate_reply_address(first@)
            &&& reply_spec(s1, success_reply(INSTANTIATE_TOKEN_REPLY_ID, second), found2) == Err::<
                (StateView, ResponseView),
                ContractError,
            >(ContractError::Unauthorized)
        }),
{
}

/// Bootstrap completes: for two different assets, instantiation either
/// finds the backend pool or asks the factory to create it; once the LP
/// token's reply (with a decodable address) and, when asked for, the
/// factory's reply (with the pool found) have been delivered, in either
/// order, the pair is ready: the LP token and the pool are recorded, a
/// withdrawal forwarded by the LP token succeeds, and so does a swap of a
/// pair asset sent with matching coins.
pub proof fn lemma_bootstrap_completes(
    contract: Seq<char>,
    msg: InstantiateMsgView,
    token_name: Seq<char>,
    existing: Option<UnderlyingPoolView>,
    token_data: Vec<u8>,
    created: UnderlyingPoolView,
    token_first: bool,
)
    requires
        msg.asset_infos.len() == 2,
        msg.asset_infos[0] != msg.asset_infos[1],
        instantiate_reply_address(token_data@) is Some,
    ensures
        ({
            let init = instantiate_spec(contract, msg, token_name, existing);
            let s0 = init->Ok_0.0;
            let msgs = init->Ok_0.1.messages;
            let a = success_reply(INSTANTIATE_TOKEN_REPLY_ID, token_data);
            let b = success_reply(CREATE_UNDERLYING_POOL_REPLY_ID, token_data);
            let ready = if existing is Some {
                reply_spec(s0, a, None)->Ok_0.0
            } else if token_first {
                reply_spec(reply_spec(s0, a, None)->Ok_0.0, b, Some(created))->Ok_0.0
            } else {
                reply_spec(reply_spec(s0, b, Some(created))->Ok_0.0, a, None)->Ok_0.0
            };
            &&& init is Ok
            &&& s0.wf()
            &&& msgs[0] is InstantiateLpToken
            &&& existing is Some ==> s0.underlying == existing && msgs.len() == 1
            &&& existing is None ==> msgs.len() == 2 && msgs[1] is CreatePool
            &&& existing is Some ==> (reply_spec(s0, a, None) is Ok)
            &&& existing is None && token_first ==> (reply_spec(s0, a, None) is Ok)
                && (reply_spec(reply_spec(s0, a, None)->Ok_0.0, b, Some(created)) is Ok)
            &&& existing is None && !token_first ==> (reply_spec(s0, b, Some(created)) is Ok)
                && (reply_spec(reply_spec(s0, b, Some(created))->Ok_0.0, a, None) is Ok)
            &&& ready.wf()
            &&& ready.is_ready()
            &&& ready.config.pair_info.liquidity_token == instantiate_reply_address(token_data@)
        }),
{
}

/// Once ready, the operations go through: a withdrawal forwarded by the LP
/// token without chosen proportions, a swap of either pair asset sent with
/// matching coins, and a deposit of the pair's two assets, not both zero,
/// sent with matching coins and not auto-staked.
pub proof fn lemma_ready_operations_succeed(
    s: StateView,
    sender: Seq<char>,
    amount: u128,
    withdrawn: Seq<CoinView>,
    funds: Seq<CoinView>,
    offer: AssetView,
    belief_price: Option<Decimal>,
    max_spread: Option<Decimal>,
    to: Option<Seq<char>>,
    returned: CoinView,
    contract: Seq<char>,
    deposit: Seq<AssetView>,
    deposit_funds: Seq<CoinView>,
    minted: u128,
)
    requires
        s.wf(),
        s.is_ready(),
        deposit.len() == 2,
        deposit[0].info != deposit[1].info,
        deposit[0].info == s.config.pair_info.asset_infos[0] || deposit[0].info
            == s.config.pair_info.asset_infos[1],
        deposit[1].info == s.config.pair_info.asset_infos[0] || deposit[1].info
            == s.config.pair_info.asset_infos[1],
        deposit[0].amount > 0 || deposit[1].amount > 0,
        funds_match(deposit_funds, deposit),
        offer.info == s.config.pair_info.asset_infos[0] || offer.info
            == s.config.pair_info.asset_infos[1],
        native_sent_ok(offer, funds),
    ensures
        withdraw_liquidity_spec(
            s,
            s.config.pair_info.liquidity_token->0,
            sender,
            amount,
            0,
            withdrawn,
        ) is Ok,
        swap_spec(s, funds, sender, offer, belief_price, max_spread, to, returned) is Ok,
        provide_liquidity_spec(s, contract, sender, deposit_funds, deposit, None, to, minted, None)
            is Ok,
{
    lemma_amount_of_two(deposit, s.config.pair_info.asset_infos[0]);
    lemma_amount_of_two(deposit, s.config.pair_info.asset_infos[1]);
}

} // verus!
