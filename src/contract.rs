use crate::asset::{
    assets_view, backend_denom, coins_view, seq_starts_with, starts_with, to_backend_denom,
    wrapped_prefix, wrapped_prefix_of, Asset, AssetInfo, AssetInfoView, AssetView, Coin, CoinView,
};
use crate::error::ContractError;
use crate::response::{attr, attrs_view, msgs_view, Msg, MsgView, Response, ResponseView};
use crate::decimal::{Decimal, DEFAULT_SLIPPAGE_ATOMICS};
use crate::pool_new::{Price, PriceView, SlippageControl, SlippageControlView};
use crate::state::{ContractVersion, ContractVersionView, State, StateView};
use crate::text::{asset_string, asset_text, comma_pair, comma_pair_string, decimal_digits, decimal_string};
use vstd::prelude::*;

verus! {

pub open spec fn result_view(r: Result<Response, ContractError>) -> Result<ResponseView, ContractError> {
    match r {
        Ok(x) => Ok(x@),
        Err(e) => Err(e),
    }
}

/// The amount of the first asset in `assets` that is `info`.
pub open spec fn amount_of(assets: Seq<AssetView>, info: AssetInfoView) -> Option<u128>
    decreases assets.len(),
{
    if assets.len() == 0 {
        None
    } else if assets[0].info == info {
        Some(assets[0].amount)
    } else {
        amount_of(assets.drop_first(), info)
    }
}

/// Every coin sent comes with a native asset of the same denom and amount.
pub open spec fn funds_match(funds: Seq<CoinView>, assets: Seq<AssetView>) -> bool {
    forall|j: int|
        0 <= j < funds.len() ==> amount_of(assets, AssetInfoView::Native(#[trigger] funds[j].denom))
            == Some(funds[j].amount)
}

/// The coins that the backend pool receives for `assets`: each nonzero
/// amount under its backend denom, in the given order.
pub open spec fn backend_coins(adapter: Seq<char>, assets: Seq<AssetView>) -> Seq<CoinView>
    decreases assets.len(),
{
    if assets.len() == 0 {
        Seq::empty()
    } else {
        let a = assets.last();
        backend_coins(adapter, assets.drop_last()) + if a.amount > 0 {
            seq![CoinView { denom: backend_denom(adapter, a.info), amount: a.amount }]
        } else {
            Seq::empty()
        }
    }
}

/// Pull and wrap a token deposit: nothing for a native asset or a zero deposit.
pub open spec fn pull_msg(
    info: AssetInfoView,
    deposit: u128,
    sender: Seq<char>,
    contract: Seq<char>,
) -> Seq<MsgView> {
    if info is Token && deposit > 0 {
        seq![MsgView::TransferFrom { token: info.id(), owner: sender, recipient: contract, amount: deposit }]
    } else {
        Seq::empty()
    }
}

pub open spec fn wrap_msg(info: AssetInfoView, deposit: u128, adapter: Seq<char>) -> Seq<MsgView> {
    if info is Token && deposit > 0 {
        seq![MsgView::Wrap { token: info.id(), adapter, amount: deposit }]
    } else {
        Seq::empty()
    }
}

/// The LP tokens minted for a deposit: straight to `recipient`, or, when
/// auto-staked, to this contract and on to the generator for `recipient`.
pub open spec fn mint_msgs(
    lp_token: Seq<char>,
    contract: Seq<char>,
    recipient: Seq<char>,
    amount: u128,
    auto_stake: bool,
    generator: Seq<char>,
) -> Seq<MsgView> {
    if !auto_stake {
        seq![MsgView::Mint { token: lp_token, recipient, amount }]
    } else {
        seq![
            MsgView::Mint { token: lp_token, recipient: contract, amount },
            MsgView::DepositFor { token: lp_token, generator, beneficiary: recipient, amount },
        ]
    }
}

/// The refusals of a liquidity provision that come before the backend is asked.
pub open spec fn provide_check_spec(s: StateView, funds: Seq<CoinView>, assets: Seq<AssetView>) -> Result<
    (),
    ContractError,
> {
    let infos = s.config.pair_info.asset_infos;
    if assets.len() != 2 {
        Err(ContractError::WrongAssetCount)
    } else if !s.is_ready() {
        Err(ContractError::NotInitialized)
    } else if amount_of(assets, infos[0]) is None || amount_of(assets, infos[1]) is None {
        Err(ContractError::AssetMismatch)
    } else if !funds_match(funds, assets) {
        Err(ContractError::NativeBalanceMismatch)
    } else if amount_of(assets, infos[0]) == Some(0u128) && amount_of(assets, infos[1]) == Some(
        0u128,
    ) {
        Err(ContractError::InvalidZeroAmount)
    } else {
        Ok(())
    }
}

pub open spec fn provide_liquidity_spec(
    s: StateView,
    contract: Seq<char>,
    sender: Seq<char>,
    funds: Seq<CoinView>,
    assets: Seq<AssetView>,
    auto_stake: Option<bool>,
    receiver: Option<Seq<char>>,
    minted: u128,
    generator: Option<Seq<char>>,
) -> Result<ResponseView, ContractError> {
    let infos = s.config.pair_info.asset_infos;
    let adapter = s.config.cw20_adapter_addr;
    let stake = auto_stake == Some(true);
    if provide_check_spec(s, funds, assets) is Err {
        Err(provide_check_spec(s, funds, assets)->Err_0)
    } else if stake && generator is None {
        Err(ContractError::AutoStakeError)
    } else {
        let d0 = amount_of(assets, infos[0])->0;
        let d1 = amount_of(assets, infos[1])->0;
        let lp = s.config.pair_info.liquidity_token->0;
        let pool = s.underlying->0.pool_addr;
        let recipient = match receiver {
            Some(r) => r,
            None => sender,
        };
        Ok(
            ResponseView {
                messages: pull_msg(infos[0], d0, sender, contract) + pull_msg(
                    infos[1],
                    d1,
                    sender,
                    contract,
                ) + wrap_msg(infos[0], d0, adapter) + wrap_msg(infos[1], d1, adapter) + seq![
                    MsgView::ProvideLiquidity { pool, funds: backend_coins(adapter, assets) },
                ] + mint_msgs(lp, contract, recipient, minted, stake, generator.unwrap_or(Seq::empty())),
                attributes: seq![
                    ("action"@, "provide_liquidity"@),
                    ("sender"@, sender),
                    ("receiver"@, recipient),
                    ("assets"@, comma_pair(asset_text(assets[0]), asset_text(assets[1]))),
                ],
            },
        )
    }
}

/// Of two assets, the amount found for `info` is that of the first that is `info`.
pub proof fn lemma_amount_of_two(assets: Seq<AssetView>, info: AssetInfoView)
    requires
        assets.len() == 2,
    ensures
        amount_of(assets, info) == if assets[0].info == info {
            Some(assets[0].amount)
        } else if assets[1].info == info {
            Some(assets[1].amount)
        } else {
            None
        },
{
    reveal_with_fuel(amount_of, 3);
    assert(assets.drop_first().drop_first().len() == 0);
    assert(assets.drop_first()[0] == assets[1]);
}

/// The amount of the first of two assets that is `info`.
fn find_amount(assets: &Vec<Asset>, info: &AssetInfo) -> (r: Option<u128>)
    requires
        assets.len() == 2,
    ensures
        r == amount_of(assets_view(assets@), info@),
{
    let ghost v = assets_view(assets@);
    proof {
        reveal_with_fuel(amount_of, 3);
        assert(v.drop_first().drop_first().len() == 0);
        assert(v.drop_first()[0] == v[1]);
    }
    if assets[0].info.equal(info) {
        Some(assets[0].amount)
    } else if assets[1].info.equal(info) {
        Some(assets[1].amount)
    } else {
        None
    }
}

/// Whether every coin sent matches a native asset of two in denom and amount.
fn funds_properly_sent(funds: &Vec<Coin>, assets: &Vec<Asset>) -> (r: bool)
    requires
        assets.len() == 2,
    ensures
        r == funds_match(coins_view(funds@), assets_view(assets@)),
{
    let ghost fv = coins_view(funds@);
    let mut i: usize = 0;
    while i < funds.len()
        invariant
            assets.len() == 2,
            fv == coins_view(funds@),
            i <= funds.len(),
            forall|j: int|
                0 <= j < i ==> amount_of(assets_view(assets@), AssetInfoView::Native(#[trigger] fv[j].denom))
                    == Some(fv[j].amount),
        decreases funds.len() - i,
    {
        let probe = AssetInfo::NativeToken { denom: funds[i].denom.clone() };
        assert(probe@ == AssetInfoView::Native(fv[i as int].denom));
        assert(fv[i as int].amount == funds@[i as int].amount);
        match find_amount(assets, &probe) {
            Some(a) => {
                if a != funds[i].amount {
                    assert(!funds_match(fv, assets_view(assets@)));
                    return false;
                }
            },
            None => {
                assert(!funds_match(fv, assets_view(assets@)));
                return false;
            },
        }
        i = i + 1;
    }
    true
}

/// The coins that the backend pool receives for `assets`: each nonzero amount
/// under its backend denom, in the given order.
pub fn backend_funds(adapter: &String, assets: &Vec<Asset>) -> (r: Vec<Coin>)
    ensures
        coins_view(r@) == backend_coins(adapter@, assets_view(assets@)),
{
    let ghost av = assets_view(assets@);
    let mut r: Vec<Coin> = Vec::new();
    let mut i: usize = 0;
    while i < assets.len()
        invariant
            i <= assets.len(),
            av == assets_view(assets@),
            coins_view(r@) == backend_coins(adapter@, av.take(i as int)),
        decreases assets.len() - i,
    {
        proof {
            assert(av.take(i + 1).drop_last() =~= av.take(i as int));
            assert(av.take(i + 1).last() == av[i as int]);
        }
        let a = &assets[i];
        if a.amount > 0 {
            let c = Coin { denom: to_backend_denom(adapter, &a.info), amount: a.amount };
            let ghost before = r@;
            r.push(c);
            proof {
                assert(coins_view(r@) =~= coins_view(before) + seq![c@]);
            }
        } else {
            proof {
                assert(backend_coins(adapter@, av.take(i as int)) + Seq::<CoinView>::empty()
                    =~= backend_coins(adapter@, av.take(i as int)));
            }
        }
        i = i + 1;
    }
    proof {
        assert(av.take(assets.len() as int) =~= av);
    }
    r
}

fn push_msg(v: &mut Vec<Msg>, m: Msg)
    ensures
        msgs_view(final(v)@) == msgs_view(old(v)@).push(m@),
{
    v.push(m);
    proof {
        assert(msgs_view(final(v)@) =~= msgs_view(old(v)@).push(m@));
    }
}

/// Mint LP tokens for `recipient`, or, when auto-staked, mint them to this
/// contract and send them on to the generator on behalf of `recipient`.
fn mint_liquidity_token_message(
    lp_token: &String,
    contract_address: &String,
    recipient: &String,
    amount: u128,
    auto_stake: bool,
    generator: Option<String>,
) -> (r: Result<Vec<Msg>, ContractError>)
    ensures
        auto_stake && generator is None ==> r == Err::<Vec<Msg>, ContractError>(
            ContractError::AutoStakeError,
        ),
        !(auto_stake && generator is None) ==> r is Ok && msgs_view(r->Ok_0@) == mint_msgs(
            lp_token@,
            contract_address@,
            recipient@,
            amount,
            auto_stake,
            generator.deep_view().unwrap_or(Seq::empty()),
        ),
{
    if !auto_stake {
        let r = vec![Msg::Mint { token: lp_token.clone(), recipient: recipient.clone(), amount }];
        proof {
            assert(msgs_view(r@) =~= mint_msgs(
                lp_token@,
                contract_address@,
                recipient@,
                amount,
                auto_stake,
                generator.deep_view().unwrap_or(Seq::empty()),
            ));
        }
        return Ok(r);
    }
    match generator {
        Some(g) => {
            let r = vec![
                Msg::Mint { token: lp_token.clone(), recipient: contract_address.clone(), amount },
                Msg::DepositFor {
                    token: lp_token.clone(),
                    generator: g,
                    beneficiary: recipient.clone(),
                    amount,
                },
            ];
            proof {
                assert(msgs_view(r@) =~= mint_msgs(
                    lp_token@,
                    contract_address@,
                    recipient@,
                    amount,
                    auto_stake,
                    generator.deep_view().unwrap_or(Seq::empty()),
                ));
            }
            Ok(r)
        },
        None => Err(ContractError::AutoStakeError),
    }
}

/// Deposit two assets into the backend pool on behalf of `sender`.
///
/// Token deposits are pulled from `sender` and wrapped at the denom adapter;
/// then everything goes to the backend pool as native coins, and
/// `minted_lp` LP tokens (the backend's simulation of this same deposit,
/// whose request [`backend_funds`] gives) are minted for `receiver`, or for
/// `sender` when there is none; with `auto_stake` they are staked at
/// `generator` instead.
pub fn provide_liquidity(
    state: &State,
    contract_addr: &String,
    sender: &String,
    funds: &Vec<Coin>,
    assets: &Vec<Asset>,
    auto_stake: Option<bool>,
    receiver: Option<String>,
    minted_lp: u128,
    generator: Option<String>,
) -> (r: Result<Response, ContractError>)
    requires
        state@.wf(),
    ensures
        result_view(r) == provide_liquidity_spec(
            state@,
            contract_addr@,
            sender@,
            coins_view(funds@),
            assets_view(assets@),
            auto_stake,
            receiver.deep_view(),
            minted_lp,
            generator.deep_view(),
        ),
        // A deposit of an asset outside the pair is refused, before any effect.
        assets@.len() == 2 && state@.is_ready() && (exists|k: int|
            0 <= k < 2 && #[trigger] assets_view(assets@)[k].info
                != state@.config.pair_info.asset_infos[0] && assets_view(assets@)[k].info
                != state@.config.pair_info.asset_infos[1]) ==> r == Err::<Response, ContractError>(
            ContractError::AssetMismatch,
        ),
        // A deposit of the pair's two assets, both zero, is refused.
        assets@.len() == 2 && state@.is_ready() && assets[0].amount == 0 && assets[1].amount == 0
            && assets_view(assets@)[0].info != assets_view(assets@)[1].info
            && (assets_view(assets@)[0].info == state@.config.pair_info.asset_infos[0]
            || assets_view(assets@)[0].info == state@.config.pair_info.asset_infos[1])
            && (assets_view(assets@)[1].info == state@.config.pair_info.asset_infos[0]
            || assets_view(assets@)[1].info == state@.config.pair_info.asset_infos[1])
            && funds_match(coins_view(funds@), assets_view(assets@)) ==> r == Err::<
            Response,
            ContractError,
        >(ContractError::InvalidZeroAmount),
{
    proof {
        if assets.len() == 2 {
            lemma_amount_of_two(assets_view(assets@), state@.config.pair_info.asset_infos[0]);
            lemma_amount_of_two(assets_view(assets@), state@.config.pair_info.asset_infos[1]);
        }
    }
    build_provide_liquidity(
        state,
        contract_addr,
        sender,
        funds,
        assets,
        auto_stake,
        receiver,
        minted_lp,
        generator,
    )
}

fn build_provide_liquidity(
    state: &State,
    contract_addr: &String,
    sender: &String,
    funds: &Vec<Coin>,
    assets: &Vec<Asset>,
    auto_stake: Option<bool>,
    receiver: Option<String>,
    minted_lp: u128,
    generator: Option<String>,
) -> (r: Result<Response, ContractError>)
    requires
        state@.wf(),
    ensures
        result_view(r) == provide_liquidity_spec(
            state@,
            contract_addr@,
            sender@,
            coins_view(funds@),
            assets_view(assets@),
            auto_stake,
            receiver.deep_view(),
            minted_lp,
            generator.deep_view(),
        ),
{
    let ghost av = assets_view(assets@);
    if assets.len() != 2 {
        return Err(ContractError::WrongAssetCount);
    }
    let config = &state.config;
    let lp_token = match &config.pair_info.liquidity_token {
        Some(t) => t,
        None => {
            return Err(ContractError::NotInitialized);
        },
    };
    let pool = match &state.underlying {
        Some(u) => u,
        None => {
            return Err(ContractError::NotInitialized);
        },
    };
    let infos = &config.pair_info.asset_infos;
    let d0 = find_amount(assets, &infos[0]);
    let d1 = find_amount(assets, &infos[1]);
    if d0.is_none() || d1.is_none() {
        return Err(ContractError::AssetMismatch);
    }
    let d0 = d0.unwrap();
    let d1 = d1.unwrap();
    if !funds_properly_sent(funds, assets) {
        return Err(ContractError::NativeBalanceMismatch);
    }
    if d0 == 0 && d1 == 0 {
        return Err(ContractError::InvalidZeroAmount);
    }
    let stake = match auto_stake {
        Some(b) => b,
        None => false,
    };
    let recipient = match receiver {
        Some(r) => r,
        None => sender.clone(),
    };
    let adapter = &config.cw20_adapter_addr;
    let mut messages: Vec<Msg> = Vec::new();
    proof {
        assert(msgs_view(messages@) =~= Seq::<MsgView>::empty());
    }
    // Pull token deposits from the sender.
    if !infos[0].is_native_token() && d0 > 0 {
        push_msg(
            &mut messages,
            Msg::TransferFrom {
                token: infos[0].id().clone(),
                owner: sender.clone(),
                recipient: contract_addr.clone(),
                amount: d0,
            },
        );
    }
    if !infos[1].is_native_token() && d1 > 0 {
        push_msg(
            &mut messages,
            Msg::TransferFrom {
                token: infos[1].id().clone(),
                owner: sender.clone(),
                recipient: contract_addr.clone(),
                amount: d1,
            },
        );
    }
    // Wrap them into the adapter's native denoms.
    if !infos[0].is_native_token() && d0 > 0 {
        push_msg(
            &mut messages,
            Msg::Wrap { token: infos[0].id().clone(), adapter: adapter.clone(), amount: d0 },
        );
    }
    if !infos[1].is_native_token() && d1 > 0 {
        push_msg(
            &mut messages,
            Msg::Wrap { token: infos[1].id().clone(), adapter: adapter.clone(), amount: d1 },
        );
    }
    // Deposit everything in the backend pool.
    push_msg(
        &mut messages,
        Msg::ProvideLiquidity { pool: pool.pool_addr.clone(), funds: backend_funds(adapter, assets) },
    );
    let ghost before_mint = msgs_view(messages@);
    let mut minted = match mint_liquidity_token_message(
        lp_token,
        contract_addr,
        &recipient,
        minted_lp,
        stake,
        generator,
    ) {
        Ok(m) => m,
        Err(e) => {
            return Err(e);
        },
    };
    let ghost mint_view = msgs_view(minted@);
    messages.append(&mut minted);
    proof {
        assert(msgs_view(messages@) =~= before_mint + mint_view);
    }
    let attributes = vec![
        attr("action", String::from_str("provide_liquidity")),
        attr("sender", sender.clone()),
        attr("receiver", recipient.clone()),
        attr("assets", comma_pair_string(asset_string(&assets[0]), &asset_string(&assets[1]))),
    ];
    let r = Response { messages, attributes };
    proof {
        let spec_r = provide_liquidity_spec(
            state@,
            contract_addr@,
            sender@,
            coins_view(funds@),
            av,
            auto_stake,
            receiver.deep_view(),
            minted_lp,
            generator.deep_view(),
        );
        assert(attrs_view(r.attributes@) =~= spec_r->Ok_0.attributes);
        assert(msgs_view(r.messages@) =~= spec_r->Ok_0.messages);
    }
    Ok(r)
}

/// The amount of the first coin of denom `denom`.
pub open spec fn coin_amount(funds: Seq<CoinView>, denom: Seq<char>) -> Option<u128>
    decreases funds.len(),
{
    if funds.len() == 0 {
        None
    } else if funds[0].denom == denom {
        Some(funds[0].amount)
    } else {
        coin_amount(funds.drop_first(), denom)
    }
}

/// A native offer comes with exactly its amount in coins (none for zero).
pub open spec fn native_sent_ok(offer: AssetView, funds: Seq<CoinView>) -> bool {
    match offer.info {
        AssetInfoView::Native(d) => match coin_amount(funds, d) {
            Some(a) => a == offer.amount,
            None => offer.amount == 0,
        },
        AssetInfoView::Token(_) => true,
    }
}

/// The other asset of the pair, when `info` is one of its two.
pub open spec fn counter_asset(infos: Seq<AssetInfoView>, info: AssetInfoView) -> Option<
    AssetInfoView,
> {
    if info == infos[0] {
        Some(infos[1])
    } else if info == infos[1] {
        Some(infos[0])
    } else {
        None
    }
}

/// Who receives the proceeds of a swap: `to`, or the sender.
pub open spec fn swap_receiver(sender: Seq<char>, to: Option<Seq<char>>) -> Seq<char> {
    match to {
        Some(t) => t,
        None => sender,
    }
}

pub open spec fn swap_slippage(
    offer_denom: Seq<char>,
    ask_denom: Seq<char>,
    belief_price: Option<Decimal>,
    max_spread: Option<Decimal>,
) -> Option<SlippageControlView> {
    match belief_price {
        Some(p) => Some(
            SlippageControlView {
                belief_price: PriceView { base_asset: offer_denom, quote_asset: ask_denom, price: p },
                slippage_tolerance: match max_spread {
                    Some(m) => m,
                    None => Decimal { atomics: DEFAULT_SLIPPAGE_ATOMICS },
                },
            },
        ),
        None => None,
    }
}

/// The backend simulation that a swap of `offer` asks for: the ask denom
/// and the offered coin.
pub open spec fn swap_request_spec(s: StateView, offer: AssetView) -> Result<
    (Seq<char>, CoinView),
    ContractError,
> {
    let adapter = s.config.cw20_adapter_addr;
    match counter_asset(s.config.pair_info.asset_infos, offer.info) {
        None => Err(ContractError::AssetMismatch),
        Some(ask) => Ok(
            (
                backend_denom(adapter, ask),
                CoinView { denom: backend_denom(adapter, offer.info), amount: offer.amount },
            ),
        ),
    }
}

/// The refusals of a swap that come before the backend is asked.
pub open spec fn swap_check_spec(s: StateView, funds: Seq<CoinView>, offer: AssetView) -> Result<
    (),
    ContractError,
> {
    if !native_sent_ok(offer, funds) {
        Err(ContractError::NativeBalanceMismatch)
    } else if counter_asset(s.config.pair_info.asset_infos, offer.info) is None {
        Err(ContractError::AssetMismatch)
    } else if s.underlying is None {
        Err(ContractError::NotInitialized)
    } else {
        Ok(())
    }
}

pub open spec fn swap_spec(
    s: StateView,
    funds: Seq<CoinView>,
    sender: Seq<char>,
    offer: AssetView,
    belief_price: Option<Decimal>,
    max_spread: Option<Decimal>,
    to: Option<Seq<char>>,
    returned: CoinView,
) -> Result<ResponseView, ContractError> {
    let adapter = s.config.cw20_adapter_addr;
    if swap_check_spec(s, funds, offer) is Err {
        Err(swap_check_spec(s, funds, offer)->Err_0)
    } else {
        let ask = counter_asset(s.config.pair_info.asset_infos, offer.info)->0;
        let ask_denom = backend_denom(adapter, ask);
        let offer_denom = backend_denom(adapter, offer.info);
        let receiver = swap_receiver(sender, to);
        let wrap = if offer.info is Token {
            seq![MsgView::Wrap { token: adapter, adapter, amount: offer.amount }]
        } else {
            Seq::empty()
        };
        let swap = MsgView::SwapExactIn {
            pool: s.underlying->0.pool_addr,
            ask_denom,
            recipient: if ask is Token {
                None
            } else {
                Some(receiver)
            },
            slippage_control: swap_slippage(offer_denom, ask_denom, belief_price, max_spread),
            funds: seq![CoinView { denom: offer_denom, amount: offer.amount }],
        };
        let unwrap = if ask is Token {
            seq![
                MsgView::RedeemAndTransfer {
                    adapter,
                    recipient: Some(receiver),
                    funds: seq![returned],
                },
            ]
        } else {
            Seq::empty()
        };
        Ok(ResponseView { messages: wrap + seq![swap] + unwrap, attributes: Seq::empty() })
    }
}

/// The amount of the first coin of denom `denom`.
fn find_coin_amount(funds: &Vec<Coin>, denom: &String) -> (r: Option<u128>)
    ensures
        r == coin_amount(coins_view(funds@), denom@),
{
    let ghost fv = coins_view(funds@);
    let mut i: usize = 0;
    proof {
        assert(fv.subrange(0, fv.len() as int) =~= fv);
    }
    while i < funds.len()
        invariant
            i <= funds.len(),
            fv == coins_view(funds@),
            coin_amount(fv, denom@) == coin_amount(fv.subrange(i as int, fv.len() as int), denom@),
        decreases funds.len() - i,
    {
        proof {
            let t = fv.subrange(i as int, fv.len() as int);
            assert(t[0] == fv[i as int]);
            assert(t.drop_first() =~= fv.subrange(i + 1, fv.len() as int));
        }
        if funds[i].denom.eq(denom) {
            return Some(funds[i].amount);
        }
        i = i + 1;
    }
    None
}

fn native_sent_matches(offer: &Asset, funds: &Vec<Coin>) -> (r: bool)
    ensures
        r == native_sent_ok(offer@, coins_view(funds@)),
{
    match &offer.info {
        AssetInfo::NativeToken { denom } => match find_coin_amount(funds, denom) {
            Some(a) => a == offer.amount,
            None => offer.amount == 0,
        },
        AssetInfo::Token { .. } => true,
    }
}

/// The other asset of the pair, when `info` is one of its two.
fn find_counter_asset<'a>(infos: &'a Vec<AssetInfo>, info: &AssetInfo) -> (r: Option<&'a AssetInfo>)
    requires
        infos.len() == 2,
    ensures
        match r {
            Some(a) => counter_asset(crate::asset::infos_view(infos@), info@) == Some(a@),
            None => counter_asset(crate::asset::infos_view(infos@), info@) is None,
        },
{
    if info.equal(&infos[0]) {
        Some(&infos[1])
    } else if info.equal(&infos[1]) {
        Some(&infos[0])
    } else {
        None
    }
}

/// The backend simulation that a swap of `offer_asset` asks for: the denom
/// asked for and the coin offered, both as the backend names them.
pub fn swap_simulation_request(state: &State, offer_asset: &Asset) -> (r: Result<(String, Coin), ContractError>)
    requires
        state@.wf(),
    ensures
        match r {
            Ok((d, c)) => swap_request_spec(state@, offer_asset@) == Ok::<(Seq<char>, CoinView), ContractError>((d@, c@)),
            Err(e) => swap_request_spec(state@, offer_asset@) == Err::<(Seq<char>, CoinView), ContractError>(e),
        },
{
    let adapter = &state.config.cw20_adapter_addr;
    match find_counter_asset(&state.config.pair_info.asset_infos, &offer_asset.info) {
        None => Err(ContractError::AssetMismatch),
        Some(ask) => Ok(
            (
                to_backend_denom(adapter, ask),
                Coin { denom: to_backend_denom(adapter, &offer_asset.info), amount: offer_asset.amount },
            ),
        ),
    }
}

/// Swap `offer_asset`, sent by `sender`, for the pair's other asset.
///
/// A token offer is wrapped at the denom adapter first. The backend swap
/// pays `to` (or `sender`) directly when the asked asset is native; when it
/// is a token, the proceeds come to this contract and are unwrapped to that
/// receiver. `returned` is the backend's simulation of this same swap, whose
/// request [`swap_simulation_request`] gives.
pub fn swap(
    state: &State,
    funds: &Vec<Coin>,
    sender: &String,
    offer_asset: &Asset,
    belief_price: Option<Decimal>,
    max_spread: Option<Decimal>,
    to: Option<String>,
    returned: &Coin,
) -> (r: Result<Response, ContractError>)
    requires
        state@.wf(),
    ensures
        result_view(r) == swap_spec(
            state@,
            coins_view(funds@),
            sender@,
            offer_asset@,
            belief_price,
            max_spread,
            to.deep_view(),
            returned@,
        ),
        // The last effect delivers what the simulation returned to the receiver:
        // through the adapter exactly when the asked asset is a token.
        r is Ok ==> {
            let msgs = r->Ok_0@.messages;
            let ask = counter_asset(state@.config.pair_info.asset_infos, offer_asset@.info)->0;
            let receiver = swap_receiver(sender@, to.deep_view());
            &&& msgs.len() > 0
            &&& ask is Token ==> msgs.last() == MsgView::RedeemAndTransfer {
                adapter: state@.config.cw20_adapter_addr,
                recipient: Some(receiver),
                funds: seq![returned@],
            }
            &&& ask is Native ==> msgs.last() is SwapExactIn && msgs.last()->SwapExactIn_recipient
                == Some(receiver)
            &&& ask is Native ==> forall|i: int| 0 <= i < msgs.len() ==> !(msgs[i] is RedeemAndTransfer)
        },
{
    if !native_sent_matches(offer_asset, funds) {
        return Err(ContractError::NativeBalanceMismatch);
    }
    let config = &state.config;
    let adapter = &config.cw20_adapter_addr;
    let ask = match find_counter_asset(&config.pair_info.asset_infos, &offer_asset.info) {
        Some(a) => a,
        None => {
            return Err(ContractError::AssetMismatch);
        },
    };
    let pool = match &state.underlying {
        Some(u) => u,
        None => {
            return Err(ContractError::NotInitialized);
        },
    };
    let ask_denom = to_backend_denom(adapter, ask);
    let offer_denom = to_backend_denom(adapter, &offer_asset.info);
    let ask_is_token = !ask.is_native_token();
    let receiver = match to {
        Some(t) => t,
        None => sender.clone(),
    };
    let mut messages: Vec<Msg> = Vec::new();
    proof {
        assert(msgs_view(messages@) =~= Seq::<MsgView>::empty());
    }
    // A token offer is wrapped at the adapter first.
    if !offer_asset.info.is_native_token() {
        push_msg(
            &mut messages,
            Msg::Wrap { token: adapter.clone(), adapter: adapter.clone(), amount: offer_asset.amount },
        );
    }
    // A token ask comes back here to be unwrapped; a native one goes straight out.
    let recipient = if ask_is_token {
        None
    } else {
        Some(receiver.clone())
    };
    let slippage_control = match belief_price {
        Some(p) => Some(
            SlippageControl {
                belief_price: Price {
                    base_asset: offer_denom.clone(),
                    quote_asset: ask_denom.clone(),
                    price: p,
                },
                slippage_tolerance: match max_spread {
                    Some(m) => m,
                    None => Decimal { atomics: DEFAULT_SLIPPAGE_ATOMICS },
                },
            },
        ),
        None => None,
    };
    let swap_funds = vec![Coin { denom: offer_denom, amount: offer_asset.amount }];
    let ghost swap_funds_view = coins_view(swap_funds@);
    push_msg(
        &mut messages,
        Msg::SwapExactIn {
            pool: pool.pool_addr.clone(),
            ask_denom: ask_denom,
            recipient,
            slippage_control,
            funds: swap_funds,
        },
    );
    if ask_is_token {
        let unwrap_funds = vec![returned.duplicate()];
        proof {
            assert(coins_view(unwrap_funds@) =~= seq![returned@]);
        }
        push_msg(
            &mut messages,
            Msg::RedeemAndTransfer {
                adapter: adapter.clone(),
                recipient: Some(receiver),
                funds: unwrap_funds,
            },
        );
    }
    let r = Response { messages, attributes: Vec::new() };
    proof {
        let spec_r = swap_spec(
            state@,
            coins_view(funds@),
            sender@,
            offer_asset@,
            belief_price,
            max_spread,
            to.deep_view(),
            returned@,
        );
        assert(swap_funds_view =~= seq![CoinView { denom: backend_denom(adapter@, offer_asset@.info), amount: offer_asset.amount }]);
        assert(attrs_view(r.attributes@) =~= spec_r->Ok_0.attributes);
        assert(msgs_view(r.messages@) =~= spec_r->Ok_0.messages);
    }
    Ok(r)
}

/// How a coin that the backend pays out reaches `to`: a wrapped coin is
/// unwrapped by the adapter, any other coin is sent as it is.
pub open spec fn payout_msg(adapter: Seq<char>, to: Seq<char>, c: CoinView) -> MsgView {
    if seq_starts_with(c.denom, wrapped_prefix(adapter)) {
        MsgView::RedeemAndTransfer { adapter, recipient: Some(to), funds: seq![c] }
    } else {
        MsgView::BankSend { to, amount: seq![c] }
    }
}

pub open spec fn payout_msgs(adapter: Seq<char>, to: Seq<char>, coins: Seq<CoinView>) -> Seq<MsgView> {
    coins.map_values(|c: CoinView| payout_msg(adapter, to, c))
}

/// The refusals of a withdrawal that come before the backend is asked.
pub open spec fn withdraw_check_spec(s: StateView, caller: Seq<char>, n_assets: nat) -> Result<
    (),
    ContractError,
> {
    if s.config.pair_info.liquidity_token != Some(caller) {
        Err(ContractError::Unauthorized)
    } else if n_assets > 0 {
        Err(ContractError::ImbalancedWithdrawDisabled)
    } else if s.underlying is None {
        Err(ContractError::NotInitialized)
    } else {
        Ok(())
    }
}

pub open spec fn withdraw_liquidity_spec(
    s: StateView,
    caller: Seq<char>,
    sender: Seq<char>,
    amount: u128,
    n_assets: nat,
    withdrawn: Seq<CoinView>,
) -> Result<ResponseView, ContractError> {
    if withdraw_check_spec(s, caller, n_assets) is Err {
        Err(withdraw_check_spec(s, caller, n_assets)->Err_0)
    } else {
        let lp = s.config.pair_info.liquidity_token->0;
        let u = s.underlying->0;
        Ok(
            ResponseView {
                messages: seq![
                    MsgView::Burn { token: lp, amount },
                    MsgView::WithdrawLiquidity {
                        pool: u.pool_addr,
                        funds: seq![CoinView { denom: u.lp_denom, amount }],
                    },
                ] + payout_msgs(s.config.cw20_adapter_addr, sender, withdrawn),
                attributes: seq![
                    ("action"@, "withdraw_liquidity"@),
                    ("sender"@, sender),
                    ("withdrawn_share"@, decimal_digits(amount as nat)),
                ],
            },
        )
    }
}

fn payout(adapter: &String, prefix: &String, to: &String, c: &Coin) -> (r: Msg)
    requires
        prefix@ == wrapped_prefix(adapter@),
    ensures
        r@ == payout_msg(adapter@, to@, c@),
{
    let funds = vec![c.duplicate()];
    proof {
        assert(coins_view(funds@) =~= seq![c@]);
    }
    if starts_with(&c.denom, prefix) {
        Msg::RedeemAndTransfer { adapter: adapter.clone(), recipient: Some(to.clone()), funds }
    } else {
        Msg::BankSend { to: to.clone(), amount: funds }
    }
}

/// Redeem `amount` LP tokens, which the LP token contract (`caller`) has
/// forwarded on behalf of `sender`.
///
/// The LP tokens are burnt, the matching backend shares are withdrawn, and
/// each coin that the backend pays out (`withdrawn`: its simulation of this
/// same withdrawal) goes to `sender`, unwrapped first when it is a wrapped
/// token. A non-empty `assets` (a withdrawal in chosen proportions) is refused.
pub fn withdraw_liquidity(
    state: &State,
    caller: &String,
    sender: &String,
    amount: u128,
    assets: &Vec<Asset>,
    withdrawn: &Vec<Coin>,
) -> (r: Result<Response, ContractError>)
    ensures
        result_view(r) == withdraw_liquidity_spec(
            state@,
            caller@,
            sender@,
            amount,
            assets@.len(),
            coins_view(withdrawn@),
        ),
        assets@.len() > 0 ==> r is Err,
{
    let config = &state.config;
    let lp_token = match &config.pair_info.liquidity_token {
        Some(t) => t,
        None => {
            return Err(ContractError::Unauthorized);
        },
    };
    if !caller.eq(lp_token) {
        return Err(ContractError::Unauthorized);
    }
    if assets.len() > 0 {
        return Err(ContractError::ImbalancedWithdrawDisabled);
    }
    let pool = match &state.underlying {
        Some(u) => u,
        None => {
            return Err(ContractError::NotInitialized);
        },
    };
    let adapter = &config.cw20_adapter_addr;
    let lp_funds = vec![Coin { denom: pool.lp_denom.clone(), amount }];
    let ghost lp_funds_view = coins_view(lp_funds@);
    let mut messages = vec![
        Msg::Burn { token: lp_token.clone(), amount },
        Msg::WithdrawLiquidity { pool: pool.pool_addr.clone(), funds: lp_funds },
    ];
    let ghost head = msgs_view(messages@);
    let ghost wv = coins_view(withdrawn@);
    let prefix = wrapped_prefix_of(adapter);
    let mut i: usize = 0;
    proof {
        assert(msgs_view(messages@) =~= head + payout_msgs(adapter@, sender@, wv.take(0)));
    }
    while i < withdrawn.len()
        invariant
            i <= withdrawn.len(),
            wv == coins_view(withdrawn@),
            prefix@ == wrapped_prefix(adapter@),
            msgs_view(messages@) == head + payout_msgs(adapter@, sender@, wv.take(i as int)),
        decreases withdrawn.len() - i,
    {
        let m = payout(adapter, &prefix, sender, &withdrawn[i]);
        push_msg(&mut messages, m);
        proof {
            assert(payout_msgs(adapter@, sender@, wv.take(i + 1)) =~= payout_msgs(
                adapter@,
                sender@,
                wv.take(i as int),
            ).push(m@));
        }
        i = i + 1;
    }
    proof {
        assert(wv.take(withdrawn.len() as int) =~= wv);
    }
    let attributes = vec![
        attr("action", String::from_str("withdraw_liquidity")),
        attr("sender", sender.clone()),
        attr("withdrawn_share", decimal_string(amount)),
    ];
    let r = Response { messages, attributes };
    proof {
        let spec_r = withdraw_liquidity_spec(
            state@,
            caller@,
            sender@,
            amount,
            assets@.len(),
            wv,
        );
        assert(lp_funds_view =~= seq![CoinView { denom: pool.lp_denom@, amount }]);
        assert(attrs_view(r.attributes@) =~= spec_r->Ok_0.attributes);
        assert(msgs_view(r.messages@) =~= spec_r->Ok_0.messages);
    }
    Ok(r)
}

pub open spec fn version_result_view(r: Result<(ContractVersion, Response), ContractError>) -> Result<
    (ContractVersionView, ResponseView),
    ContractError,
> {
    match r {
        Ok((v, x)) => Ok((v@, x@)),
        Err(e) => Err(e),
    }
}

pub open spec fn migrate_spec(
    stored: ContractVersionView,
    name: Seq<char>,
    version: Seq<char>,
) -> Result<(ContractVersionView, ResponseView), ContractError> {
    if stored.contract != name || stored.version == version {
        Err(ContractError::MigrationError)
    } else {
        Ok(
            (
                ContractVersionView { contract: name, version },
                ResponseView {
                    messages: Seq::empty(),
                    attributes: seq![
                        ("previous_contract_name"@, stored.contract),
                        ("previous_contract_version"@, stored.version),
                        ("new_contract_name"@, name),
                        ("new_contract_version"@, version),
                    ],
                },
            ),
        )
    }
}

/// Move the contract to the code `name` at `version`: allowed only for the
/// same contract name and a different version than the one `stored`.
pub fn migrate(stored: &ContractVersion, name: &str, version: &str) -> (r: Result<
    (ContractVersion, Response),
    ContractError,
>)
    ensures
        version_result_view(r) == migrate_spec(stored@, name@, version@),
        stored@.contract != name@ ==> (r is Err),
        stored@.version == version@ ==> (r is Err),
        (stored@.contract == name@ && stored@.version != version@) ==> (r is Ok
            && r->Ok_0.0@.contract == name@ && r->Ok_0.0@.version == version@),
{
    let name = String::from_str(name);
    let version = String::from_str(version);
    if !stored.contract.eq(&name) || stored.version.eq(&version) {
        return Err(ContractError::MigrationError);
    }
    let attributes = vec![
        attr("previous_contract_name", stored.contract.clone()),
        attr("previous_contract_version", stored.version.clone()),
        attr("new_contract_name", name.clone()),
        attr("new_contract_version", version.clone()),
    ];
    let r = Response { messages: Vec::new(), attributes };
    proof {
        let spec_r = migrate_spec(stored@, name@, version@);
        assert(attrs_view(r.attributes@) =~= spec_r->Ok_0.1.attributes);
        assert(msgs_view(r.messages@) =~= spec_r->Ok_0.1.messages);
    }
    Ok((ContractVersion { contract: name, version }, r))
}

/// A swap asked for directly, with native coins: `offer_asset` must be native
/// (a token is swapped through its own send hook); `sender` is the caller.
pub fn execute_swap(
    state: &State,
    sender: &String,
    funds: &Vec<Coin>,
    offer_asset: &Asset,
    belief_price: Option<Decimal>,
    max_spread: Option<Decimal>,
    to: Option<String>,
    returned: &Coin,
) -> (r: Result<Response, ContractError>)
    requires
        state@.wf(),
    ensures
        !offer_asset@.info.is_native() ==> r == Err::<Response, ContractError>(
            ContractError::Cw20DirectSwap,
        ),
        offer_asset@.info.is_native() ==> result_view(r) == swap_spec(
            state@,
            coins_view(funds@),
            sender@,
            offer_asset@,
            belief_price,
            max_spread,
            to.deep_view(),
            returned@,
        ),
{
    if !offer_asset.info.is_native_token() {
        return Err(ContractError::Cw20DirectSwap);
    }
    swap(state, funds, sender, offer_asset, belief_price, max_spread, to, returned)
}

/// Whether `caller` is the token contract of one of the pair's assets.
pub open spec fn is_pair_token(s: StateView, caller: Seq<char>) -> bool {
    exists|k: int|
        0 <= k < s.config.pair_info.asset_infos.len()
            && #[trigger] s.config.pair_info.asset_infos[k] == AssetInfoView::Token(caller)
}

/// A swap of `amount` tokens that the token contract `caller` has sent on
/// behalf of `token_sender`. Only a token of the pair may ask.
pub fn receive_swap(
    state: &State,
    caller: &String,
    funds: &Vec<Coin>,
    token_sender: &String,
    amount: u128,
    belief_price: Option<Decimal>,
    max_spread: Option<Decimal>,
    to: Option<String>,
    returned: &Coin,
) -> (r: Result<Response, ContractError>)
    requires
        state@.wf(),
    ensures
        !is_pair_token(state@, caller@) ==> r == Err::<Response, ContractError>(
            ContractError::Unauthorized,
        ),
        is_pair_token(state@, caller@) ==> result_view(r) == swap_spec(
            state@,
            coins_view(funds@),
            token_sender@,
            AssetView { info: AssetInfoView::Token(caller@), amount },
            belief_price,
            max_spread,
            to.deep_view(),
            returned@,
        ),
{
    let offer = AssetInfo::Token { contract_addr: caller.clone() };
    let infos = &state.config.pair_info.asset_infos;
    let authorized = offer.equal(&infos[0]) || offer.equal(&infos[1]);
    if !authorized {
        assert(!is_pair_token(state@, caller@));
        return Err(ContractError::Unauthorized);
    }
    let offer_asset = Asset { info: offer, amount };
    swap(state, funds, token_sender, &offer_asset, belief_price, max_spread, to, returned)
}

/// Whether a liquidity provision of `assets`, sent with `funds`, passes
/// every check that comes before the backend's simulation is needed.
pub fn check_provide_liquidity(state: &State, funds: &Vec<Coin>, assets: &Vec<Asset>) -> (r: Result<
    (),
    ContractError,
>)
    requires
        state@.wf(),
    ensures
        r == provide_check_spec(state@, coins_view(funds@), assets_view(assets@)),
{
    if assets.len() != 2 {
        return Err(ContractError::WrongAssetCount);
    }
    if state.config.pair_info.liquidity_token.is_none() || state.underlying.is_none() {
        return Err(ContractError::NotInitialized);
    }
    let infos = &state.config.pair_info.asset_infos;
    let d0 = find_amount(assets, &infos[0]);
    let d1 = find_amount(assets, &infos[1]);
    if d0.is_none() || d1.is_none() {
        return Err(ContractError::AssetMismatch);
    }
    if !funds_properly_sent(funds, assets) {
        return Err(ContractError::NativeBalanceMismatch);
    }
    if d0.unwrap() == 0 && d1.unwrap() == 0 {
        return Err(ContractError::InvalidZeroAmount);
    }
    Ok(())
}

/// Whether a swap of `offer_asset`, sent with `funds`, passes every check
/// that comes before the backend's simulation is needed.
pub fn check_swap(state: &State, funds: &Vec<Coin>, offer_asset: &Asset) -> (r: Result<
    (),
    ContractError,
>)
    requires
        state@.wf(),
    ensures
        r == swap_check_spec(state@, coins_view(funds@), offer_asset@),
{
    if !native_sent_matches(offer_asset, funds) {
        return Err(ContractError::NativeBalanceMismatch);
    }
    if find_counter_asset(&state.config.pair_info.asset_infos, &offer_asset.info).is_none() {
        return Err(ContractError::AssetMismatch);
    }
    if state.underlying.is_none() {
        return Err(ContractError::NotInitialized);
    }
    Ok(())
}

/// Whether a withdrawal forwarded by `caller` with `assets` passes every
/// check that comes before the backend's simulation is needed.
pub fn check_withdraw_liquidity(state: &State, caller: &String, assets: &Vec<Asset>) -> (r: Result<
    (),
    ContractError,
>)
    ensures
        r == withdraw_check_spec(state@, caller@, assets@.len()),
{
    match &state.config.pair_info.liquidity_token {
        Some(t) => {
            if !caller.eq(t) {
                return Err(ContractError::Unauthorized);
            }
        },
        None => {
            return Err(ContractError::Unauthorized);
        },
    }
    if assets.len() > 0 {
        return Err(ContractError::ImbalancedWithdrawDisabled);
    }
    if state.underlying.is_none() {
        return Err(ContractError::NotInitialized);
    }
    Ok(())
}

/// Whether a direct swap passes every check that comes before the
/// backend's simulation is needed.
pub fn check_execute_swap(state: &State, funds: &Vec<Coin>, offer_asset: &Asset) -> (r: Result<
    (),
    ContractError,
>)
    requires
        state@.wf(),
    ensures
        !offer_asset@.info.is_native() ==> r == Err::<(), ContractError>(ContractError::Cw20DirectSwap),
        offer_asset@.info.is_native() ==> r == swap_check_spec(
            state@,
            coins_view(funds@),
            offer_asset@,
        ),
{
    if !offer_asset.info.is_native_token() {
        return Err(ContractError::Cw20DirectSwap);
    }
    check_swap(state, funds, offer_asset)
}

/// Whether a swap of `amount` tokens sent by the token contract `caller`
/// passes every check that comes before the backend's simulation is needed.
pub fn check_receive_swap(state: &State, caller: &String, funds: &Vec<Coin>, amount: u128) -> (r: Result<
    (),
    ContractError,
>)
    requires
        state@.wf(),
    ensures
        !is_pair_token(state@, caller@) ==> r == Err::<(), ContractError>(ContractError::Unauthorized),
        is_pair_token(state@, caller@) ==> r == swap_check_spec(
            state@,
            coins_view(funds@),
            AssetView { info: AssetInfoView::Token(caller@), amount },
        ),
{
    let offer = AssetInfo::Token { contract_addr: caller.clone() };
    let infos = &state.config.pair_info.asset_infos;
    if !offer.equal(&infos[0]) && !offer.equal(&infos[1]) {
        assert(!is_pair_token(state@, caller@));
        return Err(ContractError::Unauthorized);
    }
    check_swap(state, funds, &Asset { info: offer, amount })
}

} // verus!
