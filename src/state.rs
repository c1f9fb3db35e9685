use crate::asset::{infos_view, AssetInfo, AssetInfoView};
use vstd::prelude::*;

verus! {

/// The kind of pool that backs a pair.
#[derive(Clone, Debug, PartialEq, Eq)]
pub enum PairType {
    Xyk {},
    Stable {},
    Custom(String),
}

pub enum PairTypeView {
    Xyk,
    Stable,
    Custom(Seq<char>),
}

impl View for PairType {
    type V = PairTypeView;

    open spec fn view(&self) -> PairTypeView {
        match self {
            PairType::Xyk {} => PairTypeView::Xyk,
            PairType::Stable {} => PairTypeView::Stable,
            PairType::Custom(s) => PairTypeView::Custom(s@),
        }
    }
}

impl PairType {
    pub fn duplicate(&self) -> (r: PairType)
        ensures
            r@ == self@,
    {
        match self {
            PairType::Xyk {} => PairType::Xyk {},
            PairType::Stable {} => PairType::Stable {},
            PairType::Custom(s) => PairType::Custom(s.clone()),
        }
    }
}

/// What the pair is: its own address, its LP token, its two assets and its type.
#[derive(Clone, Debug, PartialEq, Eq)]
pub struct PairInfo {
    pub contract_addr: String,
    /// The LP token contract; absent until its instantiation reply arrives.
    pub liquidity_token: Option<String>,
    pub asset_infos: Vec<AssetInfo>,
    pub pair_type: PairType,
}

pub struct PairInfoView {
    pub contract_addr: Seq<char>,
    pub liquidity_token: Option<Seq<char>>,
    pub asset_infos: Seq<AssetInfoView>,
    pub pair_type: PairTypeView,
}

impl View for PairInfo {
    type V = PairInfoView;

    open spec fn view(&self) -> PairInfoView {
        PairInfoView {
            contract_addr: self.contract_addr@,
            liquidity_token: self.liquidity_token.deep_view(),
            asset_infos: infos_view(self.asset_infos@),
            pair_type: self.pair_type@,
        }
    }
}

/// The record that every operation loads: the pair and its collaborators.
#[derive(Clone, Debug, PartialEq, Eq)]
pub struct Config {
    pub pair_info: PairInfo,
    pub factory_addr: String,
    pub cw20_adapter_addr: String,
}

pub struct ConfigView {
    pub pair_info: PairInfoView,
    pub factory_addr: Seq<char>,
    pub cw20_adapter_addr: Seq<char>,
}

impl View for Config {
    type V = ConfigView;

    open spec fn view(&self) -> ConfigView {
        ConfigView {
            pair_info: self.pair_info@,
            factory_addr: self.factory_addr@,
            cw20_adapter_addr: self.cw20_adapter_addr@,
        }
    }
}

impl ConfigView {
    /// Exactly two assets, and they differ.
    pub open spec fn wf(self) -> bool {
        &&& self.pair_info.asset_infos.len() == 2
        &&& self.pair_info.asset_infos[0] != self.pair_info.asset_infos[1]
    }
}

impl Config {
    pub fn is_well_formed(&self) -> (r: bool)
        ensures
            r == self@.wf(),
    {
        let infos = &self.pair_info.asset_infos;
        infos.len() == 2 && !infos[0].equal(&infos[1])
    }
}

/// The backend pool behind the pair and the denom of its LP shares.
#[derive(Clone, Debug, PartialEq, Eq)]
pub struct UnderlyingPool {
    pub pool_addr: String,
    pub lp_denom: String,
}

pub struct UnderlyingPoolView {
    pub pool_addr: Seq<char>,
    pub lp_denom: Seq<char>,
}

impl View for UnderlyingPool {
    type V = UnderlyingPoolView;

    open spec fn view(&self) -> UnderlyingPoolView {
        UnderlyingPoolView { pool_addr: self.pool_addr@, lp_denom: self.lp_denom@ }
    }
}

/// Everything the contract keeps. The pool address and its LP denom are
/// stored together: both are known, or neither is.
#[derive(Clone, Debug, PartialEq, Eq)]
pub struct State {
    pub config: Config,
    pub underlying: Option<UnderlyingPool>,
}

pub open spec fn pool_view(o: Option<UnderlyingPool>) -> Option<UnderlyingPoolView> {
    match o {
        Some(u) => Some(u@),
        None => None,
    }
}

pub struct StateView {
    pub config: ConfigView,
    pub underlying: Option<UnderlyingPoolView>,
}

impl View for State {
    type V = StateView;

    open spec fn view(&self) -> StateView {
        StateView {
            config: self.config@,
            underlying: pool_view(self.underlying),
        }
    }
}

impl StateView {
    pub open spec fn wf(self) -> bool {
        self.config.wf()
    }

    /// Bootstrap is complete: the LP token and the backend pool are both known.
    pub open spec fn is_ready(self) -> bool {
        self.config.pair_info.liquidity_token is Some && self.underlying is Some
    }
}

/// The name and version recorded for the code that runs the contract.
#[derive(Clone, Debug, PartialEq, Eq)]
pub struct ContractVersion {
    pub contract: String,
    pub version: String,
}

pub struct ContractVersionView {
    pub contract: Seq<char>,
    pub version: Seq<char>,
}

impl View for ContractVersion {
    type V = ContractVersionView;

    open spec fn view(&self) -> ContractVersionView {
        ContractVersionView { contract: self.contract@, version: self.version@ }
    }
}

} // verus!
