use crate::asset::{infos_view, AssetInfo, AssetInfoView};
use crate::state::{PairType, PairTypeView};
use vstd::prelude::*;

verus! {

/// The parameters of a new adapter.
#[derive(Clone, Debug, PartialEq, Eq)]
pub struct InstantiateMsg {
    /// The kind of backend pool to use or create.
    pub pair_type: PairType,
    /// The two assets of the pair.
    pub asset_infos: Vec<AssetInfo>,
    /// Code id of the LP token contract to instantiate.
    pub token_code_id: u64,
    /// The factory contract.
    pub factory_addr: String,
    /// The denom adapter contract.
    pub cw20_adapter_addr: String,
    /// Serialised parameters for the backend pool, passed on as they are.
    pub init_params: Option<Vec<u8>>,
}

pub struct InstantiateMsgView {
    pub pair_type: PairTypeView,
    pub asset_infos: Seq<AssetInfoView>,
    pub token_code_id: u64,
    pub factory_addr: Seq<char>,
    pub cw20_adapter_addr: Seq<char>,
    pub init_params: Option<Seq<u8>>,
}

impl View for InstantiateMsg {
    type V = InstantiateMsgView;

    open spec fn view(&self) -> InstantiateMsgView {
        InstantiateMsgView {
            pair_type: self.pair_type@,
            asset_infos: infos_view(self.asset_infos@),
            token_code_id: self.token_code_id,
            factory_addr: self.factory_addr@,
            cw20_adapter_addr: self.cw20_adapter_addr@,
            init_params: match self.init_params {
                Some(p) => Some(p@),
                None => None,
            },
        }
    }
}

} // verus!
